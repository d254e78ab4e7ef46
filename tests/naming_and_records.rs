use attyvo::error::DaemonError;
use attyvo::naming::{daemon_paths, is_valid_name, Channel};
use attyvo::pid::parse_pid;
use attyvo::registry::{daemon_name_of, list_daemons, DirEntry};

fn entry(name: &str, is_file: bool) -> DirEntry {
    DirEntry { file_name: name.to_string(), is_file }
}

#[test]
fn paths_are_derived_from_base_and_name() {
    let p = daemon_paths("/tmp/daemon_pipes", "python-repl").ok().unwrap();
    assert_eq!(p.name, "python-repl");
    assert_eq!(p.pid_file, "/tmp/daemon_pipes/python-repl.pid");
    assert_eq!(p.stdin, "/tmp/daemon_pipes/python-repl_stdin");
    assert_eq!(p.stdout, "/tmp/daemon_pipes/python-repl_stdout");
    assert_eq!(p.stderr, "/tmp/daemon_pipes/python-repl_stderr");
    assert_eq!(p.channel(Channel::Stdout), "/tmp/daemon_pipes/python-repl_stdout");
}

#[test]
fn names_that_leave_the_base_directory_are_refused() {
    assert!(matches!(daemon_paths("/tmp/d", "../etc/x"), Err(DaemonError::InvalidName)));
    assert!(matches!(daemon_paths("/tmp/d", "a/b"), Err(DaemonError::InvalidName)));
    assert!(matches!(daemon_paths("/tmp/d", ""), Err(DaemonError::InvalidName)));
    assert!(matches!(daemon_paths("/tmp/d", "a\0b"), Err(DaemonError::InvalidName)));
    assert!(is_valid_name("t1"));
    assert!(is_valid_name(".."));
    assert!(!is_valid_name("/"));
}

#[test]
fn pid_text_is_trimmed_and_parsed() {
    assert_eq!(parse_pid("1234\n"), Ok(1234));
    assert_eq!(parse_pid("  +42 \t"), Ok(42));
    assert_eq!(parse_pid("\u{3000}7\u{a0}"), Ok(7));
    assert_eq!(parse_pid("2147483647"), Ok(2147483647));
    assert_eq!(parse_pid("007"), Ok(7));
}

#[test]
fn corrupt_pid_text_is_refused() {
    assert_eq!(parse_pid(""), Err(DaemonError::CorruptState));
    assert_eq!(parse_pid("   "), Err(DaemonError::CorruptState));
    assert_eq!(parse_pid("abc"), Err(DaemonError::CorruptState));
    assert_eq!(parse_pid("12 34"), Err(DaemonError::CorruptState));
    assert_eq!(parse_pid("+"), Err(DaemonError::CorruptState));
    assert_eq!(parse_pid("-5"), Err(DaemonError::CorruptState));
    assert_eq!(parse_pid("0"), Err(DaemonError::CorruptState));
    assert_eq!(parse_pid("2147483648"), Err(DaemonError::CorruptState));
    assert_eq!(parse_pid("99999999999999999999"), Err(DaemonError::CorruptState));
}

#[test]
fn only_regular_pid_files_are_listed() {
    let entries = vec![
        entry("a.pid", true),
        entry("a_stdin", false),
        entry("a_stdout", false),
        entry("b.pid", false),
        entry("c.pid.pid", true),
        entry("notes.txt", true),
        entry("pid", true),
    ];
    assert_eq!(list_daemons(&entries), vec!["a".to_string(), "c.pid".to_string()]);
    assert_eq!(list_daemons(&Vec::new()), Vec::<String>::new());
}

#[test]
fn entry_name_strips_only_the_suffix() {
    assert_eq!(daemon_name_of("t1.pid", true), Some("t1".to_string()));
    assert_eq!(daemon_name_of("t1.pid", false), None);
    assert_eq!(daemon_name_of("t1.pidx", true), None);
    assert_eq!(daemon_name_of(".pid", true), Some(String::new()));
}
