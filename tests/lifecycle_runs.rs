use attyvo::error::DaemonError;
use attyvo::lifecycle::{
    create, framed_line, kill_all_daemons, kill_daemon, read_stderr, read_stdout, Action,
    Event, Machine, Target, Verdict,
};
use attyvo::naming::Channel;
use attyvo::registry::{list_daemons, DirEntry};

const BASE: &str = "/tmp/daemon_pipes";

fn text(s: &str) -> Event {
    Event::Text(s.to_string())
}

fn feed(m: &mut Machine, events: Vec<Event>) -> Vec<Action> {
    events.iter().map(|e| m.step(e)).collect()
}

fn entry(name: &str, is_file: bool) -> DirEntry {
    DirEntry { file_name: name.to_string(), is_file }
}

#[test]
fn create_builds_fifos_then_launches() {
    let mut s = create(BASE, "repl").ok().unwrap();
    assert_eq!(s.machine.pending, Action::MakeDir);
    let actions = feed(&mut s.machine, vec![Event::Done; 6]);
    assert_eq!(
        actions,
        vec![
            Action::MakeFifo(Channel::Stdin),
            Action::MakeFifo(Channel::Stdout),
            Action::MakeFifo(Channel::Stderr),
            Action::OpenChannels,
            Action::Launch,
            Action::Finish(Verdict::Success),
        ]
    );
    // the created record is listed under its name
    let listed = list_daemons(&vec![entry("repl.pid", true), entry("repl_stdin", false)]);
    assert!(listed.contains(&"repl".to_string()));
}

#[test]
fn create_failures_are_classified() {
    let mut s = create(BASE, "x").ok().unwrap();
    assert_eq!(s.machine.step(&Event::Failed), Action::Finish(Verdict::Failure(DaemonError::ChannelIo)));
    let mut s = create(BASE, "x").ok().unwrap();
    let actions = feed(&mut s.machine, vec![Event::Done, Event::Done, Event::Failed]);
    assert_eq!(actions[2], Action::Finish(Verdict::Failure(DaemonError::ChannelIo)));
    let mut s = create(BASE, "x").ok().unwrap();
    let actions = feed(&mut s.machine, vec![Event::Done, Event::Done, Event::Done, Event::Done, Event::Done, Event::Failed]);
    assert_eq!(actions[5], Action::Finish(Verdict::Failure(DaemonError::SpawnFailure)));
    assert!(matches!(create(BASE, "a/b"), Err(DaemonError::InvalidName)));
}

#[test]
fn write_hello_then_read_it_back() {
    let mut w = attyvo::lifecycle::write(BASE, "echo").ok().unwrap();
    let actions = feed(&mut w.machine, vec![Event::Exists(true), text("4242\n"), Event::Alive(true), Event::Done]);
    assert_eq!(
        actions,
        vec![Action::ReadPidFile, Action::Probe(4242), Action::SendLine, Action::Finish(Verdict::Success)]
    );
    assert_eq!(framed_line("hello"), "hello\n");
    let mut r = read_stdout(BASE, "echo").ok().unwrap();
    let actions = feed(&mut r.machine, vec![Event::Exists(true), text("4242"), Event::Alive(true), text("hello\r\n")]);
    assert_eq!(actions[2], Action::Drain(Channel::Stdout));
    assert_eq!(actions[3], Action::Finish(Verdict::Success));
}

#[test]
fn read_with_nothing_buffered_succeeds_empty() {
    let mut r = read_stdout(BASE, "quiet").ok().unwrap();
    let actions = feed(&mut r.machine, vec![Event::Exists(true), text("77"), Event::Alive(true), text("")]);
    assert_eq!(actions, vec![Action::ReadPidFile, Action::Probe(77), Action::Drain(Channel::Stdout), Action::Finish(Verdict::Success)]);
    let mut e = read_stderr(BASE, "quiet").ok().unwrap();
    let actions = feed(&mut e.machine, vec![Event::Exists(true), text("77"), Event::Alive(true), text("")]);
    assert_eq!(actions[2], Action::Drain(Channel::Stderr));
    assert_eq!(actions[3], Action::Finish(Verdict::Success));
}

#[test]
fn kill_removes_the_whole_record() {
    let mut k = kill_daemon(BASE, "t1").ok().unwrap();
    let actions = feed(
        &mut k.machine,
        vec![Event::Exists(true), text("999\n"), Event::Done, Event::Done, Event::Done, Event::Done, Event::Done],
    );
    assert_eq!(
        actions,
        vec![
            Action::ReadPidFile,
            Action::Terminate(999),
            Action::Remove(Target::PidFile),
            Action::Remove(Target::Fifo(Channel::Stdin)),
            Action::Remove(Target::Fifo(Channel::Stdout)),
            Action::Remove(Target::Fifo(Channel::Stderr)),
            Action::Finish(Verdict::Success),
        ]
    );
    assert_eq!(k.paths.target(Target::PidFile), "/tmp/daemon_pipes/t1.pid");
    assert_eq!(k.paths.target(Target::Fifo(Channel::Stderr)), "/tmp/daemon_pipes/t1_stderr");
    // afterwards the record is gone: nothing lists it, and the other operations fail
    assert!(!list_daemons(&vec![entry("other.pid", true)]).contains(&"t1".to_string()));
    let mut w = attyvo::lifecycle::write(BASE, "t1").ok().unwrap();
    assert_eq!(w.machine.step(&Event::Exists(false)), Action::Finish(Verdict::Failure(DaemonError::UnknownDaemon)));
    let mut r = read_stdout(BASE, "t1").ok().unwrap();
    assert_eq!(r.machine.step(&Event::Exists(false)), Action::Finish(Verdict::Failure(DaemonError::UnknownDaemon)));
}

#[test]
fn kill_of_unknown_daemon_touches_nothing() {
    let mut k = kill_daemon(BASE, "ghost").ok().unwrap();
    let actions = feed(&mut k.machine, vec![Event::Exists(false), Event::Done, Event::Done]);
    for a in actions {
        assert_eq!(a, Action::Finish(Verdict::Failure(DaemonError::UnknownDaemon)));
    }
}

#[test]
fn dead_process_is_not_running() {
    let mut w = attyvo::lifecycle::write(BASE, "gone").ok().unwrap();
    let actions = feed(&mut w.machine, vec![Event::Exists(true), text("31337"), Event::Alive(false)]);
    assert_eq!(actions[2], Action::Finish(Verdict::Failure(DaemonError::NotRunning)));
    let mut r = read_stdout(BASE, "bad").ok().unwrap();
    let actions = feed(&mut r.machine, vec![Event::Exists(true), text("not a pid")]);
    assert_eq!(actions[1], Action::Finish(Verdict::Failure(DaemonError::CorruptState)));
    let mut r = read_stdout(BASE, "bad").ok().unwrap();
    let actions = feed(&mut r.machine, vec![Event::Exists(true), Event::Failed]);
    assert_eq!(actions[1], Action::Finish(Verdict::Failure(DaemonError::ChannelIo)));
}

#[test]
fn kill_all_with_a_stale_record_cleans_both() {
    // b's process is already gone: its signal fails, its files are still removed
    let mut a = kill_daemon(BASE, "a").ok().unwrap();
    let va = feed(&mut a.machine, vec![Event::Exists(true), text("100"), Event::Done, Event::Done, Event::Done, Event::Done, Event::Done]);
    let mut b = kill_daemon(BASE, "b").ok().unwrap();
    let vb = feed(&mut b.machine, vec![Event::Exists(true), text("101"), Event::Failed, Event::Done, Event::Done, Event::Done, Event::Done]);
    assert_eq!(va[6], Action::Finish(Verdict::Success));
    assert_eq!(vb[2], Action::Remove(Target::PidFile));
    assert_eq!(vb[6], Action::Finish(Verdict::Success));
    let names = vec!["a".to_string(), "b".to_string()];
    assert_eq!(kill_all_daemons(&names, &vec![Verdict::Success, Verdict::Success]), names);
}

#[test]
fn kill_all_reports_only_successful_kills() {
    let names = vec!["a".to_string(), "b".to_string(), "c".to_string()];
    let verdicts = vec![Verdict::Success, Verdict::Failure(DaemonError::ChannelIo), Verdict::Success];
    assert_eq!(kill_all_daemons(&names, &verdicts), vec!["a".to_string(), "c".to_string()]);
    assert_eq!(kill_all_daemons(&Vec::new(), &Vec::new()), Vec::<String>::new());
}

#[test]
fn round_trip_create_write_read_kill() {
    let mut c = create(BASE, "t1").ok().unwrap();
    assert_eq!(feed(&mut c.machine, vec![Event::Done; 6])[5], Action::Finish(Verdict::Success));
    let mut w = attyvo::lifecycle::write(BASE, "t1").ok().unwrap();
    assert_eq!(feed(&mut w.machine, vec![Event::Exists(true), text("500"), Event::Alive(true), Event::Done])[3], Action::Finish(Verdict::Success));
    assert_eq!(framed_line("abc"), "abc\n");
    let mut r = read_stdout(BASE, "t1").ok().unwrap();
    assert_eq!(feed(&mut r.machine, vec![Event::Exists(true), text("500"), Event::Alive(true), text("abc\r\n")])[3], Action::Finish(Verdict::Success));
    let mut k = kill_daemon(BASE, "t1").ok().unwrap();
    let done = feed(&mut k.machine, vec![Event::Exists(true), text("500"), Event::Done, Event::Done, Event::Done, Event::Done, Event::Done]);
    assert_eq!(done[6], Action::Finish(Verdict::Success));
    assert!(list_daemons(&vec![entry("t1.pid", true)]).contains(&"t1".to_string()));
    assert!(!list_daemons(&Vec::new()).contains(&"t1".to_string()));
}
