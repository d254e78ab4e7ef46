use vstd::prelude::*;
use crate::error::DaemonError;

verus! {

/// The standard stream that a channel carries.
#[derive(Clone, Copy, Debug, PartialEq, Eq, Structural)]
pub enum Channel {
    Stdin,
    Stdout,
    Stderr,
}

/// A daemon's name is usable iff it is non-empty and cannot leave the base
/// directory nor cut a path short.
pub open spec fn valid_name(name: Seq<char>) -> bool {
    &&& name.len() > 0
    &&& forall|i: int| 0 <= i < name.len() ==> name[i] != '/' && name[i] != '\0'
}

pub open spec fn pid_suffix() -> Seq<char> {
    seq!['.', 'p', 'i', 'd']
}

pub open spec fn channel_suffix(c: Channel) -> Seq<char> {
    match c {
        Channel::Stdin => seq!['_', 's', 't', 'd', 'i', 'n'],
        Channel::Stdout => seq!['_', 's', 't', 'd', 'o', 'u', 't'],
        Channel::Stderr => seq!['_', 's', 't', 'd', 'e', 'r', 'r'],
    }
}

/// File name (inside the base directory) of a daemon's PID file.
pub open spec fn pid_file_name(name: Seq<char>) -> Seq<char> {
    name + pid_suffix()
}

/// `<base>/<name>.pid`
pub open spec fn pid_path(base: Seq<char>, name: Seq<char>) -> Seq<char> {
    base + seq!['/'] + pid_file_name(name)
}

/// `<base>/<name>_stdin`, `<base>/<name>_stdout` or `<base>/<name>_stderr`
pub open spec fn channel_path(base: Seq<char>, name: Seq<char>, c: Channel) -> Seq<char> {
    base + seq!['/'] + name + channel_suffix(c)
}

/// The four filesystem objects that make up one daemon's record.
pub struct DaemonPaths {
    pub name: String,
    pub pid_file: String,
    pub stdin: String,
    pub stdout: String,
    pub stderr: String,
}

impl DaemonPaths {
    pub open spec fn derived_from(&self, base: Seq<char>, name: Seq<char>) -> bool {
        &&& self.name@ == name
        &&& self.pid_file@ == pid_path(base, name)
        &&& self.stdin@ == channel_path(base, name, Channel::Stdin)
        &&& self.stdout@ == channel_path(base, name, Channel::Stdout)
        &&& self.stderr@ == channel_path(base, name, Channel::Stderr)
    }

    /// The path of the FIFO that carries `c`.
    pub fn channel(&self, c: Channel) -> (r: &String)
        ensures
            c == Channel::Stdin ==> r@ == self.stdin@,
            c == Channel::Stdout ==> r@ == self.stdout@,
            c == Channel::Stderr ==> r@ == self.stderr@,
    {
        match c {
            Channel::Stdin => &self.stdin,
            Channel::Stdout => &self.stdout,
            Channel::Stderr => &self.stderr,
        }
    }
}

/// Checks that `name` is a usable daemon name.
pub fn is_valid_name(name: &str) -> (r: bool)
    ensures
        r == valid_name(name@),
{
    let n = name.unicode_len();
    if n == 0 {
        return false;
    }
    let mut i: usize = 0;
    while i < n
        invariant
            n == name@.len(),
            i <= n,
            forall|j: int| 0 <= j < i ==> name@[j] != '/' && name@[j] != '\0',
        decreases n - i,
    {
        let c = name.get_char(i);
        if c == '/' || c == '\0' {
            return false;
        }
        i += 1;
    }
    true
}

fn joined(base: &str, name: &str, suffix: &str) -> (r: String)
    ensures
        r@ == base@ + seq!['/'] + name@ + suffix@,
{
    let mut s = String::from_str(base);
    s.append("/");
    s.append(name);
    s.append(suffix);
    proof {
        reveal_strlit("/");
        assert(s@ =~= base@ + seq!['/'] + name@ + suffix@);
    }
    s
}

/// Derives the PID file and the three FIFO paths of daemon `name` under `base`.
/// A name that could escape `base` is refused.
pub fn daemon_paths(base: &str, name: &str) -> (r: Result<DaemonPaths, DaemonError>)
    ensures
        r is Err <==> !valid_name(name@),
        r is Err ==> r == Err::<DaemonPaths, DaemonError>(DaemonError::InvalidName),
        r matches Ok(p) ==> p.derived_from(base@, name@),
{
    if !is_valid_name(name) {
        return Err(DaemonError::InvalidName);
    }
    let pid_file = joined(base, name, ".pid");
    let stdin = joined(base, name, "_stdin");
    let stdout = joined(base, name, "_stdout");
    let stderr = joined(base, name, "_stderr");
    proof {
        reveal_strlit(".pid");
        reveal_strlit("_stdin");
        reveal_strlit("_stdout");
        reveal_strlit("_stderr");
        assert(".pid"@ =~= pid_suffix());
        assert("_stdin"@ =~= channel_suffix(Channel::Stdin));
        assert("_stdout"@ =~= channel_suffix(Channel::Stdout));
        assert("_stderr"@ =~= channel_suffix(Channel::Stderr));
        assert(pid_file@ =~= pid_path(base@, name@));
    }
    Ok(DaemonPaths { name: String::from_str(name), pid_file, stdin, stdout, stderr })
}

} // verus!
