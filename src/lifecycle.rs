use vstd::prelude::*;
use crate::error::DaemonError;
use crate::naming::{daemon_paths, valid_name, Channel, DaemonPaths};
use crate::pid::{parse_pid, pid_of};
use crate::registry::strings_view;

verus! {

/// The operations that act on one named daemon.
#[derive(Clone, Copy, Debug, PartialEq, Eq, Structural)]
pub enum Op {
    Create,
    Write,
    ReadStdout,
    ReadStderr,
    Kill,
}

/// One of the four filesystem objects of a daemon's record.
#[derive(Clone, Copy, Debug, PartialEq, Eq, Structural)]
pub enum Target {
    PidFile,
    Fifo(Channel),
}

/// How an operation ended.
#[derive(Clone, Copy, Debug, PartialEq, Eq, Structural)]
pub enum Verdict {
    Success,
    Failure(DaemonError),
}

/// The outside work that an operation asks for next.
#[derive(Clone, Copy, Debug, PartialEq, Eq, Structural)]
pub enum Action {
    /// Create the base directory, with its parents, if it is absent.
    MakeDir,
    /// Create the FIFO of a channel, mode 0777.
    MakeFifo(Channel),
    /// Open the three FIFOs from the daemon's side, each readable and writable.
    OpenChannels,
    /// Detach (writing the PID file), then run the command on a pseudo-terminal
    /// with its streams bound to the opened FIFOs.
    Launch,
    /// Report whether the PID file exists.
    CheckPidFile,
    /// Read the PID file's text.
    ReadPidFile,
    /// Send the null signal to a process.
    Probe(i32),
    /// Open the stdin FIFO write-only and write the message and a newline.
    SendLine,
    /// Open a FIFO without blocking and take whatever bytes it holds now.
    Drain(Channel),
    /// Send the termination signal to a process.
    Terminate(i32),
    /// Remove one object of the record.
    Remove(Target),
    /// The operation is over.
    Finish(Verdict),
}

/// What the outside work reported.
#[derive(Clone, Debug)]
pub enum Event {
    /// The action completed.
    Done,
    /// The action failed.
    Failed,
    /// Whether the PID file exists.
    Exists(bool),
    /// Whether the probed process answered.
    Alive(bool),
    /// Text that was read.
    Text(String),
}

/// An operation in progress: which one, and the action it waits on.
#[derive(Clone, Copy, Debug, PartialEq, Eq, Structural)]
pub struct Machine {
    pub op: Op,
    pub pending: Action,
}

pub open spec fn initial(op: Op) -> Machine {
    Machine {
        op,
        pending: if op == Op::Create {
            Action::MakeDir
        } else {
            Action::CheckPidFile
        },
    }
}

pub open spec fn fail(e: DaemonError) -> Action {
    Action::Finish(Verdict::Failure(e))
}

/// What the operation does once the daemon is known to be alive.
pub open spec fn after_probe(op: Op) -> Action {
    match op {
        Op::Write => Action::SendLine,
        Op::ReadStdout => Action::Drain(Channel::Stdout),
        Op::ReadStderr => Action::Drain(Channel::Stderr),
        _ => fail(DaemonError::NotRunning),
    }
}

/// The next action of an operation, given what the pending one reported.
/// A report of the wrong kind counts as a failure of the pending action.
pub open spec fn next(m: Machine, e: Event) -> Action {
    match m.pending {
        Action::MakeDir => if e is Done {
            Action::MakeFifo(Channel::Stdin)
        } else {
            fail(DaemonError::ChannelIo)
        },
        Action::MakeFifo(c) => if !(e is Done) {
            fail(DaemonError::ChannelIo)
        } else {
            match c {
                Channel::Stdin => Action::MakeFifo(Channel::Stdout),
                Channel::Stdout => Action::MakeFifo(Channel::Stderr),
                Channel::Stderr => Action::OpenChannels,
            }
        },
        Action::OpenChannels => if e is Done {
            Action::Launch
        } else {
            fail(DaemonError::ChannelIo)
        },
        Action::Launch => if e is Done {
            Action::Finish(Verdict::Success)
        } else {
            fail(DaemonError::SpawnFailure)
        },
        Action::CheckPidFile => match e {
            Event::Exists(true) => Action::ReadPidFile,
            Event::Exists(false) => fail(DaemonError::UnknownDaemon),
            _ => fail(DaemonError::ChannelIo),
        },
        Action::ReadPidFile => match e {
            Event::Text(t) => match pid_of(t@) {
                Some(p) => if m.op == Op::Kill {
                    Action::Terminate(p)
                } else {
                    Action::Probe(p)
                },
                None => fail(DaemonError::CorruptState),
            },
            _ => fail(DaemonError::ChannelIo),
        },
        Action::Probe(_) => match e {
            Event::Alive(true) => after_probe(m.op),
            _ => fail(DaemonError::NotRunning),
        },
        Action::SendLine => if e is Done {
            Action::Finish(Verdict::Success)
        } else {
            fail(DaemonError::ChannelIo)
        },
        Action::Drain(_) => if e is Text {
            Action::Finish(Verdict::Success)
        } else {
            fail(DaemonError::ChannelIo)
        },
        Action::Terminate(_) => Action::Remove(Target::PidFile),
        Action::Remove(t) => if !(e is Done) {
            fail(DaemonError::ChannelIo)
        } else {
            match t {
                Target::PidFile => Action::Remove(Target::Fifo(Channel::Stdin)),
                Target::Fifo(Channel::Stdin) => Action::Remove(Target::Fifo(Channel::Stdout)),
                Target::Fifo(Channel::Stdout) => Action::Remove(Target::Fifo(Channel::Stderr)),
                Target::Fifo(Channel::Stderr) => Action::Finish(Verdict::Success),
            }
        },
        Action::Finish(v) => Action::Finish(v),
    }
}

/// The actions that an operation asks for, one per report, from `m` on.
pub open spec fn run(m: Machine, events: Seq<Event>) -> Seq<Action>
    decreases events.len(),
{
    if events.len() == 0 {
        Seq::empty()
    } else {
        let a = next(m, events[0]);
        seq![a] + run(Machine { op: m.op, pending: a }, events.drop_first())
    }
}

/// Fails with `UnknownDaemon` iff the PID file does not exist.
pub fn ensure_pid_file(exists: bool) -> (r: Result<(), DaemonError>)
    ensures
        exists ==> r is Ok,
        !exists ==> r == Err::<(), DaemonError>(DaemonError::UnknownDaemon),
{
    if exists {
        Ok(())
    } else {
        Err(DaemonError::UnknownDaemon)
    }
}

/// Fails with `NotRunning` iff the probe got no answer.
pub fn ensure_process_is_running(alive: bool) -> (r: Result<(), DaemonError>)
    ensures
        alive ==> r is Ok,
        !alive ==> r == Err::<(), DaemonError>(DaemonError::NotRunning),
{
    if alive {
        Ok(())
    } else {
        Err(DaemonError::NotRunning)
    }
}

impl Machine {
    /// Takes the report of the pending action and returns the next one.
    pub fn step(&mut self, e: &Event) -> (a: Action)
        ensures
            a == next(*old(self), *e),
            *final(self) == (Machine { op: old(self).op, pending: a }),
    {
        let a = match self.pending {
            Action::MakeDir => match e {
                Event::Done => Action::MakeFifo(Channel::Stdin),
                _ => Action::Finish(Verdict::Failure(DaemonError::ChannelIo)),
            },
            Action::MakeFifo(c) => match e {
                Event::Done => match c {
                    Channel::Stdin => Action::MakeFifo(Channel::Stdout),
                    Channel::Stdout => Action::MakeFifo(Channel::Stderr),
                    Channel::Stderr => Action::OpenChannels,
                },
                _ => Action::Finish(Verdict::Failure(DaemonError::ChannelIo)),
            },
            Action::OpenChannels => match e {
                Event::Done => Action::Launch,
                _ => Action::Finish(Verdict::Failure(DaemonError::ChannelIo)),
            },
            Action::Launch => match e {
                Event::Done => Action::Finish(Verdict::Success),
                _ => Action::Finish(Verdict::Failure(DaemonError::SpawnFailure)),
            },
            Action::CheckPidFile => match e {
                Event::Exists(exists) => match ensure_pid_file(*exists) {
                    Ok(()) => Action::ReadPidFile,
                    Err(err) => Action::Finish(Verdict::Failure(err)),
                },
                _ => Action::Finish(Verdict::Failure(DaemonError::ChannelIo)),
            },
            Action::ReadPidFile => match e {
                Event::Text(t) => match parse_pid(t.as_str()) {
                    Ok(p) => if self.op == Op::Kill {
                        Action::Terminate(p)
                    } else {
                        Action::Probe(p)
                    },
                    Err(err) => Action::Finish(Verdict::Failure(err)),
                },
                _ => Action::Finish(Verdict::Failure(DaemonError::ChannelIo)),
            },
            Action::Probe(_) => {
                let alive = match e {
                    Event::Alive(b) => *b,
                    _ => false,
                };
                match ensure_process_is_running(alive) {
                    Ok(()) => match self.op {
                        Op::Write => Action::SendLine,
                        Op::ReadStdout => Action::Drain(Channel::Stdout),
                        Op::ReadStderr => Action::Drain(Channel::Stderr),
                        _ => Action::Finish(Verdict::Failure(DaemonError::NotRunning)),
                    },
                    Err(err) => Action::Finish(Verdict::Failure(err)),
                }
            },
            Action::SendLine => match e {
                Event::Done => Action::Finish(Verdict::Success),
                _ => Action::Finish(Verdict::Failure(DaemonError::ChannelIo)),
            },
            Action::Drain(_) => match e {
                Event::Text(_) => Action::Finish(Verdict::Success),
                _ => Action::Finish(Verdict::Failure(DaemonError::ChannelIo)),
            },
            Action::Terminate(_) => Action::Remove(Target::PidFile),
            Action::Remove(t) => match e {
                Event::Done => match t {
                    Target::PidFile => Action::Remove(Target::Fifo(Channel::Stdin)),
                    Target::Fifo(Channel::Stdin) => Action::Remove(Target::Fifo(Channel::Stdout)),
                    Target::Fifo(Channel::Stdout) => Action::Remove(Target::Fifo(Channel::Stderr)),
                    Target::Fifo(Channel::Stderr) => Action::Finish(Verdict::Success),
                },
                _ => Action::Finish(Verdict::Failure(DaemonError::ChannelIo)),
            },
            Action::Finish(v) => Action::Finish(v),
        };
        self.pending = a;
        a
    }
}

impl DaemonPaths {
    /// The path of one object of the record.
    pub fn target(&self, t: Target) -> (r: &String)
        ensures
            t == Target::PidFile ==> r@ == self.pid_file@,
            t == Target::Fifo(Channel::Stdin) ==> r@ == self.stdin@,
            t == Target::Fifo(Channel::Stdout) ==> r@ == self.stdout@,
            t == Target::Fifo(Channel::Stderr) ==> r@ == self.stderr@,
    {
        match t {
            Target::PidFile => &self.pid_file,
            Target::Fifo(c) => self.channel(c),
        }
    }
}

/// One operation on one daemon: the paths it works on and its progress.
pub struct Session {
    pub paths: DaemonPaths,
    pub machine: Machine,
}

/// Starts operation `op` on daemon `name` under base directory `base`.
pub fn open_session(base: &str, name: &str, op: Op) -> (r: Result<Session, DaemonError>)
    ensures
        r is Err <==> !valid_name(name@),
        r is Err ==> r == Err::<Session, DaemonError>(DaemonError::InvalidName),
        r matches Ok(s) ==> s.paths.derived_from(base@, name@) && s.machine == initial(op),
{
    match daemon_paths(base, name) {
        Ok(paths) => {
            let pending = if op == Op::Create {
                Action::MakeDir
            } else {
                Action::CheckPidFile
            };
            Ok(Session { paths, machine: Machine { op, pending } })
        },
        Err(e) => Err(e),
    }
}

/// Starts creating daemon `name`: the base directory, then the three FIFOs,
/// then opening them and launching the command.
pub fn create(base: &str, name: &str) -> (r: Result<Session, DaemonError>)
    ensures
        r is Err <==> !valid_name(name@),
        r is Err ==> r == Err::<Session, DaemonError>(DaemonError::InvalidName),
        r matches Ok(s) ==> s.paths.derived_from(base@, name@) && s.machine == initial(Op::Create),
        r matches Ok(s) ==> s.machine.pending == Action::MakeDir,
{
    open_session(base, name, Op::Create)
}

/// Starts writing a line to daemon `name`'s stdin.
pub fn write(base: &str, name: &str) -> (r: Result<Session, DaemonError>)
    ensures
        r is Err <==> !valid_name(name@),
        r is Err ==> r == Err::<Session, DaemonError>(DaemonError::InvalidName),
        r matches Ok(s) ==> s.paths.derived_from(base@, name@) && s.machine == initial(Op::Write),
{
    open_session(base, name, Op::Write)
}

/// Starts reading what daemon `name` has written to stdout so far.
pub fn read_stdout(base: &str, name: &str) -> (r: Result<Session, DaemonError>)
    ensures
        r is Err <==> !valid_name(name@),
        r is Err ==> r == Err::<Session, DaemonError>(DaemonError::InvalidName),
        r matches Ok(s) ==> s.paths.derived_from(base@, name@) && s.machine == initial(
            Op::ReadStdout,
        ),
{
    open_session(base, name, Op::ReadStdout)
}

/// Starts reading what daemon `name` has written to stderr so far.
pub fn read_stderr(base: &str, name: &str) -> (r: Result<Session, DaemonError>)
    ensures
        r is Err <==> !valid_name(name@),
        r is Err ==> r == Err::<Session, DaemonError>(DaemonError::InvalidName),
        r matches Ok(s) ==> s.paths.derived_from(base@, name@) && s.machine == initial(
            Op::ReadStderr,
        ),
{
    open_session(base, name, Op::ReadStderr)
}

/// Starts killing daemon `name` and removing its record.
pub fn kill_daemon(base: &str, name: &str) -> (r: Result<Session, DaemonError>)
    ensures
        r is Err <==> !valid_name(name@),
        r is Err ==> r == Err::<Session, DaemonError>(DaemonError::InvalidName),
        r matches Ok(s) ==> s.paths.derived_from(base@, name@) && s.machine == initial(Op::Kill),
{
    open_session(base, name, Op::Kill)
}

/// The bytes that `write` sends: the message and one newline.
pub fn framed_line(message: &str) -> (r: String)
    ensures
        r@ == message@.push('\n'),
{
    let mut s = String::from_str(message);
    s.append("\n");
    proof {
        reveal_strlit("\n");
        assert(s@ =~= message@.push('\n'));
    }
    s
}

/// The names whose kill succeeded, in the order in which they were killed.
pub open spec fn killed(names: Seq<Seq<char>>, verdicts: Seq<Verdict>) -> Seq<Seq<char>>
    decreases names.len(),
{
    if names.len() == 0 || verdicts.len() == 0 {
        Seq::empty()
    } else {
        let rest = killed(names.drop_last(), verdicts.drop_last());
        if verdicts.last() == Verdict::Success {
            rest.push(names.last())
        } else {
            rest
        }
    }
}

/// The outcome of killing every listed daemon, one after another, given how each
/// kill ended: a failed kill is passed over and the others still count.
pub fn kill_all_daemons(names: &Vec<String>, verdicts: &Vec<Verdict>) -> (r: Vec<String>)
    requires
        names@.len() == verdicts@.len(),
    ensures
        strings_view(r@) == killed(strings_view(names@), verdicts@),
{
    let mut out: Vec<String> = Vec::new();
    let mut i: usize = 0;
    while i < names.len()
        invariant
            i <= names@.len() == verdicts@.len(),
            strings_view(out@) == killed(
                strings_view(names@.subrange(0, i as int)),
                verdicts@.subrange(0, i as int),
            ),
        decreases names@.len() - i,
    {
        let ghost n0 = strings_view(names@.subrange(0, i as int));
        let ghost n1 = strings_view(names@.subrange(0, i + 1));
        let ghost v1 = verdicts@.subrange(0, i + 1);
        assert(n1.drop_last() =~= n0);
        assert(v1.drop_last() =~= verdicts@.subrange(0, i as int));
        if verdicts[i] == Verdict::Success {
            out.push(names[i].clone());
        }
        assert(strings_view(out@) =~= killed(n1, v1));
        i += 1;
    }
    assert(names@.subrange(0, names@.len() as int) =~= names@);
    assert(verdicts@.subrange(0, verdicts@.len() as int) =~= verdicts@);
    out
}

} // verus!
