use vstd::prelude::*;

verus! {

/// Every way an operation on a daemon can fail.
#[derive(Clone, Copy, Debug, PartialEq, Eq, Structural)]
pub enum DaemonError {
    /// The name is empty or holds a path separator or a NUL character.
    InvalidName,
    /// No PID file exists for the name.
    UnknownDaemon,
    /// The PID file exists but the recorded process does not answer the probe.
    NotRunning,
    /// The PID file does not hold a process id.
    CorruptState,
    /// A channel or record file could not be created, opened, read, written or removed.
    ChannelIo,
    /// Detaching or allocating the pseudo-terminal failed.
    SpawnFailure,
}

} // verus!
