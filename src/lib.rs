//! Detached, pseudo-terminal backed daemons reached through a PID file and three
//! named pipes: the naming of a daemon's files, the reading of its PID file, the
//! listing of known daemons, and the order of the outside work that each
//! operation performs with the decisions between its steps.
use vstd::prelude::*;

pub mod error;
pub mod laws;
pub mod lifecycle;
pub mod naming;
pub mod pid;
pub mod registry;

verus! {

} // verus!
