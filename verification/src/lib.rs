//! Decision logic of the niru focus timer: the timer state machine, the
//! session bookkeeping of the daemon, the client's view of the daemon's
//! events, the line framing of the IPC protocol and the storage columns.
use vstd::prelude::*;

pub mod client;
pub mod ipc;
pub mod models;
pub mod storage;
pub mod text;
pub mod timer;
pub mod tracker;

verus! {

} // verus!
