//! The decisions of the background worker loop. The worker thread runs a
//! runtime that waits for either a submitted task or cancellation; this
//! module says what each of these events leads to.

use vstd::prelude::*;

verus! {

/// How many tasks may wait in the worker's channel.
pub const WORKER_CHANNEL_BUF: usize = 8;

/// What the worker loop observed.
#[derive(Debug, PartialEq, Eq, Clone, Copy)]
pub enum WorkerEvent {
    /// A task arrived on the channel.
    TaskReceived,
    /// The channel closed: every sender (every `WorkerThread`) is gone.
    ChannelClosed,
    /// Shutdown was requested.
    Cancelled,
}

/// What the worker loop does next.
#[derive(Debug, PartialEq, Eq, Clone, Copy)]
pub enum WorkerAction {
    /// Spawn the received task on the runtime and keep waiting.
    SpawnAndContinue,
    /// Leave the loop.
    Stop,
}

/// The next action of the worker loop. A closed channel is left out: the
/// loop does not go on past it (every handle to the worker has been dropped).
pub fn worker_step(event: WorkerEvent) -> (r: WorkerAction)
    requires
        event != WorkerEvent::ChannelClosed,
    ensures
        event == WorkerEvent::TaskReceived ==> r == WorkerAction::SpawnAndContinue,
        event == WorkerEvent::Cancelled ==> r == WorkerAction::Stop,
{
    match event {
        WorkerEvent::TaskReceived => WorkerAction::SpawnAndContinue,
        WorkerEvent::Cancelled => WorkerAction::Stop,
        WorkerEvent::ChannelClosed => vstd::pervasive::unreached(),
    }
}

} // verus!
