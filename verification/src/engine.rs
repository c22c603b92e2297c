//! The messages that the store's coordinator exchanges. The operation, result,
//! report and channel types belong to the store and are type parameters here.

use vstd::prelude::*;

verus! {

/// A keyed operation handed to the coordinator.
pub struct Submission<Op, EventTx> {
    pub key_hash: [u8; 32],
    pub operation: Op,
    pub completion_sender: EventTx,
}

/// An operation waiting behind another one on the same key.
pub struct QueuedOperation<Op, EventTx> {
    pub operation: Op,
    pub completion_sender: EventTx,
}

/// A finished operation on a key, with its result when it ran.
pub struct Completion<Op, Res> {
    pub key_hash: [u8; 32],
    pub outcome: Option<(Op, Res)>,
}

/// Everything the coordinator receives.
pub enum CoordinatorEvent<Op, Res, EventTx, ReportTx, AckTx, Outcome> {
    Submission(Submission<Op, EventTx>),
    Completion(Completion<Op, Res>),
    Maintenance(MaintenanceSubmission<ReportTx, EventTx>),
    MaintenanceCompletion(MaintenanceCompletion<Outcome>),
    Flush(AckTx),
    Close(CloseSubmission<AckTx>),
}

/// A request to clean up blobs older than `minimum_age`.
pub struct MaintenanceSubmission<ReportTx, EventTx> {
    pub minimum_age: Option<std::time::Duration>,
    pub sender: ReportTx,
    pub completion_sender: EventTx,
}

/// A request to close the store.
pub struct CloseSubmission<AckTx> {
    pub sender: AckTx,
}

/// A finished maintenance pass, with its outcome when it ran.
pub struct MaintenanceCompletion<Outcome> {
    pub outcome: Option<Outcome>,
}

/// A request held back until the coordinator can accept it.
pub enum PendingEvent<Op, EventTx, ReportTx, AckTx> {
    Submission(Submission<Op, EventTx>),
    Maintenance(MaintenanceSubmission<ReportTx, EventTx>),
    Flush(AckTx),
    Close(CloseSubmission<AckTx>),
}

/// The writing end of a streaming save.
pub struct SaveStreamEndpoint<ChunkTx, Pending> {
    pub chunks: ChunkTx,
    pub result: Pending,
}

/// The reading end of a streaming load.
pub struct LoadStreamEndpoint<ChunkRx, AckTx, Pending> {
    pub chunks: ChunkRx,
    pub acknowledgement: AckTx,
    pub result: Pending,
}

} // verus!
