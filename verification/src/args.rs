use vstd::prelude::*;
use crate::error::BenchError;

verus! {

/// Options that every workload accepts.
#[derive(Clone, Debug)]
pub struct CommonArgs {
    /// The identifier to report the run under; one is generated when absent.
    pub run_id: Option<String>,
}

/// The persistence workloads.
#[derive(Debug)]
pub enum PersistenceCommand {
    Envelope(EnvelopeArgs),
    FileStore(FileStoreArgs),
    Coordination(CoordinationArgs),
    Lifecycle(LifecycleArgs),
    Maintenance(MaintenanceArgs),
    Backpressure(BackpressureArgs),
}

/// Flush barriers, idle and queued behind a gated save.
#[derive(Clone, Debug)]
pub struct MaintenanceArgs {
    pub common: CommonArgs,
    pub payload_size: usize,
    pub max_concurrency: usize,
    pub samples: usize,
}

/// The endpoint of a stream that is held back.
#[derive(Clone, Copy, Debug, PartialEq, Eq, Structural)]
pub enum BackpressureDirection {
    Source,
    Destination,
}

/// Streaming backpressure against a gated source or destination.
#[derive(Clone, Debug)]
pub struct BackpressureArgs {
    pub common: CommonArgs,
    pub direction: BackpressureDirection,
    pub payload_size: usize,
    pub max_concurrency: usize,
    pub samples: usize,
}

/// What the envelope workload measures.
#[derive(Clone, Copy, Debug, PartialEq, Eq, Structural)]
pub enum EnvelopeMode {
    Encode,
    Decode,
    Crc32c,
    ErrorPaths,
}

/// Envelope encoding, decoding, checksumming and error paths.
#[derive(Clone, Debug)]
pub struct EnvelopeArgs {
    pub common: CommonArgs,
    pub mode: EnvelopeMode,
    pub payload_size: usize,
    pub samples: usize,
    pub operations_per_sample: usize,
}

/// The store operation that the file-store workload times.
#[derive(Clone, Copy, Debug, PartialEq, Eq, Structural)]
pub enum StoreOperation {
    SaveCreate,
    SaveReplace,
    SaveGrowing,
    SaveShrinking,
    LoadPresent,
    LoadMissing,
    ClearPresent,
    ClearMissing,
    InspectPresent,
    InspectMissing,
    QuarantinePresent,
    QuarantineMissing,
}

/// Whether blobs go through the streaming or the complete-value API.
#[derive(Clone, Copy, Debug, PartialEq, Eq, Structural)]
pub enum BlobIoMode {
    Streaming,
    Complete,
}

/// One durable store operation per sample.
#[derive(Clone, Debug)]
pub struct FileStoreArgs {
    pub common: CommonArgs,
    pub operation: StoreOperation,
    pub io_mode: BlobIoMode,
    pub payload_size: usize,
    pub samples: usize,
}

/// Concurrent inspections of one shared key or of distinct keys.
#[derive(Clone, Debug)]
pub struct CoordinationArgs {
    pub common: CommonArgs,
    pub concurrency: usize,
    pub operations: usize,
    pub different_keys: bool,
}

/// Opening, loading, flushing and closing several stores.
#[derive(Clone, Debug)]
pub struct LifecycleArgs {
    pub common: CommonArgs,
    pub max_concurrency: usize,
    pub stores: usize,
    pub payload_size: usize,
    pub samples: usize,
}

/// Refuses a run without samples.
pub fn validate_samples(samples: usize) -> (checked: Result<(), BenchError>)
    ensures
        checked == if samples == 0 {
            Err::<(), BenchError>(BenchError::ZeroSamples)
        } else {
            Ok(())
        },
{
    if samples == 0 {
        return Err(BenchError::ZeroSamples);
    }
    Ok(())
}

impl LifecycleArgs {
    /// Refuses a lifecycle run without samples, stores or workers.
    pub fn validate(&self) -> (checked: Result<(), BenchError>)
        ensures
            checked == if self.samples == 0 {
                Err::<(), BenchError>(BenchError::ZeroSamples)
            } else if self.stores == 0 || self.max_concurrency == 0 {
                Err(BenchError::ZeroStoresOrConcurrency)
            } else {
                Ok(())
            },
    {
        validate_samples(self.samples)?;
        if self.stores == 0 || self.max_concurrency == 0 {
            return Err(BenchError::ZeroStoresOrConcurrency);
        }
        Ok(())
    }
}

impl MaintenanceArgs {
    /// Refuses a maintenance run without samples or workers.
    pub fn validate(&self) -> (checked: Result<(), BenchError>)
        ensures
            checked == if self.samples == 0 {
                Err::<(), BenchError>(BenchError::ZeroSamples)
            } else if self.max_concurrency == 0 {
                Err(BenchError::ZeroMaxConcurrency)
            } else {
                Ok(())
            },
    {
        validate_samples(self.samples)?;
        if self.max_concurrency == 0 {
            return Err(BenchError::ZeroMaxConcurrency);
        }
        Ok(())
    }
}

impl BackpressureArgs {
    /// Refuses a backpressure run without samples or workers, or with a
    /// payload smaller than `chunk_bytes * (channel_capacity + 2)`: too small
    /// to fill the stream channel and hold a chunk on each side of it.
    pub fn validate(&self, chunk_bytes: usize, channel_capacity: usize) -> (checked: Result<(), BenchError>)
        requires
            channel_capacity + 2 <= usize::MAX,
            chunk_bytes * (channel_capacity + 2) <= usize::MAX,
        ensures
            checked == if self.samples == 0 {
                Err::<(), BenchError>(BenchError::ZeroSamples)
            } else if self.max_concurrency == 0 {
                Err(BenchError::ZeroMaxConcurrency)
            } else if self.payload_size < chunk_bytes * (channel_capacity + 2) {
                Err(BenchError::PayloadBelowMinimum {
                    minimum: (chunk_bytes * (channel_capacity + 2)) as usize,
                })
            } else {
                Ok(())
            },
    {
        validate_samples(self.samples)?;
        if self.max_concurrency == 0 {
            return Err(BenchError::ZeroMaxConcurrency);
        }
        let minimum = chunk_bytes * (channel_capacity + 2);
        if self.payload_size < minimum {
            return Err(BenchError::PayloadBelowMinimum { minimum });
        }
        Ok(())
    }
}

impl EnvelopeArgs {
    /// Refuses an envelope run without samples or without operations per sample.
    pub fn validate(&self) -> (checked: Result<(), BenchError>)
        ensures
            checked == if self.samples == 0 {
                Err::<(), BenchError>(BenchError::ZeroSamples)
            } else if self.operations_per_sample == 0 {
                Err(BenchError::ZeroOperationsPerSample)
            } else {
                Ok(())
            },
    {
        validate_samples(self.samples)?;
        if self.operations_per_sample == 0 {
            return Err(BenchError::ZeroOperationsPerSample);
        }
        Ok(())
    }
}

impl FileStoreArgs {
    /// Refuses a file-store run without samples.
    pub fn validate(&self) -> (checked: Result<(), BenchError>)
        ensures
            checked == if self.samples == 0 {
                Err::<(), BenchError>(BenchError::ZeroSamples)
            } else {
                Ok(())
            },
    {
        validate_samples(self.samples)
    }
}

impl CoordinationArgs {
    /// Refuses a coordination run without workers or without operations.
    pub fn validate(&self) -> (checked: Result<(), BenchError>)
        ensures
            checked == if self.concurrency == 0 || self.operations == 0 {
                Err::<(), BenchError>(BenchError::ZeroConcurrencyOrOperations)
            } else {
                Ok(())
            },
    {
        if self.concurrency == 0 || self.operations == 0 {
            return Err(BenchError::ZeroConcurrencyOrOperations);
        }
        Ok(())
    }
}

/// What the timed part of a file-store sample does.
#[derive(Clone, Copy, Debug, PartialEq, Eq, Structural)]
pub enum StoreAction {
    Save,
    Load,
    Clear,
    Inspect,
    Quarantine,
    /// Quarantine a missing blob, which the store refuses.
    QuarantineExpectingError,
}

/// The size of the blob saved under the sample's key before the timed
/// operation, or `None` when the operation starts from a missing key.
pub open spec fn setup_size_of(operation: StoreOperation, payload_size: usize) -> Option<usize> {
    match operation {
        StoreOperation::SaveReplace | StoreOperation::LoadPresent | StoreOperation::ClearPresent
        | StoreOperation::InspectPresent | StoreOperation::QuarantinePresent => Some(payload_size),
        StoreOperation::SaveGrowing => Some(
            if payload_size / 2 >= 1 {
                (payload_size / 2) as usize
            } else {
                1usize
            },
        ),
        StoreOperation::SaveShrinking => Some(
            if payload_size * 2 <= usize::MAX {
                (payload_size * 2) as usize
            } else {
                usize::MAX
            },
        ),
        _ => None,
    }
}

/// The action that the timed part of a sample of `operation` performs.
pub open spec fn action_of(operation: StoreOperation) -> StoreAction {
    match operation {
        StoreOperation::SaveCreate | StoreOperation::SaveReplace | StoreOperation::SaveGrowing
        | StoreOperation::SaveShrinking => StoreAction::Save,
        StoreOperation::LoadPresent | StoreOperation::LoadMissing => StoreAction::Load,
        StoreOperation::ClearPresent | StoreOperation::ClearMissing => StoreAction::Clear,
        StoreOperation::InspectPresent | StoreOperation::InspectMissing => StoreAction::Inspect,
        StoreOperation::QuarantinePresent => StoreAction::Quarantine,
        StoreOperation::QuarantineMissing => StoreAction::QuarantineExpectingError,
    }
}

impl StoreOperation {
    /// The size of the blob to save before the timed operation: the payload
    /// size for a replacing save and for operations on a present blob, half of
    /// it (at least one byte) before a growing save, twice it (saturating)
    /// before a shrinking save, and none for a creating save or a missing blob.
    pub fn setup_payload_size(&self, payload_size: usize) -> (size: Option<usize>)
        ensures
            size == setup_size_of(*self, payload_size),
            *self == StoreOperation::SaveShrinking ==> size == Some(
                if payload_size <= usize::MAX / 2 {
                    (2 * payload_size) as usize
                } else {
                    usize::MAX
                },
            ),
            *self == StoreOperation::SaveGrowing ==> size == Some(
                if payload_size >= 2 {
                    (payload_size / 2) as usize
                } else {
                    1usize
                },
            ),
    {
        match self {
            StoreOperation::SaveReplace | StoreOperation::LoadPresent | StoreOperation::ClearPresent
            | StoreOperation::InspectPresent | StoreOperation::QuarantinePresent => Some(payload_size),
            StoreOperation::SaveGrowing => {
                let half = payload_size / 2;
                Some(if half >= 1 { half } else { 1 })
            },
            StoreOperation::SaveShrinking => Some(
                if payload_size <= usize::MAX / 2 {
                    payload_size * 2
                } else {
                    usize::MAX
                },
            ),
            _ => None,
        }
    }

    /// The action that the timed part of a sample performs.
    pub fn measured_action(&self) -> (action: StoreAction)
        ensures
            action == action_of(*self),
            (*self == StoreOperation::LoadPresent || *self == StoreOperation::LoadMissing) ==> action
                == StoreAction::Load,
    {
        match self {
            StoreOperation::SaveCreate | StoreOperation::SaveReplace | StoreOperation::SaveGrowing
            | StoreOperation::SaveShrinking => StoreAction::Save,
            StoreOperation::LoadPresent | StoreOperation::LoadMissing => StoreAction::Load,
            StoreOperation::ClearPresent | StoreOperation::ClearMissing => StoreAction::Clear,
            StoreOperation::InspectPresent | StoreOperation::InspectMissing => StoreAction::Inspect,
            StoreOperation::QuarantinePresent => StoreAction::Quarantine,
            StoreOperation::QuarantineMissing => StoreAction::QuarantineExpectingError,
        }
    }
}

/// The file-store workloads do what their names say: a growing save replaces
/// a blob no larger than the payload (for a payload of at least one byte), a
/// shrinking save replaces one no smaller, a replacing save and every
/// operation on a present blob start from a blob of the payload size, and a
/// creating save or an operation on a missing blob starts from no blob.
pub proof fn law_setup_matches_operation(payload_size: usize)
    ensures
        payload_size >= 1 ==> setup_size_of(StoreOperation::SaveGrowing, payload_size).unwrap()
            <= payload_size,
        setup_size_of(StoreOperation::SaveShrinking, payload_size).unwrap() >= payload_size,
        setup_size_of(StoreOperation::SaveReplace, payload_size) == Some(payload_size),
        setup_size_of(StoreOperation::LoadPresent, payload_size) == Some(payload_size),
        setup_size_of(StoreOperation::ClearPresent, payload_size) == Some(payload_size),
        setup_size_of(StoreOperation::InspectPresent, payload_size) == Some(payload_size),
        setup_size_of(StoreOperation::QuarantinePresent, payload_size) == Some(payload_size),
        setup_size_of(StoreOperation::SaveCreate, payload_size) is None,
        setup_size_of(StoreOperation::LoadMissing, payload_size) is None,
        setup_size_of(StoreOperation::ClearMissing, payload_size) is None,
        setup_size_of(StoreOperation::InspectMissing, payload_size) is None,
        setup_size_of(StoreOperation::QuarantineMissing, payload_size) is None,
{
}

/// The setup of a shrinking save is twice the payload, saturating at
/// `usize::MAX`, so it is strictly larger than any payload of 1 to
/// `usize::MAX / 2` bytes and the timed save shrinks the blob; the setup of a
/// growing save is half the payload, at least one byte, so it is strictly
/// smaller than any payload of 2 bytes or more and the timed save grows it.
pub proof fn law_resizing_setups(payload_size: usize)
    ensures
        setup_size_of(StoreOperation::SaveShrinking, payload_size) == Some(
            if 2 * payload_size <= usize::MAX {
                (2 * payload_size) as usize
            } else {
                usize::MAX
            },
        ),
        0 < payload_size <= usize::MAX / 2 ==> setup_size_of(
            StoreOperation::SaveShrinking,
            payload_size,
        ).unwrap() > payload_size,
        setup_size_of(StoreOperation::SaveGrowing, payload_size) == Some(
            if payload_size >= 2 {
                (payload_size / 2) as usize
            } else {
                1usize
            },
        ),
        payload_size >= 2 ==> setup_size_of(StoreOperation::SaveGrowing, payload_size).unwrap()
            < payload_size,
{
}

/// Each file-store workload times the action its name says: the save
/// workloads time a save, the load workloads a load, the clear workloads a
/// clear, the inspect workloads an inspect, quarantining a present blob a
/// quarantine, and quarantining a missing blob a quarantine that the store refuses.
pub proof fn law_measured_actions()
    ensures
        action_of(StoreOperation::SaveCreate) == StoreAction::Save,
        action_of(StoreOperation::SaveReplace) == StoreAction::Save,
        action_of(StoreOperation::SaveGrowing) == StoreAction::Save,
        action_of(StoreOperation::SaveShrinking) == StoreAction::Save,
        action_of(StoreOperation::LoadPresent) == StoreAction::Load,
        action_of(StoreOperation::LoadMissing) == StoreAction::Load,
        action_of(StoreOperation::ClearPresent) == StoreAction::Clear,
        action_of(StoreOperation::ClearMissing) == StoreAction::Clear,
        action_of(StoreOperation::InspectPresent) == StoreAction::Inspect,
        action_of(StoreOperation::InspectMissing) == StoreAction::Inspect,
        action_of(StoreOperation::QuarantinePresent) == StoreAction::Quarantine,
        action_of(StoreOperation::QuarantineMissing) == StoreAction::QuarantineExpectingError,
{
}

} // verus!
