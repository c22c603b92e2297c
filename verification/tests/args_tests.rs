use blob_bench::args::{
    validate_samples, BackpressureArgs, BackpressureDirection, BlobIoMode, CommonArgs,
    CoordinationArgs, EnvelopeArgs, EnvelopeMode, FileStoreArgs, LifecycleArgs, MaintenanceArgs,
    StoreAction, StoreOperation,
};
use blob_bench::error::{BenchError, ParseU64Error};

fn common() -> CommonArgs {
    CommonArgs { run_id: None }
}

#[test]
fn samples_must_be_positive() {
    assert_eq!(validate_samples(0), Err(BenchError::ZeroSamples));
    assert_eq!(validate_samples(1), Ok(()));
}

#[test]
fn lifecycle_validation_order() {
    let mut args = LifecycleArgs { common: common(), max_concurrency: 4, stores: 1, payload_size: 1048576, samples: 30 };
    assert_eq!(args.validate(), Ok(()));
    args.stores = 0;
    assert_eq!(args.validate(), Err(BenchError::ZeroStoresOrConcurrency));
    args.stores = 1;
    args.max_concurrency = 0;
    assert_eq!(args.validate(), Err(BenchError::ZeroStoresOrConcurrency));
    args.samples = 0;
    assert_eq!(args.validate(), Err(BenchError::ZeroSamples));
}

#[test]
fn maintenance_validation() {
    let mut args = MaintenanceArgs { common: common(), payload_size: 1048576, max_concurrency: 4, samples: 50 };
    assert_eq!(args.validate(), Ok(()));
    args.max_concurrency = 0;
    assert_eq!(args.validate(), Err(BenchError::ZeroMaxConcurrency));
    args.samples = 0;
    assert_eq!(args.validate(), Err(BenchError::ZeroSamples));
}

#[test]
fn backpressure_needs_payload_filling_the_channel() {
    let mut args = BackpressureArgs {
        common: common(),
        direction: BackpressureDirection::Source,
        payload_size: 1048576,
        max_concurrency: 4,
        samples: 50,
    };
    assert_eq!(args.validate(65536, 4), Ok(()));
    args.payload_size = 65536 * 6;
    assert_eq!(args.validate(65536, 4), Ok(()));
    args.payload_size = 65536 * 6 - 1;
    assert_eq!(args.validate(65536, 4), Err(BenchError::PayloadBelowMinimum { minimum: 393216 }));
    args.max_concurrency = 0;
    assert_eq!(args.validate(65536, 4), Err(BenchError::ZeroMaxConcurrency));
    args.samples = 0;
    assert_eq!(args.validate(65536, 4), Err(BenchError::ZeroSamples));
}

#[test]
fn envelope_needs_operations() {
    let mut args = EnvelopeArgs { common: common(), mode: EnvelopeMode::Crc32c, payload_size: 1024, samples: 100, operations_per_sample: 10 };
    assert_eq!(args.validate(), Ok(()));
    args.operations_per_sample = 0;
    assert_eq!(args.validate(), Err(BenchError::ZeroOperationsPerSample));
    args.samples = 0;
    assert_eq!(args.validate(), Err(BenchError::ZeroSamples));
}

#[test]
fn file_store_and_coordination_validation() {
    let args = FileStoreArgs { common: common(), operation: StoreOperation::SaveReplace, io_mode: BlobIoMode::Streaming, payload_size: 1024, samples: 0 };
    assert_eq!(args.validate(), Err(BenchError::ZeroSamples));
    let mut args = CoordinationArgs { common: common(), concurrency: 8, operations: 100, different_keys: false };
    assert_eq!(args.validate(), Ok(()));
    args.operations = 0;
    assert_eq!(args.validate(), Err(BenchError::ZeroConcurrencyOrOperations));
    args.operations = 1;
    args.concurrency = 0;
    assert_eq!(args.validate(), Err(BenchError::ZeroConcurrencyOrOperations));
}

#[test]
fn error_messages() {
    assert_eq!(BenchError::ZeroSamples.message(), "--samples must be greater than zero");
    assert_eq!(BenchError::ZeroStoresOrConcurrency.message(), "--stores and --max-concurrency must be greater than zero");
    assert_eq!(BenchError::ZeroMaxConcurrency.message(), "--max-concurrency must be greater than zero");
    assert_eq!(BenchError::PayloadBelowMinimum { minimum: 393216 }.message(), "--payload-size must be at least 393216 bytes");
    assert_eq!(BenchError::ZeroOperationsPerSample.message(), "--operations-per-sample must be greater than zero");
    assert_eq!(BenchError::ZeroConcurrencyOrOperations.message(), "--concurrency and --operations must be greater than zero");
    assert_eq!(BenchError::RssFieldMissing.message(), "VmHWM is absent from /proc/self/status");
    assert_eq!(
        BenchError::RssValueInvalid { kind: ParseU64Error::Empty }.message(),
        "".parse::<u64>().unwrap_err().to_string()
    );
    assert_eq!(
        BenchError::RssValueInvalid { kind: ParseU64Error::InvalidDigit }.message(),
        "invalid digit found in string"
    );
    assert_eq!(
        BenchError::RssValueInvalid { kind: ParseU64Error::PosOverflow }.message(),
        "number too large to fit in target type"
    );
    assert_eq!(BenchError::RssValueOverflow.message(), "VmHWM overflows 64 bits when counted in bytes");
}

#[test]
fn setup_sizes_per_operation() {
    assert_eq!(StoreOperation::SaveCreate.setup_payload_size(1024), None);
    assert_eq!(StoreOperation::SaveReplace.setup_payload_size(1024), Some(1024));
    assert_eq!(StoreOperation::SaveGrowing.setup_payload_size(1024), Some(512));
    assert_eq!(StoreOperation::SaveGrowing.setup_payload_size(1), Some(1));
    assert_eq!(StoreOperation::SaveGrowing.setup_payload_size(0), Some(1));
    assert_eq!(StoreOperation::SaveShrinking.setup_payload_size(1024), Some(2048));
    assert_eq!(StoreOperation::SaveShrinking.setup_payload_size(usize::MAX), Some(usize::MAX));
    assert_eq!(StoreOperation::LoadPresent.setup_payload_size(7), Some(7));
    assert_eq!(StoreOperation::LoadMissing.setup_payload_size(7), None);
    assert_eq!(StoreOperation::QuarantinePresent.setup_payload_size(7), Some(7));
    assert_eq!(StoreOperation::QuarantineMissing.setup_payload_size(7), None);
}

#[test]
fn measured_actions() {
    assert_eq!(StoreOperation::SaveShrinking.measured_action(), StoreAction::Save);
    assert_eq!(StoreOperation::LoadMissing.measured_action(), StoreAction::Load);
    assert_eq!(StoreOperation::ClearPresent.measured_action(), StoreAction::Clear);
    assert_eq!(StoreOperation::InspectMissing.measured_action(), StoreAction::Inspect);
    assert_eq!(StoreOperation::QuarantinePresent.measured_action(), StoreAction::Quarantine);
    assert_eq!(StoreOperation::QuarantineMissing.measured_action(), StoreAction::QuarantineExpectingError);
}
