use vstd::prelude::*;
use crate::decimal::{decimal, push_decimal};

verus! {

/// Why `str::parse::<u64>` refuses a text, as std's `IntErrorKind` tells it.
#[derive(Clone, Copy, Debug, PartialEq, Eq, Structural)]
pub enum ParseU64Error {
    /// The text is empty.
    Empty,
    /// A character is not a digit (or the text is a lone `+`).
    InvalidDigit,
    /// The number does not fit in 64 bits.
    PosOverflow,
}

/// Why a benchmark refuses its configuration or cannot read a measurement.
#[derive(Clone, Copy, Debug, PartialEq, Eq, Structural)]
pub enum BenchError {
    /// `--samples` is zero.
    ZeroSamples,
    /// `--stores` or `--max-concurrency` of the lifecycle workload is zero.
    ZeroStoresOrConcurrency,
    /// `--max-concurrency` is zero.
    ZeroMaxConcurrency,
    /// `--payload-size` is below the smallest payload that fills the stream channel.
    PayloadBelowMinimum { minimum: usize },
    /// `--operations-per-sample` is zero.
    ZeroOperationsPerSample,
    /// `--concurrency` or `--operations` of the coordination workload is zero.
    ZeroConcurrencyOrOperations,
    /// The process status has no `VmHWM:` line with a value.
    RssFieldMissing,
    /// The `VmHWM:` value is not an unsigned integer that fits in 64 bits.
    RssValueInvalid { kind: ParseU64Error },
    /// The `VmHWM:` value in kibibytes overflows 64 bits when counted in bytes.
    RssValueOverflow,
}

/// The message that reports an error.
pub open spec fn message_text(error: BenchError) -> Seq<char> {
    match error {
        BenchError::ZeroSamples => "--samples must be greater than zero"@,
        BenchError::ZeroStoresOrConcurrency => "--stores and --max-concurrency must be greater than zero"@,
        BenchError::ZeroMaxConcurrency => "--max-concurrency must be greater than zero"@,
        BenchError::PayloadBelowMinimum { minimum } => "--payload-size must be at least "@ + decimal(
            minimum as nat,
        ) + " bytes"@,
        BenchError::ZeroOperationsPerSample => "--operations-per-sample must be greater than zero"@,
        BenchError::ZeroConcurrencyOrOperations => "--concurrency and --operations must be greater than zero"@,
        BenchError::RssFieldMissing => "VmHWM is absent from /proc/self/status"@,
        BenchError::RssValueInvalid { kind } => match kind {
            ParseU64Error::Empty => "cannot parse integer from empty string"@,
            ParseU64Error::InvalidDigit => "invalid digit found in string"@,
            ParseU64Error::PosOverflow => "number too large to fit in target type"@,
        },
        BenchError::RssValueOverflow => "VmHWM overflows 64 bits when counted in bytes"@,
    }
}

impl BenchError {
    /// The message that reports this error.
    pub fn message(&self) -> (text: String)
        ensures
            text@ == message_text(*self),
    {
        let mut text = String::new();
        match self {
            BenchError::ZeroSamples => text.append("--samples must be greater than zero"),
            BenchError::ZeroStoresOrConcurrency => text.append(
                "--stores and --max-concurrency must be greater than zero",
            ),
            BenchError::ZeroMaxConcurrency => text.append("--max-concurrency must be greater than zero"),
            BenchError::PayloadBelowMinimum { minimum } => {
                text.append("--payload-size must be at least ");
                push_decimal(&mut text, *minimum as u64);
                text.append(" bytes");
            },
            BenchError::ZeroOperationsPerSample => text.append(
                "--operations-per-sample must be greater than zero",
            ),
            BenchError::ZeroConcurrencyOrOperations => text.append(
                "--concurrency and --operations must be greater than zero",
            ),
            BenchError::RssFieldMissing => text.append("VmHWM is absent from /proc/self/status"),
            BenchError::RssValueInvalid { kind } => match kind {
                ParseU64Error::Empty => text.append("cannot parse integer from empty string"),
                ParseU64Error::InvalidDigit => text.append("invalid digit found in string"),
                ParseU64Error::PosOverflow => text.append("number too large to fit in target type"),
            },
            BenchError::RssValueOverflow => text.append("VmHWM overflows 64 bits when counted in bytes"),
        }
        text
    }
}

} // verus!
