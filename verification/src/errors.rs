use vstd::prelude::*;

verus! {

/// Why a raw on-chain value could not be decoded into the requested
/// typed value.
#[derive(Clone, Copy, PartialEq, Eq, Structural, Debug)]
pub enum DecodeError {
    /// The scalar sequence had too few elements for the requested type.
    Underflow,
    /// A scalar exceeded the range of the requested 64-bit target.
    Overflow,
    /// The collected bytes were not valid UTF-8 text.
    InvalidUtf8,
    /// The requested type tag is not one the resolver implements.
    UnsupportedTag,
    /// A resolved value was asked for under a variant it does not hold.
    TypeMismatch,
    /// A decoded timestamp lies outside the representable date range.
    TimestampOutOfRange,
}

/// Failure of the resolution / aggregation pipeline. Every error surfaces
/// to the caller as a typed result; nothing in this crate aborts.
#[derive(Clone, Copy, PartialEq, Eq, Structural, Debug)]
pub enum ModelError {
    /// The node answered with a rate-limit response; callers may back off.
    RateLimited,
    /// Any other network or RPC failure, reported by the transport.
    Transport,
    /// An entrypoint name held characters outside the permitted charset.
    FailedToParseSelector,
    /// A spawned call task failed to complete.
    Concurrency,
    /// A raw value could not be decoded as requested.
    Decode(DecodeError),
    /// A batch of raw responses had the wrong number of entries.
    WrongResponseCount,
    /// A scaled-arithmetic intermediate exceeded the supported range.
    ArithmeticOverflow,
    /// A proportional share was requested against a zero project value.
    DivisionByZero,
}

impl ModelError {
    /// A short diagnostic label for the error, for callers that log.
    pub fn label(&self) -> (r: &'static str)
        ensures
            r@.len() > 0,
    {
        proof {
            reveal_strlit("rate limited");
            reveal_strlit("transport failure");
            reveal_strlit("invalid entrypoint name");
            reveal_strlit("task failed to complete");
            reveal_strlit("sequence too short");
            reveal_strlit("scalar out of range");
            reveal_strlit("invalid utf-8 text");
            reveal_strlit("unsupported type tag");
            reveal_strlit("wrong resolved variant");
            reveal_strlit("timestamp out of range");
            reveal_strlit("wrong response count");
            reveal_strlit("arithmetic overflow");
            reveal_strlit("division by zero");
        }
        match self {
            ModelError::RateLimited => "rate limited",
            ModelError::Transport => "transport failure",
            ModelError::FailedToParseSelector => "invalid entrypoint name",
            ModelError::Concurrency => "task failed to complete",
            ModelError::Decode(DecodeError::Underflow) => "sequence too short",
            ModelError::Decode(DecodeError::Overflow) => "scalar out of range",
            ModelError::Decode(DecodeError::InvalidUtf8) => "invalid utf-8 text",
            ModelError::Decode(DecodeError::UnsupportedTag) => "unsupported type tag",
            ModelError::Decode(DecodeError::TypeMismatch) => "wrong resolved variant",
            ModelError::Decode(DecodeError::TimestampOutOfRange) => "timestamp out of range",
            ModelError::WrongResponseCount => "wrong response count",
            ModelError::ArithmeticOverflow => "arithmetic overflow",
            ModelError::DivisionByZero => "division by zero",
        }
    }
}

} // verus!
