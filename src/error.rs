//! The error taxonomy: local validation failures layered over the engine's
//! negative status codes.
use crate::defines::{
    OPUS_ALLOC_FAIL, OPUS_BAD_ARG, OPUS_BUFFER_TOO_SMALL, OPUS_INTERNAL_ERROR,
    OPUS_INVALID_PACKET, OPUS_INVALID_STATE, OPUS_UNIMPLEMENTED,
};
use vstd::prelude::*;

verus! {

pub type Result<T> = core::result::Result<T, Error>;

/// Every way an operation of this library can fail.
#[derive(Clone, Copy, Debug, PartialEq, Eq, Hash, Structural)]
pub enum Error {
    /// A value failed to match a documented `Application`.
    InvalidApplication,
    /// A value failed to match a documented `Bandwidth`.
    InvalidBandwidth(i32),
    /// A value failed to match a documented `Bitrate`; negative values are invalid.
    InvalidBitrate(i32),
    /// A value failed to match a documented `Signal`.
    InvalidSignal(i32),
    /// Complexity was lower than 1 or higher than 10.
    InvalidComplexity(i32),
    /// A value failed to match a documented `SampleRate`.
    InvalidSampleRate(i32),
    /// A value failed to match a documented `Channels`.
    InvalidChannels(i32),
    /// The engine returned a negative status, described by the `ErrorCode`.
    Opus(ErrorCode),
    /// The engine does not accept empty packets.
    EmptyPacket,
    /// A signal buffer is longer than `i32::MAX` elements.
    SignalsTooLarge,
    /// A packet is longer than `i32::MAX` bytes.
    PacketTooLarge,
    /// A `Vec` representing a mapping exceeded the expected length.
    MappingExpectedLen(usize),
}

/// The engine's documented negative status codes.
#[derive(Clone, Copy, Debug, PartialEq, Eq, Hash, Structural)]
pub enum ErrorCode {
    BadArgument,
    BufferTooSmall,
    InternalError,
    InvalidPacket,
    Unimplemented,
    InvalidState,
    AllocFail,
    /// A status that the engine does not document.
    Unknown,
}

/// The `ErrorCode` that names the engine status `v`.
pub open spec fn error_code_of(v: i32) -> ErrorCode {
    if v == OPUS_BAD_ARG {
        ErrorCode::BadArgument
    } else if v == OPUS_BUFFER_TOO_SMALL {
        ErrorCode::BufferTooSmall
    } else if v == OPUS_INTERNAL_ERROR {
        ErrorCode::InternalError
    } else if v == OPUS_INVALID_PACKET {
        ErrorCode::InvalidPacket
    } else if v == OPUS_UNIMPLEMENTED {
        ErrorCode::Unimplemented
    } else if v == OPUS_INVALID_STATE {
        ErrorCode::InvalidState
    } else if v == OPUS_ALLOC_FAIL {
        ErrorCode::AllocFail
    } else {
        ErrorCode::Unknown
    }
}

/// What the engine's return value `v` means: success carrying `v` when it
/// is not negative, else the error its status code names.
pub open spec fn opus_result(v: i32) -> Result<i32> {
    if v < 0 {
        Err(Error::Opus(error_code_of(v)))
    } else {
        Ok(v)
    }
}

/// What an engine return value that counts something (bytes, samples,
/// frames) means: the count when it is not negative, else the error.
pub open spec fn opus_count(v: i32) -> Result<usize> {
    if v < 0 {
        Err(Error::Opus(error_code_of(v)))
    } else {
        Ok(v as usize)
    }
}

/// The fixed text that describes an engine status.
pub open spec fn code_description(c: ErrorCode) -> Seq<char> {
    match c {
        ErrorCode::BadArgument => "Passed argument violated Opus' specified requirements"@,
        ErrorCode::BufferTooSmall => "Passed buffer was too small"@,
        ErrorCode::InternalError => "Internal error inside Opus occured"@,
        ErrorCode::InvalidPacket => "Opus received a packet violating requirements"@,
        ErrorCode::Unimplemented => "Unimplemented code branch was attempted to be executed"@,
        ErrorCode::InvalidState => "Opus-type instance is in an invalid state"@,
        ErrorCode::AllocFail => "Opus was unable to allocate memory"@,
        ErrorCode::Unknown => "Opus returned a non-negative error, this might be a Audiopus or Opus bug"@,
    }
}

/// The fixed text that describes an error; an engine status keeps its own.
pub open spec fn error_description(e: Error) -> Seq<char> {
    match e {
        Error::InvalidApplication => "Invalid Application"@,
        Error::InvalidBandwidth(_) => "Invalid Bandwidth"@,
        Error::InvalidSignal(_) => "Invalid Signal"@,
        Error::InvalidComplexity(_) => "Invalid Complexity"@,
        Error::InvalidSampleRate(_) => "Invalid Sample Rate"@,
        Error::InvalidChannels(_) => "Invalid Channels"@,
        Error::Opus(c) => code_description(c),
        Error::EmptyPacket => "Passed packet contained no elements"@,
        Error::SignalsTooLarge => "Signals' length exceeded `std::i32::MAX`"@,
        Error::PacketTooLarge => "Packet's length exceeded `std::i32::MAX`"@,
        Error::InvalidBitrate(_) => "Invalid Bitrate"@,
        Error::MappingExpectedLen(_) => "Wrong channel length"@,
    }
}

impl ErrorCode {
    /// A short human-readable description of the status.
    pub fn description(&self) -> (r: &'static str)
        ensures
            r@ == code_description(*self),
    {
        match self {
            ErrorCode::BadArgument => "Passed argument violated Opus' specified requirements",
            ErrorCode::BufferTooSmall => "Passed buffer was too small",
            ErrorCode::InternalError => "Internal error inside Opus occured",
            ErrorCode::InvalidPacket => "Opus received a packet violating requirements",
            ErrorCode::Unimplemented => "Unimplemented code branch was attempted to be executed",
            ErrorCode::InvalidState => "Opus-type instance is in an invalid state",
            ErrorCode::AllocFail => "Opus was unable to allocate memory",
            ErrorCode::Unknown => {
                "Opus returned a non-negative error, this might be a Audiopus or Opus bug"
            },
        }
    }
}

impl Error {
    /// A short human-readable description of the error.
    pub fn description(&self) -> (r: &'static str)
        ensures
            r@ == error_description(*self),
    {
        match self {
            Error::InvalidApplication => "Invalid Application",
            Error::InvalidBandwidth(_) => "Invalid Bandwidth",
            Error::InvalidSignal(_) => "Invalid Signal",
            Error::InvalidComplexity(_) => "Invalid Complexity",
            Error::InvalidSampleRate(_) => "Invalid Sample Rate",
            Error::InvalidChannels(_) => "Invalid Channels",
            Error::Opus(error_code) => error_code.description(),
            Error::EmptyPacket => "Passed packet contained no elements",
            Error::SignalsTooLarge => "Signals' length exceeded `std::i32::MAX`",
            Error::PacketTooLarge => "Packet's length exceeded `std::i32::MAX`",
            Error::InvalidBitrate(_) => "Invalid Bitrate",
            Error::MappingExpectedLen(_) => "Wrong channel length",
        }
    }
}

impl From<i32> for ErrorCode {
    fn from(number: i32) -> (r: ErrorCode)
        ensures
            r == error_code_of(number),
    {
        match number {
            OPUS_BAD_ARG => ErrorCode::BadArgument,
            OPUS_BUFFER_TOO_SMALL => ErrorCode::BufferTooSmall,
            OPUS_INTERNAL_ERROR => ErrorCode::InternalError,
            OPUS_INVALID_PACKET => ErrorCode::InvalidPacket,
            OPUS_UNIMPLEMENTED => ErrorCode::Unimplemented,
            OPUS_INVALID_STATE => ErrorCode::InvalidState,
            OPUS_ALLOC_FAIL => ErrorCode::AllocFail,
            _ => ErrorCode::Unknown,
        }
    }
}

impl vstd::std_specs::convert::FromSpecImpl<i32> for ErrorCode {
    open spec fn obeys_from_spec() -> bool {
        true
    }

    open spec fn from_spec(v: i32) -> ErrorCode {
        error_code_of(v)
    }
}

impl From<ErrorCode> for Error {
    fn from(error_code: ErrorCode) -> (r: Error)
        ensures
            r == Error::Opus(error_code),
    {
        Error::Opus(error_code)
    }
}

impl vstd::std_specs::convert::FromSpecImpl<ErrorCode> for Error {
    open spec fn obeys_from_spec() -> bool {
        true
    }

    open spec fn from_spec(v: ErrorCode) -> Error {
        Error::Opus(v)
    }
}

/// Checks the engine's return value: a negative one becomes the `Error` that
/// its status code names, any other is handed back unchanged.
pub fn try_map_opus_error(ffi_return_value: i32) -> (r: Result<i32>)
    ensures
        r == opus_result(ffi_return_value),
        r is Ok <==> ffi_return_value >= 0,
{
    if ffi_return_value < 0 {
        Err(Error::from(ErrorCode::from(ffi_return_value)))
    } else {
        Ok(ffi_return_value)
    }
}

} // verus!
