use vstd::prelude::*;

verus! {

/// Result code of a native call that succeeded.
pub const CODEC_OK: u32 = 0;

/// The errors of a codec session.
///
/// The operational failures carry the native result code verbatim; the last
/// two mark a mismatch between this layer and the native build.
#[derive(Debug, Clone, Copy, PartialEq, Eq, Structural)]
pub enum CodecError {
    InitFailed(u32),
    ConfigInitFailed(u32),
    DecodeFailed(u32),
    EncodeFailed(u32),
    ControlFailed(u32),
    UnsupportedFormat,
    UnknownPacketKind,
}

/// Which native call a result code came from.
#[derive(Debug, Clone, Copy, PartialEq, Eq, Structural)]
pub enum NativeCall {
    Init,
    ConfigInit,
    Decode,
    Encode,
    Control,
}

/// The error that a failed native call of the given kind maps to.
pub open spec fn failure_of(call: NativeCall, code: u32) -> CodecError {
    match call {
        NativeCall::Init => CodecError::InitFailed(code),
        NativeCall::ConfigInit => CodecError::ConfigInitFailed(code),
        NativeCall::Decode => CodecError::DecodeFailed(code),
        NativeCall::Encode => CodecError::EncodeFailed(code),
        NativeCall::Control => CodecError::ControlFailed(code),
    }
}

/// What a native result code means for the caller.
pub open spec fn checked(call: NativeCall, code: u32) -> Result<(), CodecError> {
    if code == CODEC_OK {
        Ok(())
    } else {
        Err(failure_of(call, code))
    }
}

/// Turns the result code of a native call into a typed result.
pub fn check_code(call: NativeCall, code: u32) -> (r: Result<(), CodecError>)
    ensures
        r == checked(call, code),
{
    if code == CODEC_OK {
        Ok(())
    } else {
        Err(
            match call {
                NativeCall::Init => CodecError::InitFailed(code),
                NativeCall::ConfigInit => CodecError::ConfigInitFailed(code),
                NativeCall::Decode => CodecError::DecodeFailed(code),
                NativeCall::Encode => CodecError::EncodeFailed(code),
                NativeCall::Control => CodecError::ControlFailed(code),
            },
        )
    }
}

} // verus!
