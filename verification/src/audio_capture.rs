//! Which microphone streams can be captured. Opening the default input
//! device and running the stream is done by the application.

use vstd::prelude::*;
use crate::text::result_view;

verus! {

/// Error when the host has no default input device.
pub const NO_INPUT_DEVICE: &'static str = "No se encontró dispositivo de entrada por defecto";

/// Error when the device's default stream does not deliver `f32` samples.
pub const UNSUPPORTED_FORMAT: &'static str = "Formato de audio no soportado (solo f32)";

/// Sample encoding of an input stream, as audio hosts report it.
#[derive(Debug, Clone, Copy, PartialEq, Eq, Structural)]
pub enum SampleFormat {
    I8,
    I16,
    I32,
    I64,
    U8,
    U16,
    U32,
    U64,
    F32,
    F64,
    /// An encoding not listed above.
    Other,
}

/// Only streams of `f32` samples are captured.
pub open spec fn format_check(format: SampleFormat) -> Result<(), Seq<char>> {
    if format == SampleFormat::F32 {
        Ok(())
    } else {
        Err(UNSUPPORTED_FORMAT@)
    }
}

/// Exactly `f32` streams are accepted; every other format, integer or
/// `f64` or unknown, is refused with the unsupported format error.
pub proof fn only_f32_is_supported(format: SampleFormat)
    ensures
        format_check(format) is Ok <==> format == SampleFormat::F32,
        format != SampleFormat::F32 ==> format_check(format) == Err::<(), Seq<char>>(
            UNSUPPORTED_FORMAT@,
        ),
{
}

/// Accepts a stream format: `f32` samples only, anything else is refused
/// with the unsupported format error.
pub fn check_sample_format(format: SampleFormat) -> (r: Result<(), String>)
    ensures
        result_view(r) == format_check(format),
        r is Ok <==> format == SampleFormat::F32,
        r matches Err(e) ==> e@ == UNSUPPORTED_FORMAT@,
{
    proof {
        only_f32_is_supported(format);
    }
    match format {
        SampleFormat::F32 => Ok(()),
        _ => Err(String::from_str(UNSUPPORTED_FORMAT)),
    }
}

} // verus!
