//! Error type shared by the AAC decoder and encoder.

use vstd::prelude::*;

verus! {

/// Errors produced by the AAC decoder or encoder.
///
/// The numeric payloads are the status codes that the FDK AAC library
/// reported, reinterpreted as `i32`.
#[derive(Debug)]
pub enum AacError {
    /// Opening a decoder returned no handle.
    DecoderOpen,
    /// Configuring a raw decoder from an AudioSpecificConfig failed.
    DecoderConfig(i32),
    /// Feeding compressed data to the decoder failed.
    DecoderFill(i32),
    /// Decoding a frame failed.
    DecodeFailed(i32),
    /// Stream info not yet available (no successful decode).
    NoStreamInfo,
    /// Opening an encoder failed.
    EncoderOpen(i32),
    /// Setting an encoder parameter failed.
    EncoderSetParam { param: u32, code: i32 },
    /// Initialising the encoder failed.
    EncoderInit(i32),
    /// Encoding a frame failed.
    EncodeFailed(i32),
    /// Querying the encoder info failed.
    EncoderInfo(i32),
    /// Invalid input parameters.
    InvalidInput(String),
    /// Unsupported AAC profile for the requested operation.
    UnsupportedProfile(u8),
    /// Unsupported channel configuration.
    UnsupportedChannelConfig(u8),
}

} // verus!
