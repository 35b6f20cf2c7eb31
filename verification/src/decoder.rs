//! Decoder logic: status handling, the stream info recorded after each
//! decoded frame, and the conversion of decoded PCM to planar channels.

use vstd::prelude::*;

use crate::config::{profile_of_aot, AacProfile};
use crate::error::AacError;
use crate::info::StreamInfo;
use crate::pcm::{deinterleave, deinterleaved};

verus! {

/// Size of the PCM buffer that receives one decoded frame: the largest frame
/// (2048 samples, HE-AAC) times the most channels (8).
pub const MAX_PCM_SAMPLES: usize = 16384;

/// One decoded frame as 16-bit planar PCM.
#[derive(Debug)]
pub struct DecodedPcm {
    /// Samples shaped `[channel][sample]`; each channel holds `frame_size` samples.
    pub planar: Vec<Vec<i16>>,
    /// Number of samples per channel in this frame.
    pub frame_size: usize,
}

/// The stream description that the decoder library reports after a frame,
/// as the library's signed integers.
#[derive(Debug, Clone, Copy)]
pub struct RawStreamInfo {
    pub sample_rate: i32,
    pub frame_size: i32,
    pub num_channels: i32,
    pub aot: i32,
    pub channel_config: i32,
}

/// Samples per channel in the frame that `raw` describes.
pub open spec fn raw_frame_size(raw: RawStreamInfo) -> usize {
    raw.frame_size as usize
}

/// Channels in the frame that `raw` describes.
pub open spec fn raw_channels(raw: RawStreamInfo) -> usize {
    raw.num_channels as usize
}

/// The decoded PCM of the frame that `raw` describes lies in a buffer of `len` samples.
pub open spec fn frame_fits(raw: RawStreamInfo, len: nat) -> bool {
    raw_frame_size(raw) as int * raw_channels(raw) as int <= len
}

/// The stream info recorded for a frame that the library describes as `raw`:
/// each field is the library's value narrowed to the field's width, and the
/// profile is the one that the Audio Object Type names.
pub open spec fn stream_info_of(raw: RawStreamInfo) -> StreamInfo {
    StreamInfo {
        sample_rate: raw.sample_rate as u32,
        frame_size: raw_frame_size(raw) as u32,
        channels: raw_channels(raw) as u8,
        profile: profile_of_aot(raw.aot as u8),
        aot: raw.aot as u8,
        channel_config: raw.channel_config as u8,
    }
}

/// The library calls on a decoder instance whose status is checked.
#[derive(Debug, Clone, Copy, PartialEq, Eq, Structural)]
pub enum DecoderStage {
    /// Configuring a raw decoder from an AudioSpecificConfig.
    Config,
    /// Feeding compressed data.
    Fill,
    /// Decoding a frame.
    Decode,
}

/// The error that a failed decoder call reports, with its status code.
pub open spec fn decoder_stage_error(stage: DecoderStage, code: i32) -> AacError {
    match stage {
        DecoderStage::Config => AacError::DecoderConfig(code),
        DecoderStage::Fill => AacError::DecoderFill(code),
        DecoderStage::Decode => AacError::DecodeFailed(code),
    }
}

/// Turn the status code of a decoder call into a result: 0 is success.
pub fn decoder_status(stage: DecoderStage, code: u32) -> (r: Result<(), AacError>)
    ensures
        r is Ok <==> code == 0,
        code != 0 ==> r == Err::<(), AacError>(decoder_stage_error(stage, code as i32)),
        code != 0 && stage == DecoderStage::Config ==> (r matches Err(AacError::DecoderConfig(c))
            && c == code as i32),
        code != 0 && stage == DecoderStage::Fill ==> (r matches Err(AacError::DecoderFill(c)) && c
            == code as i32),
        code != 0 && stage == DecoderStage::Decode ==> (r matches Err(AacError::DecodeFailed(c))
            && c == code as i32),
{
    if code == 0 {
        return Ok(());
    }
    let c = code as i32;
    match stage {
        DecoderStage::Config => Err(AacError::DecoderConfig(c)),
        DecoderStage::Fill => Err(AacError::DecoderFill(c)),
        DecoderStage::Decode => Err(AacError::DecodeFailed(c)),
    }
}

/// What a decoder remembers between frames.
pub struct DecoderState {
    info: Option<StreamInfo>,
    restart_pending: bool,
}

/// The model of a decoder's memory: the stream info of the last decoded
/// frame, if any frame was decoded since it was opened or reset, and whether
/// a reset awaits the next decode call.
pub struct DecoderView {
    pub info: Option<StreamInfo>,
    pub restart_pending: bool,
}

impl View for DecoderState {
    type V = DecoderView;

    closed spec fn view(&self) -> DecoderView {
        DecoderView { info: self.info, restart_pending: self.restart_pending }
    }
}

impl DecoderState {
    /// The state of a freshly opened decoder: no stream info yet, no reset pending.
    pub fn new() -> (r: Self)
        ensures
            r@.info is None,
            !r@.restart_pending,
    {
        DecoderState { info: None, restart_pending: false }
    }

    /// Get stream info (available after the first successful decode).
    pub fn stream_info(&self) -> (r: Option<&StreamInfo>)
        ensures
            match r {
                Some(i) => self@.info == Some(*i),
                None => self@.info is None,
            },
    {
        self.info.as_ref()
    }

    /// Sample rate in Hz (available after the first successful decode).
    pub fn sample_rate(&self) -> (r: Option<u32>)
        ensures
            match self@.info {
                Some(i) => r == Some(i.sample_rate),
                None => r is None,
            },
    {
        match &self.info {
            Some(i) => Some(i.sample_rate),
            None => None,
        }
    }

    /// Number of output channels (available after the first successful decode).
    pub fn channels(&self) -> (r: Option<u8>)
        ensures
            match self@.info {
                Some(i) => r == Some(i.channels),
                None => r is None,
            },
    {
        match &self.info {
            Some(i) => Some(i.channels),
            None => None,
        }
    }

    /// Reset for a stream restart: forget the stream info, and have the next
    /// decode call resynchronise and clear the decoder's history.
    pub fn reset(&mut self)
        ensures
            final(self)@.info is None,
            final(self)@.restart_pending,
    {
        self.info = None;
        self.restart_pending = true;
    }

    /// Whether the decode call about to be made must restart the decoder;
    /// the pending reset, if any, is consumed.
    pub fn take_restart(&mut self) -> (r: bool)
        ensures
            r == old(self)@.restart_pending,
            !final(self)@.restart_pending,
            final(self)@.info == old(self)@.info,
    {
        let r = self.restart_pending;
        self.restart_pending = false;
        r
    }

    /// Take in a decoded frame: `raw` is the stream description that the
    /// library reported (none where it reported none) and `pcm` the buffer it
    /// decoded into, interleaved. Records the stream info and returns the
    /// frame as planar channels.
    pub fn accept_frame(&mut self, raw: Option<RawStreamInfo>, pcm: &[i16]) -> (r: Result<
        DecodedPcm,
        AacError,
    >)
        requires
            raw matches Some(ri) ==> frame_fits(ri, pcm@.len()),
        ensures
            final(self)@.restart_pending == old(self)@.restart_pending,
            raw is None ==> (r matches Err(AacError::NoStreamInfo) && final(self)@.info == old(
                self,
            )@.info),
            raw matches Some(ri) ==> {
                &&& final(self)@.info == Some(stream_info_of(ri))
                &&& r matches Ok(frame) && frame.frame_size == raw_frame_size(ri)
                    && frame.planar.deep_view() == deinterleaved(
                    pcm@,
                    raw_channels(ri) as nat,
                    raw_frame_size(ri) as nat,
                )
            },
            raw matches Some(ri) ==> {
                &&& final(self)@.info matches Some(info) && {
                    &&& info.sample_rate == ri.sample_rate as u32
                    &&& info.frame_size == ri.frame_size as u32
                    &&& info.channels == ri.num_channels as u8
                    &&& info.aot == ri.aot as u8
                    &&& info.channel_config == ri.channel_config as u8
                    &&& (info.profile matches Some(p) ==> crate::config::profile_aot(p)
                        == info.aot)
                }
                &&& r matches Ok(frame) && {
                    &&& frame.frame_size == ri.frame_size as usize
                    &&& frame.planar@.len() == ri.num_channels as usize
                    &&& forall|c: int|
                        0 <= c < frame.planar@.len() ==> (#[trigger] frame.planar@[c])@.len()
                            == frame.frame_size
                    &&& forall|c: int, s: int|
                        0 <= c < frame.planar@.len() && 0 <= s < frame.frame_size
                            ==> #[trigger] frame.planar@[c]@[s] == pcm@[s
                            * frame.planar@.len() + c]
                }
            },
    {
        let ri = match raw {
            Some(ri) => ri,
            None => {
                return Err(AacError::NoStreamInfo);
            },
        };
        let frame_size = ri.frame_size as usize;
        let channels = ri.num_channels as usize;
        let aot = ri.aot as u8;
        self.info = Some(
            StreamInfo {
                sample_rate: ri.sample_rate as u32,
                frame_size: frame_size as u32,
                channels: channels as u8,
                profile: AacProfile::from_aot(aot),
                aot,
                channel_config: ri.channel_config as u8,
            },
        );
        proof {
            lemma_narrowing_through_usize(ri.frame_size, ri.num_channels);
        }
        let planar = deinterleave(pcm, channels, frame_size);
        Ok(DecodedPcm { planar, frame_size })
    }
}

/// The stream info recorded for any frame names a profile only where the
/// Audio Object Type it records is that profile's number.
pub proof fn lemma_recorded_profile_matches_aot(raw: RawStreamInfo)
    ensures
        stream_info_of(raw).profile == profile_of_aot(stream_info_of(raw).aot),
        stream_info_of(raw).profile matches Some(p) ==> crate::config::profile_aot(p)
            == stream_info_of(raw).aot,
{
}

/// Narrowing a library integer through `usize` keeps the same low bits as
/// narrowing it directly.
proof fn lemma_narrowing_through_usize(b: i32, c: i32)
    ensures
        (b as usize) as u32 == b as u32,
        (c as usize) as u8 == c as u8,
{
    assert((b as usize) as u32 == b as u32) by (bit_vector);
    assert((c as usize) as u8 == c as u8) by (bit_vector);
}

/// The stream info recorded for a frame holds the library's reported sample
/// rate, frame size, output channel count (the number of planar channels
/// returned), Audio Object Type and channel configuration, each narrowed to
/// its field's width.
pub proof fn lemma_recorded_info_fields(raw: RawStreamInfo)
    ensures
        stream_info_of(raw).sample_rate == raw.sample_rate as u32,
        stream_info_of(raw).frame_size == raw.frame_size as u32,
        stream_info_of(raw).channels == raw.num_channels as u8,
        stream_info_of(raw).aot == raw.aot as u8,
        stream_info_of(raw).channel_config == raw.channel_config as u8,
{
    lemma_narrowing_through_usize(raw.frame_size, raw.num_channels);
}

} // verus!
