//! Encoder logic: configuration checks, the parameter settings applied to an
//! FDK AAC encoder instance, status handling, and the state kept between frames.

use vstd::prelude::*;

use crate::config::{
    profile_aot, AacProfile, EncoderConfig, SbrSignaling, TransportType,
};
use crate::error::AacError;
use crate::pcm::{interleave, interleaved};
use crate::text::{count_mismatch, count_mismatch_message};

verus! {

/// Size of the buffer that receives one encoded frame.
pub const MAX_OUTPUT_BYTES: usize = 8192;

/// The status code with which the encoder reports that flushing has concluded.
pub const ENCODE_EOF: u32 = 0x80;

/// Result of encoding one AAC frame.
#[derive(Debug)]
pub struct EncodedData {
    /// Encoded AAC bitstream bytes (ADTS frame or raw access unit).
    pub bytes: Vec<u8>,
    /// Number of input samples consumed per channel.
    pub num_samples: u32,
}

/// One parameter setting applied to an encoder instance, with its value.
#[derive(Debug, Clone, Copy, PartialEq, Eq, Structural)]
pub enum EncoderSetting {
    /// Audio Object Type.
    AudioObjectType(u32),
    /// Input sample rate in Hz.
    SampleRate(u32),
    /// Channel layout.
    ChannelMode(EncoderChannelMode),
    /// Input channel ordering (1: WAV ordering).
    ChannelOrder(u32),
    /// Target bitrate in bits per second.
    Bitrate(u32),
    /// Transport multiplex of the output.
    TransportMux(u32),
    /// Afterburner on (1) or off (0).
    Afterburner(u32),
    /// SBR signaling mode.
    SignalingMode(u32),
}

/// Channel layout of the encoder input, one for each count from 1 to 8.
#[derive(Debug, Clone, Copy, PartialEq, Eq, Structural)]
pub enum EncoderChannelMode {
    /// 1 channel.
    Mono,
    /// 2 channels.
    Stereo,
    /// 3.0: center + left + right.
    Surround30,
    /// 4.0: center + left + right + rear center.
    Surround40,
    /// 5.0: center + left + right + left surround + right surround.
    Surround50,
    /// 5.1: 5.0 + LFE.
    Surround51,
    /// 6.1: 5.1 + rear center.
    Surround61,
    /// 7.1: 5.1 + left back + right back.
    Surround71,
}

/// Number of input channels of an encoder channel layout.
pub open spec fn encoder_mode_channels(m: EncoderChannelMode) -> u8 {
    match m {
        EncoderChannelMode::Mono => 1,
        EncoderChannelMode::Stereo => 2,
        EncoderChannelMode::Surround30 => 3,
        EncoderChannelMode::Surround40 => 4,
        EncoderChannelMode::Surround50 => 5,
        EncoderChannelMode::Surround51 => 6,
        EncoderChannelMode::Surround61 => 7,
        EncoderChannelMode::Surround71 => 8,
    }
}

/// The encoder channel layout for an input channel count, if there is one.
pub open spec fn encoder_mode_of_channels(ch: u8) -> Option<EncoderChannelMode> {
    if ch == 1 {
        Some(EncoderChannelMode::Mono)
    } else if ch == 2 {
        Some(EncoderChannelMode::Stereo)
    } else if ch == 3 {
        Some(EncoderChannelMode::Surround30)
    } else if ch == 4 {
        Some(EncoderChannelMode::Surround40)
    } else if ch == 5 {
        Some(EncoderChannelMode::Surround50)
    } else if ch == 6 {
        Some(EncoderChannelMode::Surround51)
    } else if ch == 7 {
        Some(EncoderChannelMode::Surround61)
    } else if ch == 8 {
        Some(EncoderChannelMode::Surround71)
    } else {
        None
    }
}

/// The encoder channel layout for an input channel count.
pub fn encoder_channel_mode(ch: u8) -> (r: Option<EncoderChannelMode>)
    ensures
        r == encoder_mode_of_channels(ch),
        r is Some <==> 1 <= ch <= 8,
        r matches Some(m) ==> encoder_mode_channels(m) == ch,
{
    match ch {
        1 => Some(EncoderChannelMode::Mono),
        2 => Some(EncoderChannelMode::Stereo),
        3 => Some(EncoderChannelMode::Surround30),
        4 => Some(EncoderChannelMode::Surround40),
        5 => Some(EncoderChannelMode::Surround50),
        6 => Some(EncoderChannelMode::Surround51),
        7 => Some(EncoderChannelMode::Surround61),
        8 => Some(EncoderChannelMode::Surround71),
        _ => None,
    }
}

/// The transport multiplex value that selects an output framing.
pub open spec fn transport_mux_value(t: TransportType) -> u32 {
    match t {
        TransportType::Adts => 2,
        TransportType::Latm => 10,
        TransportType::Raw => 0,
    }
}

/// The signaling mode value of an SBR signaling choice.
pub open spec fn sbr_signaling_value(s: SbrSignaling) -> u32 {
    match s {
        SbrSignaling::Implicit => 0,
        SbrSignaling::ExplicitBackwardCompatible => 1,
        SbrSignaling::ExplicitHierarchical => 2,
    }
}

/// Profiles that carry SBR and so take a signaling mode.
pub open spec fn uses_sbr(p: AacProfile) -> bool {
    p == AacProfile::HeAacV1 || p == AacProfile::HeAacV2
}

/// The message of the error that rejects HE-AAC v2 with other than two channels.
pub open spec fn he_aac_v2_stereo_message() -> Seq<char> {
    "HE-AAC v2 (PS) requires exactly 2 channels (stereo)"@
}

/// A configuration that an encoder accepts before any library call:
/// 1 to 8 channels, and exactly 2 for HE-AAC v2.
pub open spec fn config_acceptable(config: EncoderConfig) -> bool {
    &&& 1 <= config.channels <= 8
    &&& (config.profile == AacProfile::HeAacV2 ==> config.channels == 2)
}

/// Check a configuration before an encoder is opened for it.
pub fn validate_config(config: &EncoderConfig) -> (r: Result<(), AacError>)
    ensures
        r is Ok <==> config_acceptable(*config),
        r is Ok <==> (1 <= config.channels <= 8 && (config.profile == AacProfile::HeAacV2
            ==> config.channels == 2)),
        (config.channels == 0 || config.channels > 8) ==> (r matches Err(
            AacError::UnsupportedChannelConfig(c),
        ) && c == config.channels),
        (1 <= config.channels <= 8 && config.profile == AacProfile::HeAacV2 && config.channels
            != 2) ==> (r matches Err(AacError::InvalidInput(m)) && m@
            == he_aac_v2_stereo_message()),
{
    if config.channels == 0 || config.channels > 8 {
        return Err(AacError::UnsupportedChannelConfig(config.channels));
    }
    if config.profile == AacProfile::HeAacV2 && config.channels != 2 {
        let m = String::from_str("HE-AAC v2 (PS) requires exactly 2 channels (stereo)");
        return Err(AacError::InvalidInput(m));
    }
    Ok(())
}

/// The settings applied to a fresh encoder instance for a configuration, in
/// order. Where the channel count has no channel layout (0 or more than 8),
/// the settings stop after the sample rate.
pub open spec fn configure_settings(config: EncoderConfig) -> Seq<EncoderSetting> {
    let head = seq![
        EncoderSetting::AudioObjectType(profile_aot(config.profile) as u32),
        EncoderSetting::SampleRate(config.sample_rate),
    ];
    match encoder_mode_of_channels(config.channels) {
        None => head,
        Some(mode) => {
            let body = head + seq![
                EncoderSetting::ChannelMode(mode),
                EncoderSetting::ChannelOrder(1),
                EncoderSetting::Bitrate(config.bitrate),
                EncoderSetting::TransportMux(transport_mux_value(config.transport)),
                EncoderSetting::Afterburner(if config.afterburner { 1u32 } else { 0u32 }),
            ];
            if uses_sbr(config.profile) {
                body.push(EncoderSetting::SignalingMode(sbr_signaling_value(config.sbr_signaling)))
            } else {
                body
            }
        },
    }
}

/// The settings of a configuration with a channel layout, stated field by
/// field: the layout with the configured channel count, WAV channel order,
/// the requested bitrate, the transport's multiplex value (ADTS 2, LATM 10,
/// raw 0), the afterburner switch, and a signaling mode (implicit 0, explicit
/// backward compatible 1, explicit hierarchical 2) exactly for HE-AAC.
pub open spec fn settings_in_full(config: EncoderConfig, settings: Seq<EncoderSetting>) -> bool {
    &&& settings.len() == if config.profile == AacProfile::HeAacV1 || config.profile
        == AacProfile::HeAacV2 {
        8int
    } else {
        7int
    }
    &&& settings[2] matches EncoderSetting::ChannelMode(m) && encoder_mode_channels(m)
        == config.channels
    &&& settings[3] == EncoderSetting::ChannelOrder(1)
    &&& settings[4] == EncoderSetting::Bitrate(config.bitrate)
    &&& settings[5] == EncoderSetting::TransportMux(
        match config.transport {
            TransportType::Adts => 2u32,
            TransportType::Latm => 10u32,
            TransportType::Raw => 0u32,
        },
    )
    &&& settings[6] == EncoderSetting::Afterburner(if config.afterburner { 1u32 } else { 0u32 })
    &&& (settings.len() == 8 ==> settings[7] == EncoderSetting::SignalingMode(
        match config.sbr_signaling {
            SbrSignaling::Implicit => 0u32,
            SbrSignaling::ExplicitBackwardCompatible => 1u32,
            SbrSignaling::ExplicitHierarchical => 2u32,
        },
    ))
}

/// How an encoder instance is configured: the settings to apply in order,
/// and the error to report once they are all applied, if any.
#[derive(Debug)]
pub struct ConfigurePlan {
    pub settings: Vec<EncoderSetting>,
    pub failure: Option<AacError>,
}

/// Plan the configuration of a fresh encoder instance.
pub fn configure_plan(config: &EncoderConfig) -> (r: ConfigurePlan)
    ensures
        r.settings@ == configure_settings(*config),
        r.settings@.len() >= 2,
        r.settings@[0] == EncoderSetting::AudioObjectType(profile_aot(config.profile) as u32),
        r.settings@[1] == EncoderSetting::SampleRate(config.sample_rate),
        1 <= config.channels <= 8 ==> settings_in_full(*config, r.settings@),
        r.failure is None <==> encoder_mode_of_channels(config.channels) is Some,
        r.failure is Some ==> (r.failure matches Some(AacError::UnsupportedChannelConfig(c)) && c
            == config.channels),
{
    let mut settings: Vec<EncoderSetting> = Vec::new();
    settings.push(EncoderSetting::AudioObjectType(config.profile.aot() as u32));
    settings.push(EncoderSetting::SampleRate(config.sample_rate));
    let mode = match encoder_channel_mode(config.channels) {
        Some(m) => m,
        None => {
            let ghost want = configure_settings(*config);
            assert(settings@ =~= want);
            return ConfigurePlan {
                settings,
                failure: Some(AacError::UnsupportedChannelConfig(config.channels)),
            };
        },
    };
    settings.push(EncoderSetting::ChannelMode(mode));
    settings.push(EncoderSetting::ChannelOrder(1));
    settings.push(EncoderSetting::Bitrate(config.bitrate));
    let tt: u32 = match config.transport {
        TransportType::Adts => 2,
        TransportType::Latm => 10,
        TransportType::Raw => 0,
    };
    settings.push(EncoderSetting::TransportMux(tt));
    settings.push(EncoderSetting::Afterburner(if config.afterburner { 1 } else { 0 }));
    if config.profile == AacProfile::HeAacV1 || config.profile == AacProfile::HeAacV2 {
        let sig: u32 = match config.sbr_signaling {
            SbrSignaling::Implicit => 0,
            SbrSignaling::ExplicitBackwardCompatible => 1,
            SbrSignaling::ExplicitHierarchical => 2,
        };
        settings.push(EncoderSetting::SignalingMode(sig));
    }
    let ghost want = configure_settings(*config);
    assert(settings@ =~= want);
    ConfigurePlan { settings, failure: None }
}

/// The library calls on an encoder instance whose status is checked.
#[derive(Debug, Clone, Copy, PartialEq, Eq, Structural)]
pub enum EncoderStage {
    /// Opening the instance.
    Open,
    /// The initialising call that follows configuration.
    Init,
    /// Encoding a frame, or flushing.
    Encode,
    /// Querying the encoder info.
    Info,
}

/// The error that a failed encoder call reports, with its status code.
pub open spec fn encoder_stage_error(stage: EncoderStage, code: i32) -> AacError {
    match stage {
        EncoderStage::Open => AacError::EncoderOpen(code),
        EncoderStage::Init => AacError::EncoderInit(code),
        EncoderStage::Encode => AacError::EncodeFailed(code),
        EncoderStage::Info => AacError::EncoderInfo(code),
    }
}

/// Turn the status code of an encoder call into a result: 0 is success.
pub fn encoder_status(stage: EncoderStage, code: u32) -> (r: Result<(), AacError>)
    ensures
        r is Ok <==> code == 0,
        code != 0 ==> r == Err::<(), AacError>(encoder_stage_error(stage, code as i32)),
        code != 0 && stage == EncoderStage::Open ==> (r matches Err(AacError::EncoderOpen(c)) && c
            == code as i32),
        code != 0 && stage == EncoderStage::Init ==> (r matches Err(AacError::EncoderInit(c)) && c
            == code as i32),
        code != 0 && stage == EncoderStage::Encode ==> (r matches Err(AacError::EncodeFailed(c))
            && c == code as i32),
        code != 0 && stage == EncoderStage::Info ==> (r matches Err(AacError::EncoderInfo(c)) && c
            == code as i32),
{
    if code == 0 {
        return Ok(());
    }
    let c = code as i32;
    match stage {
        EncoderStage::Open => Err(AacError::EncoderOpen(c)),
        EncoderStage::Init => Err(AacError::EncoderInit(c)),
        EncoderStage::Encode => Err(AacError::EncodeFailed(c)),
        EncoderStage::Info => Err(AacError::EncoderInfo(c)),
    }
}

/// Turn the status code of setting parameter `param` into a result: 0 is success.
pub fn set_param_status(param: u32, code: u32) -> (r: Result<(), AacError>)
    ensures
        r is Ok <==> code == 0,
        code != 0 ==> r == Err::<(), AacError>(
            AacError::EncoderSetParam { param, code: code as i32 },
        ),
{
    if code == 0 {
        Ok(())
    } else {
        Err(AacError::EncoderSetParam { param, code: code as i32 })
    }
}

/// The AudioSpecificConfig that the encoder info carries: the first
/// `conf_size` bytes of its configuration buffer, or nothing where that size
/// is zero or larger than the buffer.
pub open spec fn reported_asc(conf_buf: Seq<u8>, conf_size: u32) -> Seq<u8> {
    if 0 < conf_size <= conf_buf.len() {
        conf_buf.take(conf_size as int)
    } else {
        Seq::empty()
    }
}

/// What an open encoder keeps between frames.
pub struct EncoderState {
    frame_size: u32,
    channels: u8,
    audio_specific_config: Vec<u8>,
}

impl EncoderState {
    #[verifier::type_invariant]
    spec fn well_formed(self) -> bool {
        &&& self.frame_size as int * self.channels as int <= usize::MAX
        &&& 1 <= self.channels <= 8
    }

    /// Samples per channel in one frame.
    pub closed spec fn spec_frame_size(&self) -> u32 {
        self.frame_size
    }

    /// Number of configured channels.
    pub closed spec fn spec_channels(&self) -> u8 {
        self.channels
    }

    /// The AudioSpecificConfig bytes.
    pub closed spec fn spec_asc(&self) -> Seq<u8> {
        self.audio_specific_config@
    }

    /// Interleaved samples in one frame.
    pub open spec fn samples_per_frame(&self) -> int {
        self.spec_frame_size() as int * self.spec_channels() as int
    }

    /// The state of an encoder opened for `channels` channels, from what its
    /// info reported: the frame length and the configuration buffer.
    pub fn from_info(channels: u8, frame_length: u32, conf_buf: &[u8], conf_size: u32) -> (r: Self)
        requires
            frame_length as int * channels as int <= usize::MAX,
            1 <= channels <= 8,
        ensures
            r.spec_frame_size() == frame_length,
            r.spec_channels() == channels,
            r.spec_asc() == reported_asc(conf_buf@, conf_size),
            0 < conf_size <= conf_buf@.len() ==> r.spec_asc().len() == conf_size && forall|i: int|
                0 <= i < conf_size ==> #[trigger] r.spec_asc()[i] == conf_buf@[i],
            !(0 < conf_size <= conf_buf@.len()) ==> r.spec_asc().len() == 0,
    {
        let asc = if conf_size > 0 && (conf_size as usize) <= conf_buf.len() {
            copy_prefix(conf_buf, conf_size as usize)
        } else {
            let empty: Vec<u8> = Vec::new();
            assert(empty@ =~= Seq::<u8>::empty());
            empty
        };
        EncoderState { frame_size: frame_length, channels, audio_specific_config: asc }
    }

    /// Required frame size in samples per channel.
    /// 1024 for AAC-LC, 2048 for HE-AAC v1/v2 (SBR doubles), 480/512 for AAC-LD/ELD.
    pub fn frame_size(&self) -> (r: u32)
        ensures
            r == self.spec_frame_size(),
    {
        self.frame_size
    }

    /// Number of configured channels.
    pub fn channels(&self) -> (r: u8)
        ensures
            r == self.spec_channels(),
            1 <= r <= 8,
    {
        proof {
            use_type_invariant(self);
        }
        self.channels
    }

    /// The AudioSpecificConfig bytes (for signaling to decoders, e.g. in FLV
    /// AudioSpecificConfig sequence headers or SDP fmtp).
    pub fn audio_specific_config(&self) -> (r: &[u8])
        ensures
            r@ == self.spec_asc(),
    {
        self.audio_specific_config.as_slice()
    }

    /// Check that a planar frame has one channel per configured channel.
    pub fn check_planar_channels(&self, got: usize) -> (r: Result<(), AacError>)
        ensures
            r is Ok <==> got == self.spec_channels(),
            got != self.spec_channels() ==> (r matches Err(AacError::InvalidInput(m)) && m@
                == count_mismatch_message(self.spec_channels() as nat, "channels"@, got as nat)),
    {
        if got != self.channels as usize {
            let m = count_mismatch(self.channels as u64, "channels", got as u64);
            return Err(AacError::InvalidInput(m));
        }
        Ok(())
    }

    /// Interleave one frame of planar 16-bit samples: each channel gives its
    /// first `frame_size` samples, padded with silence where it is shorter.
    pub fn interleave_frame(&self, planar: &[Vec<i16>]) -> (r: Vec<i16>)
        requires
            planar@.len() == self.spec_channels(),
        ensures
            r@ == interleaved(
                planar.deep_view(),
                self.spec_channels() as nat,
                self.spec_frame_size() as nat,
            ),
            r@.len() == self.samples_per_frame(),
            forall|s: int, c: int|
                0 <= s < self.spec_frame_size() && 0 <= c < self.spec_channels() ==> #[trigger] r@[s
                    * self.spec_channels() + c] == if s < planar@[c]@.len() {
                    planar@[c]@[s]
                } else {
                    0i16
                },
    {
        proof {
            use_type_invariant(self);
        }
        interleave(planar, self.frame_size as usize)
    }

    /// The input of one encode call: the frame's interleaved sample count as
    /// the library's `i32`, and its size in bytes (two per sample).
    pub fn input_sizes(&self) -> (r: (i32, i32))
        requires
            i32::MIN <= 2 * (self.samples_per_frame() as i32) <= i32::MAX,
        ensures
            r.0 == self.samples_per_frame() as i32,
            r.1 == 2 * r.0,
    {
        proof {
            use_type_invariant(self);
        }
        let samples = (self.frame_size as usize * self.channels as usize) as i32;
        (samples, samples * 2)
    }

    /// Check that an interleaved frame holds exactly `frame_size * channels` samples.
    pub fn check_interleaved_len(&self, got: usize) -> (r: Result<(), AacError>)
        ensures
            r is Ok <==> got == self.samples_per_frame(),
            got != self.samples_per_frame() ==> (r matches Err(AacError::InvalidInput(m)) && m@
                == count_mismatch_message(
                self.samples_per_frame() as nat,
                "interleaved s16 samples"@,
                got as nat,
            )),
    {
        proof {
            use_type_invariant(self);
        }
        let expected: u64 = self.frame_size as u64 * self.channels as u64;
        if got as u64 != expected {
            let m = count_mismatch(expected, "interleaved s16 samples", got as u64);
            return Err(AacError::InvalidInput(m));
        }
        Ok(())
    }

    /// The encoded frame: the first `num_out_bytes` bytes of the output
    /// buffer, covering one frame of input samples.
    pub fn encoded_frame(&self, out_buf: &[u8], num_out_bytes: i32) -> (r: EncodedData)
        requires
            num_out_bytes as usize <= out_buf@.len(),
        ensures
            r.bytes@ == out_buf@.take(num_out_bytes as usize as int),
            r.num_samples == self.spec_frame_size(),
    {
        EncodedData { bytes: copy_prefix(out_buf, num_out_bytes as usize), num_samples: self.frame_size }
    }
}

/// The input of the end-of-stream encode call: -1 samples in 0 bytes.
pub fn end_of_stream_input() -> (r: (i32, i32))
    ensures
        r == (-1i32, 0i32),
{
    (-1, 0)
}

/// The outcome of flushing, from the status code of the end-of-stream encode
/// call and the bytes it wrote: the end-of-stream code, or success with no
/// bytes, means nothing was buffered; success with bytes gives those bytes,
/// covering no new input samples; any other code is an encoding failure.
pub fn flush_result(code: u32, out_buf: &[u8], num_out_bytes: i32) -> (r: Result<
    Option<EncodedData>,
    AacError,
>)
    requires
        code == 0 ==> num_out_bytes as usize <= out_buf@.len(),
    ensures
        code == ENCODE_EOF ==> r matches Ok(None),
        code == 0 && num_out_bytes as usize == 0 ==> r matches Ok(None),
        code == 0 && num_out_bytes as usize != 0 ==> (r matches Ok(Some(d)) && d.bytes@
            == out_buf@.take(num_out_bytes as usize as int) && d.num_samples == 0),
        code != 0 && code != ENCODE_EOF ==> (r matches Err(AacError::EncodeFailed(c)) && c
            == code as i32),
{
    if code == ENCODE_EOF {
        return Ok(None);
    }
    if code != 0 {
        return Err(AacError::EncodeFailed(code as i32));
    }
    let n = num_out_bytes as usize;
    if n == 0 {
        Ok(None)
    } else {
        Ok(Some(EncodedData { bytes: copy_prefix(out_buf, n), num_samples: 0 }))
    }
}

/// Copy the first `n` bytes of a buffer.
fn copy_prefix(buf: &[u8], n: usize) -> (r: Vec<u8>)
    requires
        n <= buf@.len(),
    ensures
        r@ == buf@.take(n as int),
{
    let mut out: Vec<u8> = Vec::new();
    let mut i: usize = 0;
    while i < n
        invariant
            n <= buf@.len(),
            i <= n,
            out@ == buf@.take(i as int),
        decreases n - i,
    {
        out.push(buf[i]);
        i = i + 1;
        assert(out@ =~= buf@.take(i as int));
    }
    out
}

/// Each preset configuration passes the checks made before an encoder is
/// opened exactly when it has 1 to 8 channels; the HE-AAC v2 preset always does.
pub proof fn lemma_presets_acceptable(sample_rate: u32, channels: u8, bitrate: u32)
    ensures
        config_acceptable(crate::config::preset_config(AacProfile::AacLc, sample_rate, channels, bitrate))
            <==> 1 <= channels <= 8,
        config_acceptable(crate::config::preset_config(AacProfile::HeAacV1, sample_rate, channels, bitrate))
            <==> 1 <= channels <= 8,
        config_acceptable(crate::config::preset_config(AacProfile::HeAacV2, sample_rate, 2, bitrate)),
{
}

/// Every configuration that passes the checks is configured in full: the
/// settings name the channel layout with the configured channel count, and
/// a signaling mode exactly for the SBR profiles.
pub proof fn lemma_acceptable_configuration(config: EncoderConfig)
    requires
        config_acceptable(config),
    ensures
        encoder_mode_of_channels(config.channels) matches Some(m) && {
            &&& configure_settings(config)[0] == EncoderSetting::AudioObjectType(
                profile_aot(config.profile) as u32,
            )
            &&& configure_settings(config)[2] == EncoderSetting::ChannelMode(m)
            &&& encoder_mode_channels(m) == config.channels
            &&& configure_settings(config).len() == (if uses_sbr(config.profile) {
                8int
            } else {
                7int
            })
        },
{
}

/// An encoder opened for a configuration that passes the checks keeps its
/// configured channel count, which lies in 1..=8 and is 2 for HE-AAC v2.
pub proof fn lemma_open_channels(config: EncoderConfig)
    requires
        config_acceptable(config),
    ensures
        1 <= config.channels <= 8,
        config.profile == AacProfile::HeAacV2 ==> config.channels == 2,
{
}

/// A planar frame, once interleaved, holds exactly the number of samples
/// that the interleaved entry point accepts: `frame_size * channels`.
pub proof fn lemma_interleaved_frame_length(state: EncoderState, planar: Seq<Seq<i16>>)
    ensures
        interleaved(planar, state.spec_channels() as nat, state.spec_frame_size() as nat).len()
            == state.samples_per_frame(),
{
}

/// Validation accepts a configuration of any profile exactly when it has 1 to
/// 8 channels and, for HE-AAC v2, exactly 2.
pub proof fn lemma_acceptance_rule(config: EncoderConfig)
    ensures
        config_acceptable(config) <==> (1 <= config.channels <= 8 && (config.profile
            == AacProfile::HeAacV2 ==> config.channels == 2)),
        config.profile != AacProfile::HeAacV2 ==> (config_acceptable(config) <==> 1
            <= config.channels <= 8),
{
}

/// Configuring starts with the profile's Audio Object Type and the sample
/// rate, and, for every channel count from 1 to 8, goes on with the layout,
/// WAV channel order, the bitrate, the transport, the afterburner and (for
/// HE-AAC) the SBR signaling, whatever the channel count.
pub proof fn lemma_configure_settings_in_full(config: EncoderConfig)
    ensures
        configure_settings(config).len() >= 2,
        configure_settings(config)[0] == EncoderSetting::AudioObjectType(
            profile_aot(config.profile) as u32,
        ),
        configure_settings(config)[1] == EncoderSetting::SampleRate(config.sample_rate),
        1 <= config.channels <= 8 ==> settings_in_full(config, configure_settings(config)),
        !(1 <= config.channels <= 8) ==> configure_settings(config).len() == 2,
{
}

} // verus!
