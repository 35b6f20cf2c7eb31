//! AAC codec configuration types: profiles, transports, channel layouts,
//! SBR signaling and the encoder configuration.

use vstd::prelude::*;

verus! {

/// AAC Audio Object Type (ISO 14496-3).
#[derive(Debug, Clone, Copy, PartialEq, Eq, Hash, Structural)]
pub enum AacProfile {
    /// AAC-LC (Low Complexity), AOT 2. Most common profile.
    AacLc,
    /// HE-AAC v1 (High Efficiency with SBR), AOT 5.
    HeAacV1,
    /// HE-AAC v2 (High Efficiency with SBR + PS), AOT 29. Stereo only.
    HeAacV2,
    /// AAC-LD (Low Delay), AOT 23. For low-latency contribution.
    AacLd,
    /// AAC-ELD (Enhanced Low Delay), AOT 39.
    AacEld,
}

/// The ISO 14496-3 Audio Object Type number of a profile.
pub open spec fn profile_aot(p: AacProfile) -> u8 {
    match p {
        AacProfile::AacLc => 2,
        AacProfile::HeAacV1 => 5,
        AacProfile::HeAacV2 => 29,
        AacProfile::AacLd => 23,
        AacProfile::AacEld => 39,
    }
}

/// The profile whose Audio Object Type number is `aot`, if there is one.
pub open spec fn profile_of_aot(aot: u8) -> Option<AacProfile> {
    if aot == 2 {
        Some(AacProfile::AacLc)
    } else if aot == 5 {
        Some(AacProfile::HeAacV1)
    } else if aot == 29 {
        Some(AacProfile::HeAacV2)
    } else if aot == 23 {
        Some(AacProfile::AacLd)
    } else if aot == 39 {
        Some(AacProfile::AacEld)
    } else {
        None
    }
}

/// The human-readable name of a profile.
pub open spec fn profile_label(p: AacProfile) -> Seq<char> {
    match p {
        AacProfile::AacLc => "AAC-LC"@,
        AacProfile::HeAacV1 => "HE-AAC v1"@,
        AacProfile::HeAacV2 => "HE-AAC v2"@,
        AacProfile::AacLd => "AAC-LD"@,
        AacProfile::AacEld => "AAC-ELD"@,
    }
}

impl AacProfile {
    /// Return the ISO 14496-3 Audio Object Type number.
    pub fn aot(self) -> (r: u8)
        ensures
            r == profile_aot(self),
    {
        match self {
            AacProfile::AacLc => 2,
            AacProfile::HeAacV1 => 5,
            AacProfile::HeAacV2 => 29,
            AacProfile::AacLd => 23,
            AacProfile::AacEld => 39,
        }
    }

    /// Try to map an AOT number back to a profile.
    pub fn from_aot(aot: u8) -> (r: Option<Self>)
        ensures
            r == profile_of_aot(aot),
            r is Some <==> (aot == 2 || aot == 5 || aot == 29 || aot == 23 || aot == 39),
            r matches Some(p) ==> profile_aot(p) == aot,
    {
        match aot {
            2 => Some(AacProfile::AacLc),
            5 => Some(AacProfile::HeAacV1),
            29 => Some(AacProfile::HeAacV2),
            23 => Some(AacProfile::AacLd),
            39 => Some(AacProfile::AacEld),
            _ => None,
        }
    }

    /// The display name of the profile ("AAC-LC", "HE-AAC v1", ...).
    pub fn label(self) -> (s: &'static str)
        ensures
            s@ == profile_label(self),
    {
        match self {
            AacProfile::AacLc => "AAC-LC",
            AacProfile::HeAacV1 => "HE-AAC v1",
            AacProfile::HeAacV2 => "HE-AAC v2",
            AacProfile::AacLd => "AAC-LD",
            AacProfile::AacEld => "AAC-ELD",
        }
    }
}

/// Transport framing for decoder input and encoder output.
#[derive(Debug, Clone, Copy, PartialEq, Eq, Structural)]
pub enum TransportType {
    /// ADTS framing (most MPEG-TS streams).
    Adts,
    /// LATM/LOAS framing (some DVB/MPEG-TS).
    Latm,
    /// Raw access units: the caller handles framing and provides the AudioSpecificConfig.
    Raw,
}

/// Channel configuration.
#[derive(Debug, Clone, Copy, PartialEq, Eq, Structural)]
pub enum ChannelMode {
    /// Mono (1 channel).
    Mono,
    /// Stereo (2 channels).
    Stereo,
    /// 3.0 (center + left + right).
    Surround30,
    /// 4.0 (center + left + right + rear center).
    Surround40,
    /// 5.0 (center + left + right + left surround + right surround).
    Surround50,
    /// 5.1 (5.0 + LFE).
    Surround51,
    /// 7.1 (5.1 + left back + right back).
    Surround71,
}

/// Number of audio channels of a channel mode.
pub open spec fn mode_channels(m: ChannelMode) -> u8 {
    match m {
        ChannelMode::Mono => 1,
        ChannelMode::Stereo => 2,
        ChannelMode::Surround30 => 3,
        ChannelMode::Surround40 => 4,
        ChannelMode::Surround50 => 5,
        ChannelMode::Surround51 => 6,
        ChannelMode::Surround71 => 8,
    }
}

/// The default channel mode for a channel count, if there is one.
pub open spec fn mode_of_channels(ch: u8) -> Option<ChannelMode> {
    if ch == 1 {
        Some(ChannelMode::Mono)
    } else if ch == 2 {
        Some(ChannelMode::Stereo)
    } else if ch == 3 {
        Some(ChannelMode::Surround30)
    } else if ch == 4 {
        Some(ChannelMode::Surround40)
    } else if ch == 5 {
        Some(ChannelMode::Surround50)
    } else if ch == 6 {
        Some(ChannelMode::Surround51)
    } else if ch == 8 {
        Some(ChannelMode::Surround71)
    } else {
        None
    }
}

/// The channel mode that an ADTS / AudioSpecificConfig `channel_configuration`
/// field denotes, if it denotes one. Values 1..=6 coincide with the channel
/// count; value 7 denotes the 8-channel 7.1 layout.
pub open spec fn mode_of_channel_config(cc: u8) -> Option<ChannelMode> {
    if 1 <= cc <= 6 {
        mode_of_channels(cc)
    } else if cc == 7 {
        Some(ChannelMode::Surround71)
    } else {
        None
    }
}

impl ChannelMode {
    /// Number of audio channels.
    pub fn channels(self) -> (r: u8)
        ensures
            r == mode_channels(self),
    {
        match self {
            ChannelMode::Mono => 1,
            ChannelMode::Stereo => 2,
            ChannelMode::Surround30 => 3,
            ChannelMode::Surround40 => 4,
            ChannelMode::Surround50 => 5,
            ChannelMode::Surround51 => 6,
            ChannelMode::Surround71 => 8,
        }
    }

    /// Map a channel count to the default channel mode.
    pub fn from_channels(ch: u8) -> (r: Option<Self>)
        ensures
            r == mode_of_channels(ch),
            r is Some <==> ((1 <= ch <= 6) || ch == 8),
            r matches Some(m) ==> mode_channels(m) == ch,
    {
        match ch {
            1 => Some(ChannelMode::Mono),
            2 => Some(ChannelMode::Stereo),
            3 => Some(ChannelMode::Surround30),
            4 => Some(ChannelMode::Surround40),
            5 => Some(ChannelMode::Surround50),
            6 => Some(ChannelMode::Surround51),
            8 => Some(ChannelMode::Surround71),
            _ => None,
        }
    }

    /// Map an ADTS/AudioSpecificConfig `channel_configuration` field (0..7)
    /// to a channel mode.
    pub fn from_channel_config(cc: u8) -> (r: Option<Self>)
        ensures
            r == mode_of_channel_config(cc),
            r is Some <==> (1 <= cc <= 7),
    {
        match cc {
            1 => Some(ChannelMode::Mono),
            2 => Some(ChannelMode::Stereo),
            3 => Some(ChannelMode::Surround30),
            4 => Some(ChannelMode::Surround40),
            5 => Some(ChannelMode::Surround50),
            6 => Some(ChannelMode::Surround51),
            7 => Some(ChannelMode::Surround71),
            _ => None,
        }
    }
}

/// SBR signaling mode for HE-AAC encoding.
#[derive(Debug, Clone, Copy, PartialEq, Eq, Structural)]
pub enum SbrSignaling {
    /// Implicit SBR signaling (backward compatible with AAC-LC decoders).
    Implicit,
    /// Explicit backward compatible signaling.
    ExplicitBackwardCompatible,
    /// Explicit hierarchical signaling (for MPEG-DASH).
    ExplicitHierarchical,
}

impl Default for SbrSignaling {
    fn default() -> (r: Self)
        ensures
            r == SbrSignaling::Implicit,
    {
        SbrSignaling::Implicit
    }
}

/// Encoder configuration.
#[derive(Debug, Clone, Copy)]
pub struct EncoderConfig {
    /// AAC profile to encode.
    pub profile: AacProfile,
    /// Input sample rate in Hz.
    pub sample_rate: u32,
    /// Number of input channels (1-8).
    pub channels: u8,
    /// Target bitrate in bits per second.
    pub bitrate: u32,
    /// Enable afterburner (high-quality mode). Increases CPU ~10%, improves
    /// quality at low bitrates. Default: true.
    pub afterburner: bool,
    /// SBR signaling mode (only relevant for HE-AAC v1/v2).
    pub sbr_signaling: SbrSignaling,
    /// Output transport type (ADTS for streaming, Raw for container muxing).
    pub transport: TransportType,
}

/// The configuration that every preset starts from: afterburner on,
/// implicit SBR signaling, ADTS output.
pub open spec fn preset_config(profile: AacProfile, sample_rate: u32, channels: u8, bitrate: u32) -> EncoderConfig {
    EncoderConfig {
        profile,
        sample_rate,
        channels,
        bitrate,
        afterburner: true,
        sbr_signaling: SbrSignaling::Implicit,
        transport: TransportType::Adts,
    }
}

impl EncoderConfig {
    /// Create a config for AAC-LC encoding with sensible defaults.
    pub fn aac_lc(sample_rate: u32, channels: u8, bitrate: u32) -> (r: Self)
        ensures
            r == preset_config(AacProfile::AacLc, sample_rate, channels, bitrate),
            r.profile == AacProfile::AacLc,
            r.sample_rate == sample_rate,
            r.channels == channels,
            r.bitrate == bitrate,
            r.afterburner,
            r.sbr_signaling == SbrSignaling::Implicit,
            r.transport == TransportType::Adts,
    {
        Self {
            profile: AacProfile::AacLc,
            sample_rate,
            channels,
            bitrate,
            afterburner: true,
            sbr_signaling: SbrSignaling::default(),
            transport: TransportType::Adts,
        }
    }

    /// Create a config for HE-AAC v1 encoding with sensible defaults.
    pub fn he_aac_v1(sample_rate: u32, channels: u8, bitrate: u32) -> (r: Self)
        ensures
            r == preset_config(AacProfile::HeAacV1, sample_rate, channels, bitrate),
            r.profile == AacProfile::HeAacV1,
            r.sample_rate == sample_rate,
            r.channels == channels,
            r.bitrate == bitrate,
            r.afterburner,
            r.sbr_signaling == SbrSignaling::Implicit,
            r.transport == TransportType::Adts,
    {
        Self {
            profile: AacProfile::HeAacV1,
            sample_rate,
            channels,
            bitrate,
            afterburner: true,
            sbr_signaling: SbrSignaling::default(),
            transport: TransportType::Adts,
        }
    }

    /// Create a config for HE-AAC v2 encoding. Requires stereo (2 channels).
    pub fn he_aac_v2(sample_rate: u32, bitrate: u32) -> (r: Self)
        ensures
            r == preset_config(AacProfile::HeAacV2, sample_rate, 2, bitrate),
            r.profile == AacProfile::HeAacV2,
            r.sample_rate == sample_rate,
            r.channels == 2,
            r.bitrate == bitrate,
            r.afterburner,
            r.sbr_signaling == SbrSignaling::Implicit,
            r.transport == TransportType::Adts,
    {
        Self {
            profile: AacProfile::HeAacV2,
            sample_rate,
            channels: 2,
            bitrate,
            afterburner: true,
            sbr_signaling: SbrSignaling::default(),
            transport: TransportType::Adts,
        }
    }
}

/// Every profile is found again from its Audio Object Type number.
pub proof fn lemma_profile_aot_round_trip(p: AacProfile)
    ensures
        profile_of_aot(profile_aot(p)) == Some(p),
{
}

/// A profile found from an Audio Object Type number has that number.
pub proof fn lemma_profile_of_aot_inverse(aot: u8)
    ensures
        profile_of_aot(aot) matches Some(p) ==> profile_aot(p) == aot,
{
}

/// Every channel mode is the default mode of its own channel count.
pub proof fn lemma_channel_mode_round_trip(m: ChannelMode)
    ensures
        mode_of_channels(mode_channels(m)) == Some(m),
{
}

/// The default mode of a channel count has that many channels.
pub proof fn lemma_mode_of_channels_inverse(ch: u8)
    ensures
        mode_of_channels(ch) matches Some(m) ==> mode_channels(m) == ch,
{
}

/// A channel configuration field of 1 to 6 denotes the same mode as that
/// channel count; the field value 7 denotes the 8-channel layout.
pub proof fn lemma_channel_config_vs_count(cc: u8)
    ensures
        1 <= cc <= 6 ==> mode_of_channel_config(cc) == mode_of_channels(cc),
        cc == 7 ==> mode_of_channel_config(cc) == mode_of_channels(8),
{
}

/// Every preset keeps the sample rate, channel count and bitrate it is given,
/// and turns the afterburner on, with implicit SBR signaling and ADTS output.
pub proof fn lemma_preset_keeps_arguments(
    profile: AacProfile,
    sample_rate: u32,
    channels: u8,
    bitrate: u32,
)
    ensures
        ({
            let c = preset_config(profile, sample_rate, channels, bitrate);
            &&& c.profile == profile
            &&& c.sample_rate == sample_rate
            &&& c.channels == channels
            &&& c.bitrate == bitrate
            &&& c.afterburner
            &&& c.sbr_signaling == SbrSignaling::Implicit
            &&& c.transport == TransportType::Adts
        }),
{
}

} // verus!
