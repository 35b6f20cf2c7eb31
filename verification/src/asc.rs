//! The two-byte AudioSpecificConfig built from ADTS header fields.

use vstd::prelude::*;

verus! {

/// First byte of the AudioSpecificConfig: the 5-bit Audio Object Type
/// followed by the top 3 bits of the 4-bit sampling frequency index.
pub open spec fn asc_byte0(aot: u8, sample_rate_index: u8) -> u8 {
    ((aot << 3u8) | (sample_rate_index >> 1u8)) as u8
}

/// Second byte of the AudioSpecificConfig: the low bit of the sampling
/// frequency index followed by the 4-bit channel configuration.
pub open spec fn asc_byte1(sample_rate_index: u8, channel_config: u8) -> u8 {
    ((sample_rate_index << 7u8) | (channel_config << 3u8)) as u8
}

/// The Audio Object Type that an AudioSpecificConfig starts with.
pub open spec fn asc_aot(asc: Seq<u8>) -> u8 {
    asc[0] >> 3u8
}

/// The sampling frequency index that an AudioSpecificConfig carries.
pub open spec fn asc_sample_rate_index(asc: Seq<u8>) -> u8 {
    (((asc[0] & 7u8) << 1u8) | (asc[1] >> 7u8)) as u8
}

/// The channel configuration that an AudioSpecificConfig carries.
pub open spec fn asc_channel_config(asc: Seq<u8>) -> u8 {
    (asc[1] >> 3u8) & 15u8
}

/// Build a 2-byte AudioSpecificConfig from ADTS header fields.
///
/// - `profile`: ADTS profile field (0..=3). AOT = profile + 1.
/// - `sample_rate_index`: ADTS sampling_frequency_index (0..=12).
/// - `channel_config`: ADTS channel_configuration (1..=7).
///
/// Bits of a field that do not fit its width are dropped.
pub fn build_audio_specific_config(profile: u8, sample_rate_index: u8, channel_config: u8) -> (r: [u8; 2])
    requires
        profile < 255,
    ensures
        r@.len() == 2,
        r@[0] == asc_byte0((profile + 1) as u8, sample_rate_index),
        r@[1] == asc_byte1(sample_rate_index, channel_config),
{
    let aot: u8 = profile + 1;
    [(aot << 3) | (sample_rate_index >> 1), (sample_rate_index << 7) | (channel_config << 3)]
}

/// Reading back an AudioSpecificConfig built from in-range fields gives the
/// fields: the Audio Object Type `profile + 1`, the sampling frequency index
/// and the channel configuration, with the three trailing bits zero.
pub proof fn lemma_asc_fields_round_trip(profile: u8, sample_rate_index: u8, channel_config: u8)
    requires
        profile <= 30,
        sample_rate_index <= 15,
        channel_config <= 15,
    ensures
        ({
            let asc = seq![
                asc_byte0((profile + 1) as u8, sample_rate_index),
                asc_byte1(sample_rate_index, channel_config),
            ];
            &&& asc_aot(asc) == profile + 1
            &&& asc_sample_rate_index(asc) == sample_rate_index
            &&& asc_channel_config(asc) == channel_config
            &&& asc[1] & 7u8 == 0
        }),
{
    let aot = (profile + 1) as u8;
    let b0 = asc_byte0(aot, sample_rate_index);
    let b1 = asc_byte1(sample_rate_index, channel_config);
    assert(aot <= 31);
    assert(b0 >> 3u8 == aot) by (bit_vector)
        requires
            aot <= 31,
            b0 == ((aot << 3u8) | (sample_rate_index >> 1u8)) as u8,
            sample_rate_index <= 15,
    ;
    assert((((b0 & 7u8) << 1u8) | (b1 >> 7u8)) as u8 == sample_rate_index) by (bit_vector)
        requires
            b0 == ((aot << 3u8) | (sample_rate_index >> 1u8)) as u8,
            b1 == ((sample_rate_index << 7u8) | (channel_config << 3u8)) as u8,
            sample_rate_index <= 15,
            channel_config <= 15,
    ;
    assert((b1 >> 3u8) & 15u8 == channel_config) by (bit_vector)
        requires
            b1 == ((sample_rate_index << 7u8) | (channel_config << 3u8)) as u8,
            channel_config <= 15,
    ;
    assert(b1 & 7u8 == 0) by (bit_vector)
        requires
            b1 == ((sample_rate_index << 7u8) | (channel_config << 3u8)) as u8,
    ;
    let asc = seq![b0, b1];
    assert(asc[0] == b0 && asc[1] == b1);
}

} // verus!
