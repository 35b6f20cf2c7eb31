use aac_audio::asc::build_audio_specific_config;
use aac_audio::decoder::{decoder_status, DecoderStage, DecoderState, RawStreamInfo, MAX_PCM_SAMPLES};
use aac_audio::{AacError, AacProfile};

#[test]
fn build_asc_aac_lc_48k_stereo() {
    let asc = build_audio_specific_config(1, 3, 2);
    // byte0 = (aot << 3) | (sri >> 1) = (2 << 3) | (3 >> 1) = 0x11
    // byte1 = (sri << 7) | (cc << 3)  = (3 << 7) | (2 << 3) = 0x90
    assert_eq!(asc, [0x11, 0x90]);
}

#[test]
fn build_asc_he_aac_v1_44k_stereo() {
    // HE-AAC v1: profile=4 (AOT 5), sri=4 (44.1kHz), cc=2
    let asc = build_audio_specific_config(4, 4, 2);
    assert_eq!(asc, [0x2A, 0x10]);
}

#[test]
fn build_asc_mono_aac_lc_44k() {
    let asc = build_audio_specific_config(1, 4, 1);
    assert_eq!(asc, [0x12, 0x08]);
}

#[test]
fn build_asc_fields_read_back() {
    // AAC-LC (profile 1 -> AOT 2), 48 kHz (index 3), stereo.
    let asc = build_audio_specific_config(1, 3, 2);
    assert_eq!(asc[0] >> 3, 2);
    assert_eq!(((asc[0] & 7) << 1) | (asc[1] >> 7), 3);
    assert_eq!((asc[1] >> 3) & 15, 2);
    // 7.1 layout (config 7) at 96 kHz (index 0), AAC-LD (profile 22 -> AOT 23).
    let asc = build_audio_specific_config(22, 0, 7);
    assert_eq!(asc[0] >> 3, 23);
    assert_eq!(((asc[0] & 7) << 1) | (asc[1] >> 7), 0);
    assert_eq!((asc[1] >> 3) & 15, 7);
    assert_eq!(asc[1] & 7, 0);
}

#[test]
fn build_asc_drops_overwide_bits() {
    // Shifted into the second byte, 32 loses all its bits.
    let asc = build_audio_specific_config(1, 3, 32);
    assert_eq!(asc, [0x11, 0x80]);
}

#[test]
fn stream_info_none_before_decode() {
    let dec = DecoderState::new();
    assert!(dec.stream_info().is_none());
    assert!(dec.sample_rate().is_none());
    assert!(dec.channels().is_none());
}

#[test]
fn reset_clears_info() {
    let mut dec = DecoderState::new();
    dec.reset();
    assert!(dec.stream_info().is_none());
}

fn stereo_lc_raw(frame_size: i32) -> RawStreamInfo {
    RawStreamInfo { sample_rate: 48000, frame_size, num_channels: 2, aot: 2, channel_config: 2 }
}

#[test]
fn accept_frame_records_info_and_splits_channels() {
    let mut dec = DecoderState::new();
    // Two channels, three samples each, interleaved: L0 R0 L1 R1 L2 R2, then leftovers.
    let pcm: Vec<i16> = vec![10, -10, 20, -20, 30, -30, 99, 99];
    let frame = dec.accept_frame(Some(stereo_lc_raw(3)), &pcm).unwrap();
    assert_eq!(frame.frame_size, 3);
    assert_eq!(frame.planar, vec![vec![10, 20, 30], vec![-10, -20, -30]]);
    let info = dec.stream_info().unwrap();
    assert_eq!(info.sample_rate, 48000);
    assert_eq!(info.frame_size, 3);
    assert_eq!(info.channels, 2);
    assert_eq!(info.aot, 2);
    assert_eq!(info.channel_config, 2);
    assert_eq!(info.profile, Some(AacProfile::AacLc));
    assert_eq!(dec.sample_rate(), Some(48000));
    assert_eq!(dec.channels(), Some(2));
}

#[test]
fn reset_requests_one_restart() {
    let mut dec = DecoderState::new();
    assert!(!dec.take_restart());
    dec.reset();
    assert!(dec.take_restart());
    assert!(!dec.take_restart());
}

#[test]
fn reset_after_decode_clears_info() {
    let mut dec = DecoderState::new();
    let pcm: Vec<i16> = vec![0; 8];
    dec.accept_frame(Some(stereo_lc_raw(4)), &pcm).unwrap();
    assert!(dec.stream_info().is_some());
    dec.reset();
    assert!(dec.stream_info().is_none());
    assert!(dec.sample_rate().is_none());
    assert!(dec.channels().is_none());
}

#[test]
fn accept_frame_without_stream_info_fails() {
    let mut dec = DecoderState::new();
    let pcm: Vec<i16> = vec![0; 8];
    let err = dec.accept_frame(None, &pcm).unwrap_err();
    assert!(matches!(err, AacError::NoStreamInfo));
    assert!(dec.stream_info().is_none());
}

#[test]
fn accept_frame_unknown_aot_has_no_profile() {
    let mut dec = DecoderState::new();
    let raw = RawStreamInfo { sample_rate: 44100, frame_size: 1, num_channels: 1, aot: 42, channel_config: 1 };
    let pcm: Vec<i16> = vec![7];
    let frame = dec.accept_frame(Some(raw), &pcm).unwrap();
    assert_eq!(frame.planar, vec![vec![7]]);
    let info = dec.stream_info().unwrap();
    assert_eq!(info.aot, 42);
    assert_eq!(info.profile, None);
}

#[test]
fn accept_frame_he_aac_full_buffer() {
    let mut dec = DecoderState::new();
    let raw = RawStreamInfo { sample_rate: 44100, frame_size: 2048, num_channels: 8, aot: 5, channel_config: 7 };
    let pcm: Vec<i16> = (0..MAX_PCM_SAMPLES).map(|i| (i % 8) as i16).collect();
    let frame = dec.accept_frame(Some(raw), &pcm).unwrap();
    assert_eq!(frame.planar.len(), 8);
    for (c, channel) in frame.planar.iter().enumerate() {
        assert_eq!(channel.len(), 2048);
        assert!(channel.iter().all(|&s| s == c as i16));
    }
    assert_eq!(dec.stream_info().unwrap().profile, Some(AacProfile::HeAacV1));
}

#[test]
fn decoder_status_maps_codes() {
    assert!(decoder_status(DecoderStage::Fill, 0).is_ok());
    assert!(matches!(decoder_status(DecoderStage::Config, 0x2001), Err(AacError::DecoderConfig(0x2001))));
    assert!(matches!(decoder_status(DecoderStage::Fill, 0x1002), Err(AacError::DecoderFill(0x1002))));
    assert!(matches!(decoder_status(DecoderStage::Decode, 0x4001), Err(AacError::DecodeFailed(0x4001))));
    assert!(matches!(decoder_status(DecoderStage::Decode, u32::MAX), Err(AacError::DecodeFailed(-1))));
}
