use aac_audio::encoder::{
    configure_plan, encoder_channel_mode, encoder_status, end_of_stream_input, flush_result,
    set_param_status, validate_config, EncoderChannelMode, EncoderSetting, EncoderStage,
    EncoderState, ENCODE_EOF,
};
use aac_audio::pcm::{deinterleave, interleave};
use aac_audio::text::{count_mismatch, push_decimal};
use aac_audio::{AacError, AacProfile, EncoderConfig, SbrSignaling, TransportType};

#[test]
fn he_aac_v2_rejects_mono() {
    let config = EncoderConfig {
        profile: AacProfile::HeAacV2,
        channels: 1,
        sample_rate: 44100,
        bitrate: 32_000,
        afterburner: true,
        sbr_signaling: SbrSignaling::default(),
        transport: TransportType::Adts,
    };
    let err = validate_config(&config).unwrap_err();
    assert!(
        matches!(err, AacError::InvalidInput(_)),
        "HE-AAC v2 mono should be rejected: {err:?}"
    );
}

#[test]
fn encode_wrong_channel_count_rejected() {
    let config = EncoderConfig::aac_lc(48000, 2, 128_000);
    assert!(validate_config(&config).is_ok());
    let enc = EncoderState::from_info(config.channels, 1024, &[0x11, 0x90], 2);

    // Pass 3 channels when the encoder expects 2
    let wrong = vec![vec![0i16; 1024]; 3];
    let err = enc.check_planar_channels(wrong.len()).unwrap_err();
    assert!(matches!(err, AacError::InvalidInput(_)));
}

#[test]
fn wrong_channel_count_message() {
    let enc = EncoderState::from_info(2, 1024, &[], 0);
    match enc.check_planar_channels(3) {
        Err(AacError::InvalidInput(m)) => assert_eq!(m, "expected 2 channels, got 3"),
        other => panic!("unexpected result: {other:?}"),
    }
    assert!(enc.check_planar_channels(2).is_ok());
}

#[test]
fn interleaved_length_checked() {
    let enc = EncoderState::from_info(2, 1024, &[], 0);
    assert!(enc.check_interleaved_len(2048).is_ok());
    match enc.check_interleaved_len(2047) {
        Err(AacError::InvalidInput(m)) => {
            assert_eq!(m, "expected 2048 interleaved s16 samples, got 2047")
        }
        other => panic!("unexpected result: {other:?}"),
    }
}

#[test]
fn invalid_channel_counts_rejected() {
    let zero = EncoderConfig::aac_lc(48000, 0, 64_000);
    assert!(matches!(validate_config(&zero), Err(AacError::UnsupportedChannelConfig(0))));
    let nine = EncoderConfig::aac_lc(48000, 9, 64_000);
    assert!(matches!(validate_config(&nine), Err(AacError::UnsupportedChannelConfig(9))));
    let eight = EncoderConfig::aac_lc(48000, 8, 256_000);
    assert!(validate_config(&eight).is_ok());
    assert!(validate_config(&EncoderConfig::he_aac_v2(44100, 32_000)).is_ok());
}

#[test]
fn he_aac_v2_message() {
    let config = EncoderConfig { channels: 6, ..EncoderConfig::he_aac_v2(48000, 64_000) };
    match validate_config(&config) {
        Err(AacError::InvalidInput(m)) => {
            assert_eq!(m, "HE-AAC v2 (PS) requires exactly 2 channels (stereo)")
        }
        other => panic!("unexpected result: {other:?}"),
    }
}

#[test]
fn presets() {
    let lc = EncoderConfig::aac_lc(48000, 2, 128_000);
    assert_eq!(lc.profile, AacProfile::AacLc);
    assert_eq!(lc.sample_rate, 48000);
    assert_eq!(lc.channels, 2);
    assert_eq!(lc.bitrate, 128_000);
    assert!(lc.afterburner);
    assert_eq!(lc.sbr_signaling, SbrSignaling::Implicit);
    assert_eq!(lc.transport, TransportType::Adts);

    let v1 = EncoderConfig::he_aac_v1(44100, 1, 48_000);
    assert_eq!(v1.profile, AacProfile::HeAacV1);
    assert_eq!(v1.channels, 1);
    assert_eq!(v1.sample_rate, 44100);

    let v2 = EncoderConfig::he_aac_v2(44100, 32_000);
    assert_eq!(v2.profile, AacProfile::HeAacV2);
    assert_eq!(v2.channels, 2);
    assert_eq!(v2.bitrate, 32_000);
    assert_eq!(SbrSignaling::default(), SbrSignaling::Implicit);
}

#[test]
fn configure_plan_aac_lc_stereo() {
    let plan = configure_plan(&EncoderConfig::aac_lc(48000, 2, 128_000));
    assert!(plan.failure.is_none());
    assert_eq!(
        plan.settings,
        vec![
            EncoderSetting::AudioObjectType(2),
            EncoderSetting::SampleRate(48000),
            EncoderSetting::ChannelMode(EncoderChannelMode::Stereo),
            EncoderSetting::ChannelOrder(1),
            EncoderSetting::Bitrate(128_000),
            EncoderSetting::TransportMux(2),
            EncoderSetting::Afterburner(1),
        ]
    );
}

#[test]
fn configure_plan_he_aac_signaling() {
    let config = EncoderConfig {
        afterburner: false,
        transport: TransportType::Latm,
        sbr_signaling: SbrSignaling::ExplicitHierarchical,
        ..EncoderConfig::he_aac_v2(44100, 32_000)
    };
    let plan = configure_plan(&config);
    assert!(plan.failure.is_none());
    assert_eq!(
        plan.settings,
        vec![
            EncoderSetting::AudioObjectType(29),
            EncoderSetting::SampleRate(44100),
            EncoderSetting::ChannelMode(EncoderChannelMode::Stereo),
            EncoderSetting::ChannelOrder(1),
            EncoderSetting::Bitrate(32_000),
            EncoderSetting::TransportMux(10),
            EncoderSetting::Afterburner(0),
            EncoderSetting::SignalingMode(2),
        ]
    );
    let raw = EncoderConfig { transport: TransportType::Raw, ..EncoderConfig::aac_lc(48000, 6, 320_000) };
    let plan = configure_plan(&raw);
    assert_eq!(plan.settings[2], EncoderSetting::ChannelMode(EncoderChannelMode::Surround51));
    assert_eq!(plan.settings[5], EncoderSetting::TransportMux(0));
}

#[test]
fn configure_plan_seven_channels_uses_6_1() {
    let config = EncoderConfig::aac_lc(48000, 7, 256_000);
    assert!(validate_config(&config).is_ok());
    let plan = configure_plan(&config);
    assert!(plan.failure.is_none());
    assert_eq!(plan.settings[2], EncoderSetting::ChannelMode(EncoderChannelMode::Surround61));
    assert_eq!(plan.settings.len(), 7);
}

#[test]
fn configure_plan_without_layout_stops() {
    let plan = configure_plan(&EncoderConfig::aac_lc(48000, 9, 256_000));
    assert_eq!(
        plan.settings,
        vec![EncoderSetting::AudioObjectType(2), EncoderSetting::SampleRate(48000)]
    );
    assert!(matches!(plan.failure, Some(AacError::UnsupportedChannelConfig(9))));
}

#[test]
fn encoder_channel_modes() {
    let modes: Vec<Option<EncoderChannelMode>> = (0..=9u8).map(encoder_channel_mode).collect();
    assert_eq!(
        modes,
        vec![
            None,
            Some(EncoderChannelMode::Mono),
            Some(EncoderChannelMode::Stereo),
            Some(EncoderChannelMode::Surround30),
            Some(EncoderChannelMode::Surround40),
            Some(EncoderChannelMode::Surround50),
            Some(EncoderChannelMode::Surround51),
            Some(EncoderChannelMode::Surround61),
            Some(EncoderChannelMode::Surround71),
            None,
        ]
    );
}

#[test]
fn encoder_status_maps_codes() {
    assert!(encoder_status(EncoderStage::Encode, 0).is_ok());
    assert!(matches!(encoder_status(EncoderStage::Open, 0x20), Err(AacError::EncoderOpen(0x20))));
    assert!(matches!(encoder_status(EncoderStage::Init, 0x40), Err(AacError::EncoderInit(0x40))));
    assert!(matches!(encoder_status(EncoderStage::Encode, 0x60), Err(AacError::EncodeFailed(0x60))));
    assert!(matches!(encoder_status(EncoderStage::Info, 0x80), Err(AacError::EncoderInfo(0x80))));
    assert!(set_param_status(0x100, 0).is_ok());
    assert!(matches!(
        set_param_status(0x100, 0x30),
        Err(AacError::EncoderSetParam { param: 0x100, code: 0x30 })
    ));
}

#[test]
fn asc_taken_from_info() {
    let mut conf = [0u8; 64];
    conf[0] = 0x11;
    conf[1] = 0x90;
    let enc = EncoderState::from_info(2, 1024, &conf, 2);
    assert_eq!(enc.frame_size(), 1024);
    assert_eq!(enc.channels(), 2);
    assert_eq!(enc.audio_specific_config(), &[0x11, 0x90]);
    assert!(EncoderState::from_info(2, 1024, &conf, 0).audio_specific_config().is_empty());
    assert!(EncoderState::from_info(2, 1024, &conf, 65).audio_specific_config().is_empty());
    assert_eq!(EncoderState::from_info(2, 1024, &conf, 64).audio_specific_config().len(), 64);
}

#[test]
fn interleave_pads_and_truncates() {
    let enc = EncoderState::from_info(2, 3, &[], 0);
    let planar = vec![vec![1i16, 2, 3, 4], vec![-1i16]];
    assert_eq!(enc.interleave_frame(&planar), vec![1, -1, 2, 0, 3, 0]);
}

#[test]
fn interleave_then_deinterleave_round_trip() {
    let planar = vec![vec![1i16, 2, 3], vec![4i16, 5, 6], vec![7i16, 8, 9]];
    let flat = interleave(&planar, 3);
    assert_eq!(flat, vec![1, 4, 7, 2, 5, 8, 3, 6, 9]);
    assert_eq!(deinterleave(&flat, 3, 3), planar);
}

#[test]
fn encoded_and_flushed_frames() {
    let enc = EncoderState::from_info(2, 1024, &[], 0);
    let out = [0xFFu8, 0xF1, 0x50, 0x80, 0, 0];
    let data = enc.encoded_frame(&out, 4);
    assert_eq!(data.bytes, vec![0xFF, 0xF1, 0x50, 0x80]);
    assert_eq!(data.num_samples, 1024);
    assert!(matches!(flush_result(0, &out, 0), Ok(None)));
    let tail = flush_result(0, &out, 2).unwrap().unwrap();
    assert_eq!(tail.bytes, vec![0xFF, 0xF1]);
    assert_eq!(tail.num_samples, 0);
}

#[test]
fn flush_at_end_of_stream_gives_none() {
    let out = [0u8; 8];
    assert_eq!(ENCODE_EOF, 0x80);
    assert!(matches!(flush_result(ENCODE_EOF, &out, 0), Ok(None)));
    assert!(matches!(flush_result(0x60, &out, 0), Err(AacError::EncodeFailed(0x60))));
    assert_eq!(end_of_stream_input(), (-1, 0));
}

#[test]
fn encode_input_sizes() {
    let enc = EncoderState::from_info(2, 1024, &[], 0);
    assert_eq!(enc.input_sizes(), (2048, 4096));
    let mono = EncoderState::from_info(1, 480, &[], 0);
    assert_eq!(mono.input_sizes(), (480, 960));
}

#[test]
fn decimal_rendering() {
    let mut s = String::from("n=");
    push_decimal(&mut s, 0);
    assert_eq!(s, "n=0");
    let mut s = String::new();
    push_decimal(&mut s, 1234567890123);
    assert_eq!(s, "1234567890123");
    assert_eq!(count_mismatch(10, "things", 7), "expected 10 things, got 7");
}
