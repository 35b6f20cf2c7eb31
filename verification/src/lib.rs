//! Verified core of an AAC audio codec front end built on Fraunhofer FDK AAC.
//!
//! - [`config`]: profiles, transports, channel layouts and encoder configuration.
//! - [`asc`]: the two-byte AudioSpecificConfig built from ADTS header fields.
//! - [`decoder`]: decoder status handling, recorded stream info, planar output.
//! - [`encoder`]: configuration checks, encoder parameter settings, frame checks
//!   and the state an encoder keeps between frames.
//! - [`pcm`]: interleaved and planar layouts of 16-bit PCM.
//! - [`text`]: decimal rendering used in error messages.

pub mod asc;
pub mod config;
pub mod decoder;
pub mod encoder;
pub mod error;
pub mod info;
pub mod pcm;
pub mod text;

pub use asc::build_audio_specific_config;
pub use config::{AacProfile, ChannelMode, EncoderConfig, SbrSignaling, TransportType};
pub use decoder::{DecodedPcm, DecoderState, RawStreamInfo};
pub use encoder::{EncodedData, EncoderChannelMode, EncoderSetting, EncoderState};
pub use error::AacError;
pub use info::StreamInfo;
