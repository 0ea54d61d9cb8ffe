//! Verified front end for an SPC700 sound-unit emulator: argument checking,
//! double-buffered sample output, the dump-file and snapshot codecs, and the
//! sample clock.
pub mod args;
pub mod clock;
pub mod constants;
pub mod dump;
pub mod error;
pub mod spc;
pub mod state;

pub use crate::constants::{
    Sample, CLOCKS_PER_SAMPLE, CLOCK_RATE, DSP_REGISTER_COUNT, DSP_STATE_SIZE, FILTER_BASS_MAX,
    FILTER_BASS_NONE, FILTER_BASS_NORM, FILTER_GAIN_UNIT, PORT_COUNT, ROM, ROM_SIZE, SAMPLE_RATE,
    SPC_FILE_SIZE, SPC_STATE_SIZE, TEMPO_UNIT, VOICE_COUNT,
};
pub use crate::error::Error;
pub use crate::spc::Spc;
