//! Fixed quantities of the sound unit and of its file formats.
use vstd::prelude::*;

verus! {

/// One signed 16-bit sample; output is interleaved stereo, left first.
pub type Sample = i16;

/// Output sample rate in Hz.
pub const SAMPLE_RATE: u32 = 32000;

/// Size of the boot ROM in bytes.
pub const ROM_SIZE: usize = 0x40;

/// Clocks per second.
pub const CLOCK_RATE: u32 = 1024000;

/// Clocks that pass for each stereo pair of samples.
pub const CLOCKS_PER_SAMPLE: usize = 32;

/// Number of mailbox ports.
pub const PORT_COUNT: u32 = 4;

/// Number of voices.
pub const VOICE_COUNT: u32 = 8;

/// Tempo value that means normal speed.
pub const TEMPO_UNIT: u32 = 0x100;

/// Upper bound on the size of a saved engine state.
pub const SPC_STATE_SIZE: usize = 67 * 1024;

/// Size of a dump file.
pub const SPC_FILE_SIZE: usize = 0x10200;

/// Filter gain that leaves the volume unchanged.
pub const FILTER_GAIN_UNIT: u32 = 0x100;

/// Filter bass setting: none.
pub const FILTER_BASS_NONE: u32 = 0;

/// Filter bass setting: normal.
pub const FILTER_BASS_NORM: u32 = 8;

/// Filter bass setting: maximum.
pub const FILTER_BASS_MAX: u32 = 31;

/// Number of DSP registers.
pub const DSP_REGISTER_COUNT: u32 = 128;

/// Size of a saved DSP state.
pub const DSP_STATE_SIZE: usize = 640;

/// The boot ROM.
pub const ROM: [u8; ROM_SIZE] = [
    0xcd, 0xef, 0xbd, 0xe8, 0x00, 0xc6, 0x1d, 0xd0, 0xfc, 0x8f, 0xaa, 0xf4, 0x8f, 0xbb, 0xf5, 0x78,
    0xcc, 0xf4, 0xd0, 0xfb, 0x2f, 0x19, 0xeb, 0xf4, 0xd0, 0xfc, 0x7e, 0xf4, 0xd0, 0x0b, 0xe4, 0xf5,
    0xcb, 0xf4, 0xd7, 0x00, 0xfc, 0xd0, 0xf3, 0xab, 0x01, 0x10, 0xef, 0x7e, 0xf4, 0x10, 0xeb, 0xba,
    0xf6, 0xda, 0x00, 0xba, 0xf4, 0xc4, 0xf4, 0xdd, 0x5d, 0xd0, 0xdb, 0x1f, 0x00, 0x00, 0xc0, 0xff,
];

} // verus!
