use snes_spc::args::{
    boot_rom, clock_time, dump_len, filter_bass, flag, is_set, port_data, port_index, port_value,
    sample_count, setting, stereo_len, voice_mask, MAX_BUFFER_SIZE,
};
use snes_spc::error::ErrorKind;
use snes_spc::{FILTER_BASS_MAX, FILTER_BASS_NORM, FILTER_GAIN_UNIT, ROM, TEMPO_UNIT};

#[test]
fn stereo_len_takes_even_lengths() {
    assert_eq!(stereo_len(0).unwrap(), 0);
    assert_eq!(stereo_len(2).unwrap(), 2);
    assert_eq!(stereo_len(4096).unwrap(), 4096);
}

#[test]
fn stereo_len_refuses_odd_lengths() {
    assert_eq!(stereo_len(1).unwrap_err().kind(), ErrorKind::InvalidBufferSize);
    assert_eq!(stereo_len(4095).unwrap_err().kind(), ErrorKind::InvalidBufferSize);
}

#[test]
fn stereo_len_at_the_limit() {
    assert_eq!(MAX_BUFFER_SIZE, 0x7fff_ffff);
    assert_eq!(stereo_len(0x7fff_fffe).unwrap(), 0x7fff_fffe);
    assert_eq!(stereo_len(0x7fff_ffff).unwrap_err().kind(), ErrorKind::InvalidBufferSize);
    assert_eq!(stereo_len(0x8000_0000).unwrap_err().kind(), ErrorKind::InvalidBufferSize);
}

#[test]
fn clock_time_fits_or_is_refused() {
    assert_eq!(clock_time(0), Some(0));
    assert_eq!(clock_time(64000), Some(64000));
    assert_eq!(clock_time(0x7fff_ffff), Some(0x7fff_ffff));
    assert_eq!(clock_time(0x8000_0000), None);
    assert_eq!(clock_time(usize::MAX), None);
}

#[test]
fn there_are_four_ports() {
    assert_eq!(port_index(0), Some(0));
    assert_eq!(port_index(1), Some(1));
    assert_eq!(port_index(2), Some(2));
    assert_eq!(port_index(3), Some(3));
    assert_eq!(port_index(4), None);
    assert_eq!(port_index(u32::MAX), None);
}

#[test]
fn port_data_is_the_byte() {
    assert_eq!(port_data(0), 0);
    assert_eq!(port_data(0xaa), 0xaa);
    assert_eq!(port_data(255), 255);
}

#[test]
fn port_value_is_the_low_byte() {
    assert_eq!(port_value(0), 0);
    assert_eq!(port_value(0xbb), 0xbb);
    assert_eq!(port_value(255), 255);
    assert_eq!(port_value(0x1cc), 0xcc);
    assert_eq!(port_value(-1), 255);
}

#[test]
fn flag_is_one_or_zero() {
    assert_eq!(flag(true), 1);
    assert_eq!(flag(false), 0);
}

#[test]
fn any_number_but_zero_is_yes() {
    assert!(!is_set(0));
    assert!(is_set(1));
    assert!(is_set(-1));
    assert!(is_set(256));
}

#[test]
fn voice_mask_keeps_eight_bits() {
    assert_eq!(voice_mask(0), 0);
    assert_eq!(voice_mask(0x01), 0x01);
    assert_eq!(voice_mask(0xff), 0xff);
    assert_eq!(voice_mask(0x1a5), 0xa5);
    assert_eq!(voice_mask(u32::MAX), 0xff);
}

#[test]
fn setting_fits_or_is_refused() {
    assert_eq!(setting(TEMPO_UNIT), Some(0x100));
    assert_eq!(setting(TEMPO_UNIT / 2), Some(0x80));
    assert_eq!(setting(FILTER_GAIN_UNIT), Some(0x100));
    assert_eq!(setting(0), Some(0));
    assert_eq!(setting(0x7fff_ffff), Some(0x7fff_ffff));
    assert_eq!(setting(0x8000_0000), None);
}

#[test]
fn filter_bass_up_to_the_maximum() {
    assert_eq!(filter_bass(0), Some(0));
    assert_eq!(filter_bass(FILTER_BASS_NORM), Some(8));
    assert_eq!(filter_bass(FILTER_BASS_MAX), Some(31));
    assert_eq!(filter_bass(32), None);
}

#[test]
fn dump_len_is_the_length() {
    assert_eq!(dump_len(0), Some(0));
    assert_eq!(dump_len(0x10200), Some(0x10200));
}

#[test]
fn sample_count_is_no_negative_number() {
    assert_eq!(sample_count(0), Some(0));
    assert_eq!(sample_count(4096), Some(4096));
    assert_eq!(sample_count(0x7fff_ffff), Some(0x7fff_ffff));
    assert_eq!(sample_count(-1), None);
}

#[test]
fn boot_rom_has_its_length() {
    assert_eq!(boot_rom(&ROM), Some(ROM));
    assert_eq!(boot_rom(&ROM[..63]), None);
    assert_eq!(boot_rom(&[]), None);
    let mut longer = ROM.to_vec();
    longer.push(0);
    assert_eq!(boot_rom(&longer), None);
}

#[test]
fn boot_rom_copies_every_byte() {
    let mut rom = [0u8; 64];
    let mut i = 0;
    while i < 64 {
        rom[i] = (i as u8) * 3 + 1;
        i += 1;
    }
    assert_eq!(boot_rom(&rom), Some(rom));
}
