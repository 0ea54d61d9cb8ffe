use snes_spc::dump::{
    check_dump, Image, Registers, DSP_OFFSET, EXTRA_RAM_OFFSET, MIN_DUMP_SIZE, RAM_OFFSET,
    RAM_SIZE, REGISTERS_OFFSET, SIGNATURE, UNUSED_OFFSET,
};
use snes_spc::error::ErrorKind;
use snes_spc::SPC_FILE_SIZE;

fn patterned_dump(len: usize) -> Vec<u8> {
    let mut bytes: Vec<u8> = Vec::with_capacity(len);
    let mut i: usize = 0;
    while i < len {
        bytes.push((i * 31 + i / 256 + 5) as u8);
        i += 1;
    }
    let mut k = 0;
    while k < SIGNATURE.len() && k < len {
        bytes[k] = SIGNATURE[k];
        k += 1;
    }
    bytes
}

#[test]
fn signature_is_the_format_name() {
    assert_eq!(&SIGNATURE[..33], "SNES-SPC700 Sound File Data v0.30".as_bytes());
    assert_eq!(&SIGNATURE[33..], &[26, 26]);
}

#[test]
fn layout_has_fixed_offsets() {
    assert_eq!(REGISTERS_OFFSET, 0x25);
    assert_eq!(RAM_OFFSET, 0x100);
    assert_eq!(RAM_SIZE, 65536);
    assert_eq!(DSP_OFFSET, 0x10100);
    assert_eq!(UNUSED_OFFSET, 0x10180);
    assert_eq!(EXTRA_RAM_OFFSET, 0x101c0);
    assert_eq!(EXTRA_RAM_OFFSET + 64, SPC_FILE_SIZE);
}

#[test]
fn new_image_is_all_zero() {
    let image = Image::new();
    assert_eq!(image.registers(), Registers { pc: 0, a: 0, x: 0, y: 0, psw: 0, sp: 0 });
    assert_eq!(image.ram(), &vec![0u8; 65536][..]);
    assert_eq!(image.dsp(), &[0u8; 128]);
    assert_eq!(image.extra_ram(), &[0u8; 64]);
}

#[test]
fn load_reads_each_field_from_its_place() {
    let mut bytes = patterned_dump(SPC_FILE_SIZE);
    bytes[0x25] = 0x34;
    bytes[0x26] = 0x12;
    bytes[0x27] = 0xa1;
    bytes[0x28] = 0xb2;
    bytes[0x29] = 0xc3;
    bytes[0x2a] = 0xd4;
    bytes[0x2b] = 0xe5;
    let mut image = Image::new();
    image.load_dump(&bytes).unwrap();
    assert_eq!(
        image.registers(),
        Registers { pc: 0x1234, a: 0xa1, x: 0xb2, y: 0xc3, psw: 0xd4, sp: 0xe5 }
    );
    assert_eq!(image.ram(), &bytes[0x100..0x10100]);
    assert_eq!(image.dsp(), &bytes[0x10100..0x10180]);
    assert_eq!(image.extra_ram(), &bytes[0x101c0..0x10200]);
}

#[test]
fn two_voice_dump_loads_its_registers() {
    let mut bytes = vec![0u8; SPC_FILE_SIZE];
    bytes[..35].copy_from_slice(&SIGNATURE);
    bytes[0x25] = 0x00;
    bytes[0x26] = 0x02;
    bytes[0x2b] = 0xef;
    bytes[0x10100 + 0x00] = 0x7f;
    bytes[0x10100 + 0x01] = 0x7f;
    bytes[0x10100 + 0x10] = 0x40;
    bytes[0x10100 + 0x11] = 0x40;
    bytes[0x10100 + 0x4c] = 0x03;
    bytes[0x100 + 0x0200] = 0x2f;
    bytes[0x100 + 0x0201] = 0xfe;
    let mut image = Image::new();
    image.load_dump(&bytes).unwrap();
    assert_eq!(image.registers().pc, 0x0200);
    assert_eq!(image.registers().sp, 0xef);
    assert_eq!(image.dsp()[0x00], 0x7f);
    assert_eq!(image.dsp()[0x01], 0x7f);
    assert_eq!(image.dsp()[0x10], 0x40);
    assert_eq!(image.dsp()[0x11], 0x40);
    assert_eq!(image.dsp()[0x4c], 0x03);
    assert_eq!(image.ram()[0x0200], 0x2f);
    assert_eq!(image.ram()[0x0201], 0xfe);
}

#[test]
fn truncated_ram_is_a_malformed_dump() {
    let bytes = patterned_dump(0x100 + 1000);
    let mut image = Image::new();
    image.write_ram(0x1234, 0x56);
    image.write_dsp(0x4c, 0x03);
    image.write_extra_ram(63, 0x9a);
    image.set_registers(Registers { pc: 0xffc0, a: 1, x: 2, y: 3, psw: 4, sp: 5 });
    let before = image.save_dump();
    assert_eq!(image.load_dump(&bytes).unwrap_err().kind(), ErrorKind::MalformedDump);
    assert_eq!(image.registers(), Registers { pc: 0xffc0, a: 1, x: 2, y: 3, psw: 4, sp: 5 });
    assert_eq!(image.ram()[0x1234], 0x56);
    assert_eq!(image.dsp()[0x4c], 0x03);
    assert_eq!(image.extra_ram()[63], 0x9a);
    assert_eq!(image.save_dump(), before);
}

#[test]
fn dump_one_byte_short_is_malformed() {
    assert_eq!(MIN_DUMP_SIZE, 0x10180);
    let bytes = patterned_dump(MIN_DUMP_SIZE - 1);
    assert_eq!(check_dump(&bytes).unwrap_err().kind(), ErrorKind::MalformedDump);
    let mut image = Image::new();
    assert_eq!(image.load_dump(&bytes).unwrap_err().kind(), ErrorKind::MalformedDump);
}

#[test]
fn dump_may_end_after_the_dsp_registers() {
    let bytes = patterned_dump(MIN_DUMP_SIZE);
    assert!(check_dump(&bytes).is_ok());
    let mut image = Image::new();
    image.write_extra_ram(5, 0x77);
    image.load_dump(&bytes).unwrap();
    assert_eq!(image.ram(), &bytes[0x100..0x10100]);
    assert_eq!(image.dsp(), &bytes[0x10100..0x10180]);
    assert_eq!(image.extra_ram(), &[0u8; 64]);
    let saved = image.save_dump();
    assert_eq!(saved.len(), SPC_FILE_SIZE);
    assert_eq!(&saved[0x100..0x10180], &bytes[0x100..0x10180]);
    assert_eq!(&saved[0x10180..], &[0u8; 128]);
}

#[test]
fn extra_ram_that_is_cut_short_is_left_out() {
    let bytes = patterned_dump(SPC_FILE_SIZE - 1);
    let mut image = Image::new();
    image.load_dump(&bytes).unwrap();
    assert_eq!(image.dsp(), &bytes[0x10100..0x10180]);
    assert_eq!(image.extra_ram(), &[0u8; 64]);
}

#[test]
fn empty_dump_is_malformed() {
    assert_eq!(check_dump(&[]).unwrap_err().kind(), ErrorKind::MalformedDump);
}

#[test]
fn wrong_signature_is_a_malformed_dump() {
    let mut i = 0;
    while i < 27 {
        let mut bytes = patterned_dump(SPC_FILE_SIZE);
        bytes[i] ^= 0x20;
        assert_eq!(check_dump(&bytes).unwrap_err().kind(), ErrorKind::MalformedDump);
        i += 1;
    }
}

#[test]
fn version_text_is_not_checked() {
    let mut bytes = patterned_dump(SPC_FILE_SIZE);
    bytes[27] = b'!';
    bytes[30] = b'9';
    bytes[33] = 0;
    bytes[34] = 0;
    assert!(check_dump(&bytes).is_ok());
    let mut image = Image::new();
    image.load_dump(&bytes).unwrap();
    let saved = image.save_dump();
    assert_eq!(&saved[..35], &SIGNATURE);
}

#[test]
fn longer_dump_is_loaded() {
    let bytes = patterned_dump(SPC_FILE_SIZE + 300);
    let mut image = Image::new();
    image.load_dump(&bytes).unwrap();
    assert_eq!(image.extra_ram(), &bytes[0x101c0..0x10200]);
    assert_eq!(image.save_dump().len(), SPC_FILE_SIZE);
}

#[test]
fn save_writes_every_byte_of_the_layout() {
    let mut image = Image::new();
    image.set_registers(Registers { pc: 0xabcd, a: 0x11, x: 0x22, y: 0x33, psw: 0x44, sp: 0x55 });
    image.write_ram(0, 0x01);
    image.write_ram(0xffff, 0xfe);
    image.write_dsp(0, 0x02);
    image.write_dsp(127, 0xfd);
    image.write_extra_ram(0, 0x03);
    image.write_extra_ram(63, 0xfc);
    let bytes = image.save_dump();
    assert_eq!(bytes.len(), 0x10200);
    assert_eq!(&bytes[..35], &SIGNATURE);
    assert_eq!(bytes[0x23], 26);
    assert_eq!(bytes[0x24], 30);
    assert_eq!(&bytes[0x25..0x2c], &[0xcd, 0xab, 0x11, 0x22, 0x33, 0x44, 0x55]);
    assert_eq!(&bytes[0x2c..0x100], &[0u8; 212]);
    assert_eq!(bytes[0x100], 0x01);
    assert_eq!(&bytes[0x101..0x100ff], &vec![0u8; 65534][..]);
    assert_eq!(bytes[0x100ff], 0xfe);
    assert_eq!(bytes[0x10100], 0x02);
    assert_eq!(&bytes[0x10101..0x1017f], &[0u8; 126]);
    assert_eq!(bytes[0x1017f], 0xfd);
    assert_eq!(&bytes[0x10180..0x101c0], &[0u8; 64]);
    assert_eq!(bytes[0x101c0], 0x03);
    assert_eq!(&bytes[0x101c1..0x101ff], &[0u8; 62]);
    assert_eq!(bytes[0x101ff], 0xfc);
}

#[test]
fn load_then_save_keeps_ram_and_registers() {
    let bytes = patterned_dump(SPC_FILE_SIZE);
    let mut image = Image::new();
    image.load_dump(&bytes).unwrap();
    let saved = image.save_dump();
    assert_eq!(saved.len(), SPC_FILE_SIZE);
    assert_eq!(&saved[0x25..0x2c], &bytes[0x25..0x2c]);
    assert_eq!(&saved[0x100..0x10180], &bytes[0x100..0x10180]);
    assert_eq!(&saved[0x101c0..], &bytes[0x101c0..]);
    assert_eq!(&saved[..0x25], &[&SIGNATURE[..], &[26, 30]].concat()[..]);
    assert_eq!(&saved[0x2c..0x100], &[0u8; 212]);
    assert_eq!(&saved[0x10180..0x101c0], &[0u8; 64]);
}

#[test]
fn save_then_load_gives_the_image_back() {
    let mut image = Image::new();
    image.set_registers(Registers { pc: 0x00ff, a: 0xff, x: 0, y: 0x80, psw: 0x02, sp: 0xef });
    let mut addr: u32 = 0;
    while addr < 0x10000 {
        image.write_ram(addr as u16, (addr * 13 + 7) as u8);
        addr += 1;
    }
    let mut r: u8 = 0;
    while r < 128 {
        image.write_dsp(r, r ^ 0x5a);
        r += 1;
    }
    let mut o: u8 = 0;
    while o < 64 {
        image.write_extra_ram(o, 255 - o);
        o += 1;
    }
    let bytes = image.save_dump();
    assert!(check_dump(&bytes).is_ok());
    let mut other = Image::new();
    other.load_dump(&bytes).unwrap();
    assert_eq!(other.registers(), image.registers());
    assert_eq!(other.ram(), image.ram());
    assert_eq!(other.dsp(), image.dsp());
    assert_eq!(other.extra_ram(), image.extra_ram());
    assert_eq!(other.save_dump(), bytes);
}

#[test]
fn program_counter_is_stored_low_byte_first() {
    let mut image = Image::new();
    image.set_registers(Registers { pc: 0xff00, a: 0, x: 0, y: 0, psw: 0, sp: 0 });
    let bytes = image.save_dump();
    assert_eq!(bytes[0x25], 0x00);
    assert_eq!(bytes[0x26], 0xff);
    image.set_registers(Registers { pc: 0x00ff, a: 0, x: 0, y: 0, psw: 0, sp: 0 });
    let bytes = image.save_dump();
    assert_eq!(bytes[0x25], 0xff);
    assert_eq!(bytes[0x26], 0x00);
}

#[test]
fn failed_load_after_a_good_one_keeps_the_image() {
    let bytes = patterned_dump(SPC_FILE_SIZE);
    let mut image = Image::new();
    image.load_dump(&bytes).unwrap();
    let mut bad = patterned_dump(SPC_FILE_SIZE);
    bad[0] = b'X';
    bad[0x100] ^= 0xff;
    assert_eq!(image.load_dump(&bad).unwrap_err().kind(), ErrorKind::MalformedDump);
    assert_eq!(image.ram(), &bytes[0x100..0x10100]);
    assert_eq!(image.dsp(), &bytes[0x10100..0x10180]);
}
