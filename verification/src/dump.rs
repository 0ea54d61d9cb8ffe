//! The dump file: a machine image at fixed offsets behind a signature.
//!
//! | offset    | length  | field                                   |
//! |-----------|---------|-----------------------------------------|
//! | `0x00000` | 35      | signature                               |
//! | `0x00023` | 1       | tag marker                              |
//! | `0x00024` | 1       | minor version                           |
//! | `0x00025` | 7       | CPU registers: PC (low, high), A, X, Y, PSW, SP |
//! | `0x0002c` | 212     | reserved bytes and text tag             |
//! | `0x00100` | 65536   | RAM                                     |
//! | `0x10100` | 128     | DSP registers                           |
//! | `0x10180` | 64      | unused                                  |
//! | `0x101c0` | 64      | extra RAM                               |
//!
//! A dump may end after the DSP registers: what follows them is optional.
//! Loading reads the registers, the RAM and the DSP registers, and the
//! extra RAM where the dump holds all of it; where it does not, the extra
//! RAM is zero. Bytes beyond the layout are not part of the image. Saving
//! writes the whole layout: each part where it was, under a fresh
//! signature, with the text tag and the unused bytes set to zero.
use vstd::prelude::*;
use vstd::slice::{slice_subrange, slice_to_vec};
use crate::constants::{DSP_REGISTER_COUNT, ROM_SIZE, SPC_FILE_SIZE};
use crate::error::{Error, ErrorKind};

verus! {

/// Size of the RAM in bytes.
pub const RAM_SIZE: usize = 0x10000;

/// Length of the signature that a saved dump starts with.
pub const SIGNATURE_SIZE: usize = 35;

/// Length of the part of the signature that a dump must carry to be loaded.
pub const SIGNATURE_CHECKED: usize = 27;

/// The signature: the format's name with its version, and two end-of-text bytes.
pub const SIGNATURE: [u8; SIGNATURE_SIZE] = [
    0x53, 0x4e, 0x45, 0x53, 0x2d, 0x53, 0x50, 0x43, 0x37, 0x30, 0x30, 0x20, 0x53, 0x6f, 0x75, 0x6e,
    0x64, 0x20, 0x46, 0x69, 0x6c, 0x65, 0x20, 0x44, 0x61, 0x74, 0x61, 0x20, 0x76, 0x30, 0x2e, 0x33,
    0x30, 0x1a, 0x1a,
];

/// The tag marker that a saved dump carries.
pub const TAG_MARKER: u8 = 26;

/// The minor version that a saved dump carries.
pub const VERSION_MINOR: u8 = 30;

/// Offset of the CPU registers.
pub const REGISTERS_OFFSET: usize = 0x25;

/// Number of bytes that the CPU registers take.
pub const REGISTERS_SIZE: usize = 7;

/// Number of bytes between the CPU registers and the RAM.
pub const TEXT_SIZE: usize = 212;

/// Offset of the RAM.
pub const RAM_OFFSET: usize = 0x100;

/// Offset of the DSP registers.
pub const DSP_OFFSET: usize = 0x10100;

/// Offset of the unused bytes.
pub const UNUSED_OFFSET: usize = 0x10180;

/// The least length of a dump that can be loaded: all up to the end of the
/// DSP registers.
pub const MIN_DUMP_SIZE: usize = 0x10180;

/// Number of unused bytes.
pub const UNUSED_SIZE: usize = 64;

/// Offset of the extra RAM.
pub const EXTRA_RAM_OFFSET: usize = 0x101c0;

/// The registers of the CPU.
#[derive(Clone, Copy, Debug, PartialEq, Eq, Structural)]
pub struct Registers {
    /// Program counter.
    pub pc: u16,
    /// Accumulator.
    pub a: u8,
    /// First index register.
    pub x: u8,
    /// Second index register.
    pub y: u8,
    /// Processor status flags.
    pub psw: u8,
    /// Stack pointer.
    pub sp: u8,
}

/// A machine image: what a dump file holds of the machine.
#[derive(Debug)]
pub struct Image {
    registers: Registers,
    ram: Vec<u8>,
    dsp: Vec<u8>,
    extra_ram: Vec<u8>,
}

/// The mathematical content of an [`Image`].
pub struct ImageView {
    /// The CPU registers.
    pub registers: Registers,
    /// The RAM, byte by byte.
    pub ram: Seq<u8>,
    /// The DSP registers.
    pub dsp: Seq<u8>,
    /// The extra RAM.
    pub extra_ram: Seq<u8>,
}

impl ImageView {
    /// Each part has the length that the machine gives it.
    pub open spec fn wf(self) -> bool {
        &&& self.ram.len() == RAM_SIZE
        &&& self.dsp.len() == DSP_REGISTER_COUNT
        &&& self.extra_ram.len() == ROM_SIZE
    }
}

impl View for Image {
    type V = ImageView;

    closed spec fn view(&self) -> ImageView {
        ImageView {
            registers: self.registers,
            ram: self.ram@,
            dsp: self.dsp@,
            extra_ram: self.extra_ram@,
        }
    }
}

/// `len` bytes of zero.
pub open spec fn zeros(len: nat) -> Seq<u8> {
    Seq::new(len, |i: int| 0u8)
}

/// Whether `bytes` can be loaded: all up to the end of the DSP registers
/// is there, and the bytes start with the checked part of the signature.
pub open spec fn valid_dump(bytes: Seq<u8>) -> bool {
    &&& bytes.len() >= MIN_DUMP_SIZE
    &&& bytes.subrange(0, SIGNATURE_CHECKED as int) == SIGNATURE@.subrange(
        0,
        SIGNATURE_CHECKED as int,
    )
}

/// The CPU registers as the seven bytes that a dump holds of them.
pub open spec fn register_bytes(registers: Registers) -> Seq<u8> {
    seq![
        (registers.pc % 256) as u8,
        (registers.pc / 256) as u8,
        registers.a,
        registers.x,
        registers.y,
        registers.psw,
        registers.sp,
    ]
}

/// The CPU registers that seven bytes of a dump stand for.
pub open spec fn registers_of(bytes: Seq<u8>) -> Registers {
    Registers {
        pc: (bytes[0] + 256 * bytes[1]) as u16,
        a: bytes[2],
        x: bytes[3],
        y: bytes[4],
        psw: bytes[5],
        sp: bytes[6],
    }
}

/// The image that a loadable dump holds.
pub open spec fn image_of(bytes: Seq<u8>) -> ImageView {
    ImageView {
        registers: registers_of(
            bytes.subrange(REGISTERS_OFFSET as int, REGISTERS_OFFSET + REGISTERS_SIZE),
        ),
        ram: bytes.subrange(RAM_OFFSET as int, RAM_OFFSET + RAM_SIZE),
        dsp: bytes.subrange(DSP_OFFSET as int, DSP_OFFSET + DSP_REGISTER_COUNT),
        extra_ram: if bytes.len() >= SPC_FILE_SIZE {
            bytes.subrange(EXTRA_RAM_OFFSET as int, EXTRA_RAM_OFFSET + ROM_SIZE)
        } else {
            zeros(ROM_SIZE as nat)
        },
    }
}

/// The first 256 bytes of a saved dump.
pub open spec fn header_of(registers: Registers) -> Seq<u8> {
    SIGNATURE@ + seq![TAG_MARKER, VERSION_MINOR] + register_bytes(registers) + zeros(
        TEXT_SIZE as nat,
    )
}

/// The dump that saving an image gives.
pub open spec fn dump_of(image: ImageView) -> Seq<u8> {
    header_of(image.registers) + image.ram + image.dsp + zeros(UNUSED_SIZE as nat)
        + image.extra_ram
}

/// Tells whether `bytes` can be loaded as a dump.
pub fn check_dump(bytes: &[u8]) -> (r: Result<(), Error>)
    ensures
        valid_dump(bytes@) <==> r is Ok,
        r matches Err(e) ==> e.spec_kind() == ErrorKind::MalformedDump,
{
    if bytes.len() < MIN_DUMP_SIZE {
        return Err(Error::from_kind(ErrorKind::MalformedDump));
    }
    let mut i: usize = 0;
    while i < SIGNATURE_CHECKED
        invariant
            i <= SIGNATURE_CHECKED,
            bytes@.len() >= MIN_DUMP_SIZE,
            forall|k: int| 0 <= k < i ==> bytes@[k] == SIGNATURE@[k],
        decreases SIGNATURE_CHECKED - i,
    {
        if bytes[i] != SIGNATURE[i] {
            proof {
                let k = i as int;
                assert(bytes@.subrange(0, SIGNATURE_CHECKED as int)[k] == bytes@[k]);
                assert(SIGNATURE@.subrange(0, SIGNATURE_CHECKED as int)[k] == SIGNATURE@[k]);
            }
            return Err(Error::from_kind(ErrorKind::MalformedDump));
        }
        i = i + 1;
    }
    assert(bytes@.subrange(0, SIGNATURE_CHECKED as int) =~= SIGNATURE@.subrange(
        0,
        SIGNATURE_CHECKED as int,
    ));
    Ok(())
}

/// Appends `source` to `out`.
fn append(out: &mut Vec<u8>, source: &[u8])
    ensures
        final(out)@ == old(out)@ + source@,
{
    let mut i: usize = 0;
    while i < source.len()
        invariant
            i <= source@.len(),
            out@ == old(out)@ + source@.subrange(0, i as int),
        decreases source@.len() - i,
    {
        out.push(source[i]);
        i = i + 1;
    }
    assert(source@.subrange(0, source@.len() as int) =~= source@);
}

/// Appends `len` bytes of zero to `out`.
fn append_zeros(out: &mut Vec<u8>, len: usize)
    ensures
        final(out)@ == old(out)@ + zeros(len as nat),
{
    let mut i: usize = 0;
    while i < len
        invariant
            i <= len,
            out@ == old(out)@ + zeros(i as nat),
        decreases len - i,
    {
        out.push(0);
        i = i + 1;
    }
}

/// Saving gives a dump of `SPC_FILE_SIZE` bytes that can be loaded, and
/// loading it gives back the image that was saved.
pub proof fn save_then_load(image: ImageView)
    requires
        image.wf(),
    ensures
        dump_of(image).len() == SPC_FILE_SIZE,
        valid_dump(dump_of(image)),
        image_of(dump_of(image)) == image,
{
    let bytes = dump_of(image);
    let header = header_of(image.registers);
    assert(header.len() == RAM_OFFSET);
    assert(bytes.subrange(0, SIGNATURE_CHECKED as int) =~= SIGNATURE@.subrange(
        0,
        SIGNATURE_CHECKED as int,
    ));
    assert(bytes.subrange(RAM_OFFSET as int, RAM_OFFSET + RAM_SIZE) =~= image.ram);
    assert(bytes.subrange(DSP_OFFSET as int, DSP_OFFSET + DSP_REGISTER_COUNT) =~= image.dsp);
    assert(bytes.subrange(EXTRA_RAM_OFFSET as int, EXTRA_RAM_OFFSET + ROM_SIZE)
        =~= image.extra_ram);
    assert(bytes.subrange(REGISTERS_OFFSET as int, REGISTERS_OFFSET + REGISTERS_SIZE)
        =~= register_bytes(image.registers));
    let pc = image.registers.pc;
    assert((pc % 256) as u8 + 256 * ((pc / 256) as u8) == pc);
}

/// Loading a dump and saving the image again gives back the CPU registers,
/// the RAM and the DSP registers byte for byte, each at its place, and so
/// the extra RAM where the dump held all of it, in a dump that holds the
/// same image. The signature, the text tag and the unused bytes are
/// written afresh.
pub proof fn load_then_save(bytes: Seq<u8>)
    requires
        valid_dump(bytes),
    ensures
        image_of(bytes).wf(),
        dump_of(image_of(bytes)).len() == SPC_FILE_SIZE,
        valid_dump(dump_of(image_of(bytes))),
        image_of(dump_of(image_of(bytes))) == image_of(bytes),
        forall|i: int|
            REGISTERS_OFFSET <= i < REGISTERS_OFFSET + REGISTERS_SIZE ==> dump_of(
                image_of(bytes),
            )[i] == bytes[i],
        forall|i: int|
            RAM_OFFSET <= i < UNUSED_OFFSET ==> dump_of(image_of(bytes))[i] == bytes[i],
        forall|i: int|
            bytes.len() >= SPC_FILE_SIZE && EXTRA_RAM_OFFSET <= i < SPC_FILE_SIZE ==> dump_of(
                image_of(bytes),
            )[i] == bytes[i],
{
    let image = image_of(bytes);
    save_then_load(image);
    let saved = dump_of(image);
    let seven = bytes.subrange(REGISTERS_OFFSET as int, REGISTERS_OFFSET + REGISTERS_SIZE);
    assert(register_bytes(registers_of(seven)) =~= seven) by {
        let lo = seven[0];
        let hi = seven[1];
        let pc = (lo + 256 * hi) as u16;
        assert(pc == lo + 256 * hi);
        assert(pc % 256 == lo);
        assert(pc / 256 == hi);
    }
    assert(header_of(image.registers).len() == RAM_OFFSET);
    assert forall|i: int| REGISTERS_OFFSET <= i < REGISTERS_OFFSET + REGISTERS_SIZE implies saved[i]
        == bytes[i] by {
        assert(saved[i] == register_bytes(image.registers)[i - REGISTERS_OFFSET]);
        assert(seven[i - REGISTERS_OFFSET] == bytes[i]);
    }
    assert forall|i: int| RAM_OFFSET <= i < UNUSED_OFFSET implies saved[i] == bytes[i] by {
        if i < DSP_OFFSET {
            assert(saved[i] == image.ram[i - RAM_OFFSET]);
        } else {
            assert(saved[i] == image.dsp[i - DSP_OFFSET]);
        }
    }
    assert forall|i: int|
        bytes.len() >= SPC_FILE_SIZE && EXTRA_RAM_OFFSET <= i < SPC_FILE_SIZE implies saved[i]
            == bytes[i] by {
        assert(saved[i] == image.extra_ram[i - EXTRA_RAM_OFFSET]);
    }
}

impl Image {
    /// The image of a machine whose memory and registers all hold zero.
    pub fn new() -> (image: Image)
        ensures
            image@.wf(),
            image@ == (ImageView {
                registers: Registers { pc: 0, a: 0, x: 0, y: 0, psw: 0, sp: 0 },
                ram: zeros(RAM_SIZE as nat),
                dsp: zeros(DSP_REGISTER_COUNT as nat),
                extra_ram: zeros(ROM_SIZE as nat),
            }),
    {
        let mut ram: Vec<u8> = Vec::new();
        append_zeros(&mut ram, RAM_SIZE);
        let mut dsp: Vec<u8> = Vec::new();
        append_zeros(&mut dsp, DSP_REGISTER_COUNT as usize);
        let mut extra_ram: Vec<u8> = Vec::new();
        append_zeros(&mut extra_ram, ROM_SIZE);
        Image { registers: Registers { pc: 0, a: 0, x: 0, y: 0, psw: 0, sp: 0 }, ram, dsp, extra_ram }
    }

    /// Loads a dump into this image. Bytes that cannot be loaded are
    /// refused as a malformed dump, and the image stays as it was.
    pub fn load_dump(&mut self, bytes: &[u8]) -> (r: Result<(), Error>)
        ensures
            valid_dump(bytes@) ==> (r is Ok && final(self)@.wf() && final(self)@ == image_of(
                bytes@,
            )),
            !valid_dump(bytes@) ==> (r matches Err(e) && e.spec_kind() == ErrorKind::MalformedDump
                && final(self)@ == old(self)@),
    {
        match check_dump(bytes) {
            Err(e) => { return Err(e); },
            Ok(()) => {},
        }
        let r = slice_subrange(bytes, REGISTERS_OFFSET, REGISTERS_OFFSET + REGISTERS_SIZE);
        let pc: u16 = r[0] as u16 + 256 * (r[1] as u16);
        self.registers = Registers { pc, a: r[2], x: r[3], y: r[4], psw: r[5], sp: r[6] };
        self.ram = slice_to_vec(slice_subrange(bytes, RAM_OFFSET, RAM_OFFSET + RAM_SIZE));
        self.dsp = slice_to_vec(
            slice_subrange(bytes, DSP_OFFSET, DSP_OFFSET + DSP_REGISTER_COUNT as usize),
        );
        if bytes.len() >= SPC_FILE_SIZE {
            self.extra_ram = slice_to_vec(
                slice_subrange(bytes, EXTRA_RAM_OFFSET, EXTRA_RAM_OFFSET + ROM_SIZE),
            );
        } else {
            let mut extra_ram: Vec<u8> = Vec::new();
            append_zeros(&mut extra_ram, ROM_SIZE);
            self.extra_ram = extra_ram;
        }
        Ok(())
    }

    /// Saves this image as a dump of `SPC_FILE_SIZE` bytes.
    pub fn save_dump(&self) -> (bytes: Vec<u8>)
        requires
            self@.wf(),
        ensures
            bytes@ == dump_of(self@),
            bytes@.len() == SPC_FILE_SIZE,
    {
        let mut out: Vec<u8> = Vec::new();
        append(&mut out, SIGNATURE.as_slice());
        out.push(TAG_MARKER);
        out.push(VERSION_MINOR);
        out.push((self.registers.pc % 256) as u8);
        out.push((self.registers.pc / 256) as u8);
        out.push(self.registers.a);
        out.push(self.registers.x);
        out.push(self.registers.y);
        out.push(self.registers.psw);
        out.push(self.registers.sp);
        append_zeros(&mut out, TEXT_SIZE);
        assert(out@ =~= header_of(self@.registers));
        append(&mut out, self.ram.as_slice());
        append(&mut out, self.dsp.as_slice());
        append_zeros(&mut out, UNUSED_SIZE);
        append(&mut out, self.extra_ram.as_slice());
        out
    }
    /// The CPU registers.
    pub fn registers(&self) -> (registers: Registers)
        ensures
            registers == self@.registers,
    {
        self.registers
    }

    /// Sets the CPU registers.
    pub fn set_registers(&mut self, registers: Registers)
        ensures
            final(self)@ == (ImageView { registers, ..old(self)@ }),
    {
        self.registers = registers;
    }

    /// The RAM.
    pub fn ram(&self) -> (ram: &[u8])
        ensures
            ram@ == self@.ram,
    {
        self.ram.as_slice()
    }

    /// The DSP registers.
    pub fn dsp(&self) -> (dsp: &[u8])
        ensures
            dsp@ == self@.dsp,
    {
        self.dsp.as_slice()
    }

    /// The extra RAM.
    pub fn extra_ram(&self) -> (extra_ram: &[u8])
        ensures
            extra_ram@ == self@.extra_ram,
    {
        self.extra_ram.as_slice()
    }

    /// Stores a byte in the RAM.
    pub fn write_ram(&mut self, addr: u16, value: u8)
        requires
            old(self)@.wf(),
        ensures
            final(self)@ == (ImageView {
                ram: old(self)@.ram.update(addr as int, value),
                ..old(self)@
            }),
            final(self)@.wf(),
    {
        self.ram[addr as usize] = value;
    }

    /// Stores a byte in a DSP register.
    pub fn write_dsp(&mut self, register: u8, value: u8)
        requires
            old(self)@.wf(),
            register < DSP_REGISTER_COUNT,
        ensures
            final(self)@ == (ImageView {
                dsp: old(self)@.dsp.update(register as int, value),
                ..old(self)@
            }),
            final(self)@.wf(),
    {
        self.dsp[register as usize] = value;
    }

    /// Stores a byte in the extra RAM.
    pub fn write_extra_ram(&mut self, offset: u8, value: u8)
        requires
            old(self)@.wf(),
            offset < ROM_SIZE,
        ensures
            final(self)@ == (ImageView {
                extra_ram: old(self)@.extra_ram.update(offset as int, value),
                ..old(self)@
            }),
            final(self)@.wf(),
    {
        self.extra_ram[offset as usize] = value;
    }
}

} // verus!
