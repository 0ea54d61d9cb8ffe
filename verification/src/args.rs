//! Values on their way to the engine and back.
//!
//! The engine's entry points take and return C integers. Each function here
//! converts one kind of value and says exactly when the value can be handed
//! over, so that nothing is cut off on the way.
use vstd::prelude::*;
use libc::{c_int, c_long};
use crate::constants::{FILTER_BASS_MAX, PORT_COUNT, ROM_SIZE};
use crate::error::{Error, ErrorKind};

verus! {

/// The largest buffer length that the engine can be told of.
pub const MAX_BUFFER_SIZE: usize = 0x7fff_ffff;

/// A length that a stereo buffer can have: a whole number of pairs that the
/// engine's size argument can hold.
pub open spec fn valid_buffer_size(len: int) -> bool {
    0 <= len <= MAX_BUFFER_SIZE && len % 2 == 0
}

/// The length of a stereo buffer as the engine takes it. An odd length, or
/// one that the engine's size argument cannot hold, is refused.
pub fn stereo_len(len: usize) -> (r: Result<c_int, Error>)
    ensures
        valid_buffer_size(len as int) ==> (r matches Ok(size) && size == len),
        !valid_buffer_size(len as int) ==> (r matches Err(e) && e.spec_kind()
            == ErrorKind::InvalidBufferSize),
{
    if len % 2 != 0 || len > MAX_BUFFER_SIZE {
        Err(Error::from_kind(ErrorKind::InvalidBufferSize))
    } else {
        Ok(len as c_int)
    }
}

/// A time within a frame, in clocks, as the engine takes it; nothing where
/// the engine's time argument cannot hold it.
pub fn clock_time(time: usize) -> (r: Option<c_int>)
    ensures
        time <= c_int::MAX ==> (r matches Some(t) && t == time),
        time > c_int::MAX ==> r is None,
{
    if time > 0x7fff_ffff {
        None
    } else {
        Some(time as c_int)
    }
}

/// The number of a mailbox port as the engine takes it; nothing where there
/// is no such port.
pub fn port_index(port: u32) -> (r: Option<c_int>)
    ensures
        port < PORT_COUNT ==> (r matches Some(p) && p == port),
        port >= PORT_COUNT ==> r is None,
{
    if port < PORT_COUNT {
        Some(port as c_int)
    } else {
        None
    }
}

/// A byte for a mailbox port as the engine takes it.
pub fn port_data(data: u8) -> (r: c_int)
    ensures
        r == data,
{
    data as c_int
}

/// The byte that the engine read from a mailbox port: the low eight bits of
/// what it returned.
pub fn port_value(read: c_int) -> (r: u8)
    ensures
        r == read & 0xff,
{
    assert(0 <= read & 0xff < 256) by (bit_vector);
    (read & 0xff) as u8
}

/// A switch as the engine takes it: one for on, zero for off.
pub fn flag(on: bool) -> (r: c_int)
    ensures
        r == if on { 1int } else { 0int },
{
    if on {
        1
    } else {
        0
    }
}

/// Whether the engine answered yes: it does so with any number but zero.
pub fn is_set(answer: c_int) -> (r: bool)
    ensures
        r == (answer != 0),
{
    answer != 0
}

/// A voice mask as the engine takes it: one bit for each of the eight
/// voices. Higher bits stand for no voice and are dropped.
pub fn voice_mask(mask: u32) -> (r: c_int)
    ensures
        r == mask & 0xff,
{
    assert(mask & 0xff < 256) by (bit_vector);
    (mask & 0xff) as c_int
}

/// A tempo or a gain as the engine takes it; nothing where the engine's
/// argument cannot hold it.
pub fn setting(value: u32) -> (r: Option<c_int>)
    ensures
        value <= c_int::MAX ==> (r matches Some(v) && v == value),
        value > c_int::MAX ==> r is None,
{
    if value > 0x7fff_ffff {
        None
    } else {
        Some(value as c_int)
    }
}

/// An amount of bass for the filter as the engine takes it; nothing where
/// it is above the maximum.
pub fn filter_bass(bass: u32) -> (r: Option<c_int>)
    ensures
        bass <= FILTER_BASS_MAX ==> (r matches Some(b) && b == bass),
        bass > FILTER_BASS_MAX ==> r is None,
{
    if bass <= FILTER_BASS_MAX {
        Some(bass as c_int)
    } else {
        None
    }
}

/// The length of a dump in bytes as the engine takes it; nothing where the
/// engine's argument cannot hold it.
pub fn dump_len(len: usize) -> (r: Option<c_long>)
    ensures
        len <= c_long::MAX ==> (r matches Some(l) && l == len),
        len > c_long::MAX ==> r is None,
{
    if len as u64 > c_long::MAX as u64 {
        None
    } else {
        Some(len as c_long)
    }
}

/// A boot ROM as the engine takes it; nothing where `rom` does not have
/// the length of the boot ROM.
pub fn boot_rom(rom: &[u8]) -> (r: Option<[u8; ROM_SIZE]>)
    ensures
        rom@.len() == ROM_SIZE ==> (r matches Some(image) && image@ == rom@),
        rom@.len() != ROM_SIZE ==> r is None,
{
    if rom.len() != ROM_SIZE {
        return None;
    }
    let mut image: [u8; ROM_SIZE] = [0u8; ROM_SIZE];
    let mut i: usize = 0;
    while i < ROM_SIZE
        invariant
            i <= ROM_SIZE,
            rom@.len() == ROM_SIZE,
            forall|k: int| 0 <= k < i ==> image@[k] == rom@[k],
        decreases ROM_SIZE - i,
    {
        image[i] = rom[i];
        i = i + 1;
    }
    assert(image@ =~= rom@);
    Some(image)
}

/// The number of samples that the engine reports to have written; nothing
/// where what it reported is no count.
pub fn sample_count(reported: c_int) -> (r: Option<usize>)
    ensures
        reported >= 0 ==> (r matches Some(count) && count == reported),
        reported < 0 ==> r is None,
{
    if reported < 0 {
        None
    } else {
        Some(reported as usize)
    }
}

} // verus!
