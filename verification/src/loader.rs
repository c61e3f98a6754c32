//! The binary image loader: a program image is a two-byte origin field
//! followed by big-endian words, stored contiguously from the origin
//! address.

use vstd::prelude::*;

verus! {

use crate::emulator::{Emulator, PC_START};

/// A malformed program image; loading fails before anything is written.
#[derive(Clone, Copy, Debug, PartialEq, Eq, Structural)]
pub enum LoadError {
    /// The stream ended before the two-byte origin field.
    TruncatedOrigin,
    /// The word stream after the origin had an odd number of bytes.
    OddImage,
}

/// Whether a byte is an ASCII decimal digit.
pub open spec fn is_ascii_digit(b: u8) -> bool {
    48 <= b <= 57
}

/// The load address encoded by the two-byte origin field. The field is
/// byte-swapped like every word of the image and then read as ASCII decimal
/// text: two digits, or a plus sign before a digit, name the address
/// directly, and any field that is not decimal text selects the
/// conventional start address 0x3000.
pub open spec fn origin_of(b0: u8, b1: u8) -> u16 {
    if is_ascii_digit(b1) && is_ascii_digit(b0) {
        ((b1 - 48) * 10 + (b0 - 48)) as u16
    } else if b1 == 43 && is_ascii_digit(b0) {
        (b0 - 48) as u16
    } else {
        PC_START
    }
}

/// The number of payload bytes the loader reads: everything after the
/// origin field, truncated at the memory capacity boundary.
pub open spec fn payload_len(len: int) -> int {
    if len - 2 <= 65534 {
        len - 2
    } else {
        65534
    }
}

/// The word at index `j` of the image's payload: big-endian byte pairs
/// following the two origin bytes.
pub open spec fn image_word(bytes: Seq<u8>, j: int) -> int {
    bytes[2 + 2 * j] * 256 + bytes[2 + 2 * j + 1]
}

/// Decodes the origin field, as `origin_of` describes. The result never
/// exceeds the conventional start address.
fn parse_origin(b0: u8, b1: u8) -> (r: u16)
    ensures
        r == origin_of(b0, b1),
        r <= PC_START,
{
    if 48 <= b1 && b1 <= 57 && 48 <= b0 && b0 <= 57 {
        ((b1 - 48) as u16) * 10 + ((b0 - 48) as u16)
    } else if b1 == 43 && 48 <= b0 && b0 <= 57 {
        (b0 - 48) as u16
    } else {
        PC_START
    }
}

/// Swaps each big-endian byte pair in place into little-endian order. The
/// buffer must hold whole pairs.
pub fn be_to_le(buf: &mut Vec<u8>)
    requires
        old(buf)@.len() % 2 == 0,
    ensures
        final(buf)@.len() == old(buf)@.len(),
        forall|m: int|
            0 <= m && m + 1 < old(buf)@.len() && m % 2 == 0 ==> #[trigger] final(buf)@[m] == old(
                buf,
            )@[m + 1] && final(buf)@[m + 1] == old(buf)@[m],
{
    let mut i: usize = 0;
    while i + 1 < buf.len()
        invariant
            buf@.len() == old(buf)@.len(),
            buf@.len() % 2 == 0,
            i % 2 == 0,
            i <= buf@.len(),
            forall|m: int|
                0 <= m && m + 1 < i && m % 2 == 0 ==> #[trigger] buf@[m] == old(buf)@[m + 1]
                    && buf@[m + 1] == old(buf)@[m],
            forall|m: int| i <= m < buf@.len() ==> buf@[m] == old(buf)@[m],
        decreases buf@.len() - i,
    {
        let tmp: u8 = buf[i + 1];
        let low: u8 = buf[i];
        buf.set(i + 1, low);
        buf.set(i, tmp);
        i = i + 2;
    }
}

/// Packs each little-endian byte pair into one word: the low byte first,
/// then the high byte. The buffer must hold whole pairs.
pub fn vec_u8_to_vec_u16(buf: Vec<u8>) -> (r: Vec<u16>)
    requires
        buf@.len() % 2 == 0,
    ensures
        r@.len() == buf@.len() / 2,
        forall|j: int| 0 <= j < r@.len() ==> r@[j] == buf@[2 * j + 1] * 256 + buf@[2 * j],
{
    let mut other: Vec<u16> = Vec::new();
    let mut i: usize = 0;
    while i + 1 < buf.len()
        invariant
            buf@.len() % 2 == 0,
            i == 2 * other@.len(),
            i <= buf@.len(),
            forall|j: int|
                0 <= j < other@.len() ==> other@[j] == buf@[2 * j + 1] * 256 + buf@[2 * j],
        decreases buf@.len() - i,
    {
        let low: u8 = buf[i];
        let high: u8 = buf[i + 1];
        let word: u16 = (high as u16) * 256 + (low as u16);
        other.push(word);
        i = i + 2;
    }
    other
}

/// Parses a binary program image and writes it into memory: the first two
/// bytes are the origin field, and the rest is a run of big-endian words
/// stored contiguously from the origin address, truncated at the memory
/// capacity boundary. A stream shorter than the origin field, or an odd run
/// of payload bytes, is a fatal load error that leaves the machine
/// untouched.
pub fn load_image(emu: &mut Emulator, bytes: &Vec<u8>) -> (r: Result<(), LoadError>)
    requires
        old(emu).wf(),
    ensures
        final(emu).wf(),
        final(emu).registers == old(emu).registers,
        final(emu).running == old(emu).running,
        bytes@.len() < 2 ==> r == Result::<(), LoadError>::Err(LoadError::TruncatedOrigin),
        bytes@.len() >= 2 && payload_len(bytes@.len() as int) % 2 != 0 ==> r == Result::<
            (),
            LoadError,
        >::Err(LoadError::OddImage),
        bytes@.len() >= 2 && payload_len(bytes@.len() as int) % 2 == 0 ==> r is Ok,
        r is Err ==> final(emu).memory@ == old(emu).memory@,
        r is Ok ==> ({
            let origin = origin_of(bytes@[0], bytes@[1]);
            let nwords = payload_len(bytes@.len() as int) / 2;
            forall|a: int|
                0 <= a < 65536 ==> final(emu).memory@[a] == (if origin <= a < origin + nwords {
                    image_word(bytes@, a - origin) as u16
                } else {
                    old(emu).memory@[a]
                })
        }),
{
    if bytes.len() < 2 {
        return Err(LoadError::TruncatedOrigin);
    }
    let avail: usize = bytes.len() - 2;
    let take: usize = if avail <= 65534 {
        avail
    } else {
        65534
    };
    if take % 2 != 0 {
        return Err(LoadError::OddImage);
    }
    let origin: u16 = parse_origin(bytes[0], bytes[1]);
    let mut rest: Vec<u8> = Vec::new();
    let mut i: usize = 0;
    while i < take
        invariant
            rest@.len() == i,
            i <= take,
            take <= 65534,
            take + 2 <= bytes@.len(),
            forall|k: int| 0 <= k < i ==> rest@[k] == bytes@[2 + k],
        decreases take - i,
    {
        rest.push(bytes[2 + i]);
        i = i + 1;
    }
    be_to_le(&mut rest);
    let words: Vec<u16> = vec_u8_to_vec_u16(rest);
    proof {
        assert forall|j: int| 0 <= j < words@.len() implies words@[j] == image_word(
            bytes@,
            j,
        ) by {
            assert(words@[j] == bytes@[2 + 2 * j] * 256 + bytes@[2 + 2 * j + 1]);
        }
    }
    let ghost orig_mem = emu.memory@;
    let mut j: usize = 0;
    while j < words.len()
        invariant
            emu.wf(),
            emu.registers == old(emu).registers,
            emu.running == old(emu).running,
            j <= words@.len(),
            2 * words@.len() <= 65534,
            origin <= 0x3000,
            forall|k: int| 0 <= k < words@.len() ==> words@[k] == image_word(bytes@, k),
            forall|a: int|
                0 <= a < 65536 ==> emu.memory@[a] == (if origin <= a < origin + j {
                    image_word(bytes@, a - origin) as u16
                } else {
                    orig_mem[a]
                }),
        decreases words@.len() - j,
    {
        emu.memory.write(origin + (j as u16), words[j]);
        j = j + 1;
    }
    Ok(())
}

} // verus!
