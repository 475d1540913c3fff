//! The 16-bit checksum that closes a FIT header and a FIT file.

use vstd::prelude::*;

verus! {

/// Entry `n` of the sixteen-entry nibble table.
pub open spec fn crc_table(n: u8) -> u16 {
    if n == 0 {
        0x0000
    } else if n == 1 {
        0xCC01
    } else if n == 2 {
        0xD801
    } else if n == 3 {
        0x1400
    } else if n == 4 {
        0xF001
    } else if n == 5 {
        0x3C00
    } else if n == 6 {
        0x2800
    } else if n == 7 {
        0xE401
    } else if n == 8 {
        0xA001
    } else if n == 9 {
        0x6C00
    } else if n == 10 {
        0x7800
    } else if n == 11 {
        0xB401
    } else if n == 12 {
        0x5000
    } else if n == 13 {
        0x9C01
    } else if n == 14 {
        0x8801
    } else {
        0x4400
    }
}

/// Folds one nibble into the running checksum.
pub open spec fn crc_nibble(crc: u16, nibble: u8) -> u16 {
    ((crc >> 4) & 0x0FFF) ^ crc_table((crc & 0x0F) as u8) ^ crc_table(nibble)
}

/// Folds one byte into the running checksum, low nibble first.
pub open spec fn crc_byte(crc: u16, byte: u8) -> u16 {
    crc_nibble(crc_nibble(crc, byte & 0x0F), (byte >> 4) & 0x0F)
}

/// The checksum of a byte sequence: the bytes folded in order, from zero.
pub open spec fn spec_fit_crc(data: Seq<u8>) -> u16
    decreases data.len(),
{
    if data.len() == 0 {
        0
    } else {
        crc_byte(spec_fit_crc(data.drop_last()), data.last())
    }
}

fn table_entry(n: u8) -> (entry: u16)
    ensures
        entry == crc_table(n),
{
    if n == 0 {
        0x0000
    } else if n == 1 {
        0xCC01
    } else if n == 2 {
        0xD801
    } else if n == 3 {
        0x1400
    } else if n == 4 {
        0xF001
    } else if n == 5 {
        0x3C00
    } else if n == 6 {
        0x2800
    } else if n == 7 {
        0xE401
    } else if n == 8 {
        0xA001
    } else if n == 9 {
        0x6C00
    } else if n == 10 {
        0x7800
    } else if n == 11 {
        0xB401
    } else if n == 12 {
        0x5000
    } else if n == 13 {
        0x9C01
    } else if n == 14 {
        0x8801
    } else {
        0x4400
    }
}

fn fold_nibble(crc: u16, nibble: u8) -> (next: u16)
    ensures
        next == crc_nibble(crc, nibble),
{
    let low: u8 = (crc & 0x0F) as u8;
    ((crc >> 4) & 0x0FFF) ^ table_entry(low) ^ table_entry(nibble)
}

/// Computes the FIT checksum of `data`.
pub fn fit_crc(data: &[u8]) -> (crc: u16)
    ensures
        crc == spec_fit_crc(data@),
{
    let mut crc: u16 = 0;
    let mut i: usize = 0;
    while i < data.len()
        invariant
            i <= data.len(),
            crc == spec_fit_crc(data@.take(i as int)),
        decreases data.len() - i,
    {
        let byte: u8 = data[i];
        proof {
            assert(data@.take(i + 1).drop_last() =~= data@.take(i as int));
        }
        crc = fold_nibble(crc, byte & 0x0F);
        crc = fold_nibble(crc, (byte >> 4) & 0x0F);
        i += 1;
    }
    proof {
        assert(data@.take(i as int) =~= data@);
    }
    crc
}

/// The checksum of no bytes is zero.
pub proof fn lemma_crc_empty()
    ensures
        spec_fit_crc(Seq::<u8>::empty()) == 0,
{
}

} // verus!
