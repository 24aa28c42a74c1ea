//! Cartridge header validation: the fields the dump engine reads out of
//! bank 0, and the one-byte checksum recomputed over the header region
//! and held against the declared checksum byte.

use vstd::prelude::*;
use crate::errors::Error;

verus! {

/// Size in bytes of one ROM bank, and of every read window.
pub const BANK_SIZE: usize = 0x4000;

/// First byte of the checksummed header region.
pub const HEADER_REGION_START: usize = 0x134;

/// One past the last byte of the checksummed header region.
pub const HEADER_REGION_END: usize = 0x14d;

/// Address of the ROM-size byte, from which the bank count is derived.
pub const ROM_SIZE_ADDR: usize = 0x148;

/// Address of the declared header checksum byte.
pub const CHECKSUM_ADDR: usize = 0x14d;

/// The header fields the dump engine needs: how many 0x4000-byte banks
/// the cartridge declares, and its declared header checksum byte.
#[derive(Debug, Clone, Copy, PartialEq, Eq, Structural)]
pub struct HeaderInfo {
    pub rom_banks: u16,
    pub checksum: u8,
}

/// The declared bank count a ROM-size byte stands for, if it names one.
/// Sizes 32 KiB through 8 MiB double bank by bank; three further codes
/// name the 72-, 80- and 96-bank layouts.
pub open spec fn rom_banks_spec(v: u8) -> Option<u16> {
    if v == 0x00 {
        Some(2u16)
    } else if v == 0x01 {
        Some(4u16)
    } else if v == 0x02 {
        Some(8u16)
    } else if v == 0x03 {
        Some(16u16)
    } else if v == 0x04 {
        Some(32u16)
    } else if v == 0x05 {
        Some(64u16)
    } else if v == 0x06 {
        Some(128u16)
    } else if v == 0x07 {
        Some(256u16)
    } else if v == 0x08 {
        Some(512u16)
    } else if v == 0x52 {
        Some(72u16)
    } else if v == 0x53 {
        Some(80u16)
    } else if v == 0x54 {
        Some(96u16)
    } else {
        None
    }
}

/// Every bank count a ROM-size byte can declare lies between 2 and 512.
pub proof fn lemma_rom_banks_bounds(v: u8)
    ensures
        rom_banks_spec(v) matches Some(n) ==> 2 <= n <= 512,
{
}

/// The declared bank count a ROM-size byte stands for, if it names one.
pub fn rom_banks_of(v: u8) -> (r: Option<u16>)
    ensures
        r == rom_banks_spec(v),
{
    if v == 0x00 {
        Some(2u16)
    } else if v == 0x01 {
        Some(4u16)
    } else if v == 0x02 {
        Some(8u16)
    } else if v == 0x03 {
        Some(16u16)
    } else if v == 0x04 {
        Some(32u16)
    } else if v == 0x05 {
        Some(64u16)
    } else if v == 0x06 {
        Some(128u16)
    } else if v == 0x07 {
        Some(256u16)
    } else if v == 0x08 {
        Some(512u16)
    } else if v == 0x52 {
        Some(72u16)
    } else if v == 0x53 {
        Some(80u16)
    } else if v == 0x54 {
        Some(96u16)
    } else {
        None
    }
}

/// Checksum folded over bytes `[HEADER_REGION_START, n)`: starting from
/// zero, each byte and a further one are subtracted, wrapping in a byte.
pub open spec fn checksum_upto(b: Seq<u8>, n: int) -> u8
    decreases n,
{
    if n <= HEADER_REGION_START {
        0u8
    } else {
        vstd::wrapping::u8_specs::wrapping_sub(
            vstd::wrapping::u8_specs::wrapping_sub(checksum_upto(b, n - 1), b[n - 1]),
            1u8,
        )
    }
}

/// The header checksum: the fold over the whole header region.
pub open spec fn header_checksum_spec(b: Seq<u8>) -> u8 {
    checksum_upto(b, HEADER_REGION_END as int)
}

/// Recompute the header checksum over the header region of `buf`.
pub fn header_checksum(buf: &Vec<u8>) -> (r: u8)
    requires
        buf@.len() >= HEADER_REGION_END,
    ensures
        r == header_checksum_spec(buf@),
{
    let mut acc: u8 = 0;
    let mut i: usize = HEADER_REGION_START;
    while i < HEADER_REGION_END
        invariant
            HEADER_REGION_START <= i <= HEADER_REGION_END,
            buf@.len() >= HEADER_REGION_END,
            acc == checksum_upto(buf@, i as int),
        decreases HEADER_REGION_END - i,
    {
        acc = acc.wrapping_sub(buf[i]).wrapping_sub(1);
        i = i + 1;
    }
    acc
}

/// The structured header bank-0 bytes declare, if they declare one:
/// `None` exactly when the ROM-size byte names no known layout.
pub open spec fn parse_header_spec(b: Seq<u8>) -> Option<HeaderInfo> {
    match rom_banks_spec(b[ROM_SIZE_ADDR as int]) {
        Some(n) => Some(HeaderInfo { rom_banks: n, checksum: b[CHECKSUM_ADDR as int] }),
        None => None,
    }
}

/// Extract the header fields from the first bank's bytes, or fail when
/// the ROM-size byte names no known layout.
pub fn parse_header(buf: &Vec<u8>) -> (r: Result<HeaderInfo, Error>)
    requires
        buf@.len() > CHECKSUM_ADDR,
    ensures
        match r {
            Ok(info) => parse_header_spec(buf@) == Some(info),
            Err(e) => parse_header_spec(buf@) is None && e == Error::HeaderParseFailure,
        },
{
    match rom_banks_of(buf[ROM_SIZE_ADDR]) {
        Some(n) => Ok(HeaderInfo { rom_banks: n, checksum: buf[CHECKSUM_ADDR] }),
        None => Err(Error::HeaderParseFailure),
    }
}

/// The validation verdict on bank-0 bytes: the header, a parse failure,
/// or a checksum mismatch carrying the declared and recomputed values.
pub open spec fn validate_header_spec(b: Seq<u8>) -> Result<HeaderInfo, Error> {
    match parse_header_spec(b) {
        None => Err(Error::HeaderParseFailure),
        Some(info) => if info.checksum == header_checksum_spec(b) {
            Ok(info)
        } else {
            Err(
                Error::ChecksumMismatch {
                    expected: info.checksum,
                    computed: header_checksum_spec(b),
                },
            )
        },
    }
}

/// Validate bank-0 bytes: parse the header, recompute the checksum over
/// the header region, and gate on the declared checksum byte.
pub fn validate_header(buf: &Vec<u8>) -> (r: Result<HeaderInfo, Error>)
    requires
        buf@.len() > CHECKSUM_ADDR,
    ensures
        r == validate_header_spec(buf@),
{
    let info = match parse_header(buf) {
        Ok(info) => info,
        Err(e) => {
            return Err(e);
        },
    };
    let computed = header_checksum(buf);
    if info.checksum == computed {
        Ok(info)
    } else {
        Err(Error::ChecksumMismatch { expected: info.checksum, computed })
    }
}

} // verus!
