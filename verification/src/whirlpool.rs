//! The part of the pool account that tick-array lookups need.

use vstd::prelude::*;

use crate::error::DecodeError;
use crate::le_bytes::{le_i32, le_nat, read_i32_le, read_u16_le};

verus! {

/// Offset of the tick spacing in a pool account.
pub const TICK_SPACING_OFFSET: usize = 41;

/// Offset of the current tick index in a pool account.
pub const TICK_CURRENT_INDEX_OFFSET: usize = 81;

/// Length of the shortest pool account that holds both fields.
pub const WHIRLPOOL_MIN_LEN: usize = 85;

/// Tick spacing and current tick index of a pool.
#[derive(Clone, Copy, Debug, PartialEq, Eq)]
pub struct WhirlpoolCore {
    pub tick_spacing: u16,
    pub tick_current_index: i32,
}

/// What a pool account of at least 85 bytes parses to: the tick spacing is
/// the little-endian `u16` at offset 41, the current tick index the
/// little-endian `i32` at offset 81.
pub open spec fn parsed_whirlpool(data: Seq<u8>) -> WhirlpoolCore {
    WhirlpoolCore {
        tick_spacing: le_nat(
            data.subrange(TICK_SPACING_OFFSET as int, TICK_SPACING_OFFSET + 2),
        ) as u16,
        tick_current_index: le_i32(
            data.subrange(TICK_CURRENT_INDEX_OFFSET as int, TICK_CURRENT_INDEX_OFFSET + 4),
        ) as i32,
    }
}

/// Parses a pool account that is known to be long enough.
pub fn parse_whirlpool(data: &[u8]) -> (whirlpool: WhirlpoolCore)
    requires
        data.len() >= WHIRLPOOL_MIN_LEN,
    ensures
        whirlpool == parsed_whirlpool(data@),
{
    WhirlpoolCore {
        tick_spacing: read_u16_le(data, TICK_SPACING_OFFSET),
        tick_current_index: read_i32_le(data, TICK_CURRENT_INDEX_OFFSET),
    }
}

/// Parses a pool account of any length: one that ends before the current
/// tick index does is rejected.
pub fn try_parse_whirlpool(data: &[u8]) -> (result: Result<WhirlpoolCore, DecodeError>)
    ensures
        data.len() >= WHIRLPOOL_MIN_LEN ==> result == Ok::<WhirlpoolCore, DecodeError>(
            parsed_whirlpool(data@),
        ),
        data.len() < WHIRLPOOL_MIN_LEN ==> result == Err::<WhirlpoolCore, DecodeError>(
            DecodeError::TooShort,
        ),
{
    if data.len() < WHIRLPOOL_MIN_LEN {
        Err(DecodeError::TooShort)
    } else {
        Ok(parse_whirlpool(data))
    }
}

} // verus!
