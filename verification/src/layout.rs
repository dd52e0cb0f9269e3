//! Byte layout of the tick-array account.
//!
//! | bytes          | field                                   |
//! |----------------|-----------------------------------------|
//! | 0 .. 8         | account discriminator, not inspected    |
//! | 8 .. 12        | start tick index, `i32`                 |
//! | 12 .. 9956     | 88 ticks of 113 bytes each              |
//! | 9956 .. 9988   | address of the pool                     |
//!
//! A tick is a one-byte boolean, an `i128` and six `u128`. Every integer
//! is little-endian.

use vstd::prelude::*;

use crate::utils::constants::TICK_ARRAY_SIZE;
use crate::error::DecodeError;
use crate::le_bytes::{le_i128, le_i32, le_nat, read_i128_le, read_i32_le, read_u128_le};
use crate::types::{Address, Tick, TickArray, TickArrayView};

verus! {

/// Length of the discriminator that leads every account.
pub const DISCRIMINATOR_LEN: usize = 8;

/// Length of one stored tick.
pub const TICK_LEN: usize = 113;

/// Offset of the first stored tick.
pub const TICKS_OFFSET: usize = 12;

/// Offset of the pool address that ends the account.
pub const WHIRLPOOL_OFFSET: usize = 9956;

/// Length of a tick-array account.
pub const TICK_ARRAY_LEN: usize = 9988;

/// Offset of the tick at `position` in a tick-array account.
pub open spec fn tick_offset(position: int) -> int {
    TICKS_OFFSET as int + TICK_LEN as int * position
}

/// The sixteen bytes at `offset` as a `u128`.
pub open spec fn u128_at(data: Seq<u8>, offset: int) -> u128 {
    le_nat(data.subrange(offset, offset + 16)) as u128
}

/// The tick that the 113 bytes at `offset` store.
pub open spec fn tick_at(data: Seq<u8>, offset: int) -> Tick {
    Tick {
        initialized: data[offset] == 1,
        liquidity_net: le_i128(data.subrange(offset + 1, offset + 17)) as i128,
        liquidity_gross: u128_at(data, offset + 17),
        fee_growth_outside_a: u128_at(data, offset + 33),
        fee_growth_outside_b: u128_at(data, offset + 49),
        reward_growths_outside: [
            u128_at(data, offset + 65),
            u128_at(data, offset + 81),
            u128_at(data, offset + 97),
        ],
    }
}

/// The boolean that leads the tick at `position` is stored as 0 or 1.
pub open spec fn flag_is_valid(data: Seq<u8>, position: int) -> bool {
    data[tick_offset(position)] <= 1
}

/// What a tick-array account decodes to.
pub open spec fn decoded_tick_array(data: Seq<u8>) -> Result<TickArrayView, DecodeError> {
    if data.len() < TICK_ARRAY_LEN {
        Err(DecodeError::TooShort)
    } else if data.len() > TICK_ARRAY_LEN {
        Err(DecodeError::TrailingBytes)
    } else if exists|position: int|
        0 <= position < TICK_ARRAY_SIZE && !#[trigger] flag_is_valid(data, position) {
        Err(DecodeError::InvalidBool)
    } else {
        Ok(
            TickArrayView {
                start_tick_index: le_i32(
                    data.subrange(DISCRIMINATOR_LEN as int, TICKS_OFFSET as int),
                ) as i32,
                ticks: Seq::new(
                    TICK_ARRAY_SIZE as nat,
                    |position: int| tick_at(data, tick_offset(position)),
                ),
                whirlpool: data.subrange(WHIRLPOOL_OFFSET as int, TICK_ARRAY_LEN as int),
            },
        )
    }
}

/// The view of a decoding result.
pub open spec fn view_of(result: Result<TickArray, DecodeError>) -> Result<
    TickArrayView,
    DecodeError,
> {
    match result {
        Ok(tick_array) => Ok(tick_array@),
        Err(error) => Err(error),
    }
}

/// Decodes the tick stored in the 113 bytes at `offset`.
pub fn decode_tick(data: &[u8], offset: usize) -> (result: Result<Tick, DecodeError>)
    requires
        offset + TICK_LEN <= data.len(),
    ensures
        data[offset as int] <= 1 ==> result == Ok::<Tick, DecodeError>(tick_at(data@, offset as int)),
        data[offset as int] > 1 ==> result == Err::<Tick, DecodeError>(DecodeError::InvalidBool),
{
    let flag: u8 = data[offset];
    if flag > 1 {
        return Err(DecodeError::InvalidBool);
    }
    Ok(
        Tick {
            initialized: flag == 1,
            liquidity_net: read_i128_le(data, offset + 1),
            liquidity_gross: read_u128_le(data, offset + 17),
            fee_growth_outside_a: read_u128_le(data, offset + 33),
            fee_growth_outside_b: read_u128_le(data, offset + 49),
            reward_growths_outside: [
                read_u128_le(data, offset + 65),
                read_u128_le(data, offset + 81),
                read_u128_le(data, offset + 97),
            ],
        },
    )
}

/// Decodes a tick-array account. The data must hold the discriminator and
/// the record and nothing more.
pub fn decode_tick_array(data: &[u8]) -> (result: Result<TickArray, DecodeError>)
    ensures
        view_of(result) == decoded_tick_array(data@),
{
    if data.len() < TICK_ARRAY_LEN {
        return Err(DecodeError::TooShort);
    }
    if data.len() > TICK_ARRAY_LEN {
        return Err(DecodeError::TrailingBytes);
    }
    let start_tick_index: i32 = read_i32_le(data, DISCRIMINATOR_LEN);
    let mut ticks: [Tick; TICK_ARRAY_SIZE] = [Tick::default(); TICK_ARRAY_SIZE];
    let mut position: usize = 0;
    while position < TICK_ARRAY_SIZE
        invariant
            position <= TICK_ARRAY_SIZE,
            data.len() == TICK_ARRAY_LEN,
            forall|earlier: int|
                0 <= earlier < position ==> #[trigger] flag_is_valid(data@, earlier),
            forall|earlier: int|
                0 <= earlier < position ==> #[trigger] ticks[earlier] == tick_at(
                    data@,
                    tick_offset(earlier),
                ),
        decreases TICK_ARRAY_SIZE - position,
    {
        match decode_tick(data, TICKS_OFFSET + TICK_LEN * position) {
            Ok(tick) => {
                ticks[position] = tick;
            },
            Err(error) => {
                assert(!flag_is_valid(data@, position as int));
                return Err(error);
            },
        }
        assert(flag_is_valid(data@, position as int));
        position = position + 1;
    }
    let mut bytes: [u8; 32] = [0u8; 32];
    let mut i: usize = 0;
    while i < 32
        invariant
            i <= 32,
            data.len() == TICK_ARRAY_LEN,
            forall|j: int| 0 <= j < i ==> bytes[j] == data[WHIRLPOOL_OFFSET + j],
        decreases 32 - i,
    {
        bytes[i] = data[WHIRLPOOL_OFFSET + i];
        i = i + 1;
    }
    let tick_array = TickArray { start_tick_index, ticks, whirlpool: Address { bytes } };
    proof {
        let expected = decoded_tick_array(data@);
        assert(expected is Ok);
        assert(tick_array@.ticks =~= expected->Ok_0.ticks);
        assert(tick_array@.whirlpool =~= expected->Ok_0.whirlpool);
    }
    Ok(tick_array)
}

} // verus!
