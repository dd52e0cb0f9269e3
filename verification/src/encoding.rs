//! Writing tick-array accounts, and the proof that reading gives back
//! what was written.

use vstd::prelude::*;

use crate::error::DecodeError;
use crate::layout::{
    decoded_tick_array, flag_is_valid, tick_at, tick_offset, DISCRIMINATOR_LEN, TICK_ARRAY_LEN,
    TICK_LEN,
};
use crate::le_bytes::{
    i128_bits, i32_bits, le_bytes, lemma_i128_round_trip, lemma_i32_round_trip,
    lemma_le_bytes_len, lemma_u128_round_trip, twos_complement, write_le,
};
use crate::types::{Tick, TickArray, TickArrayView};
use crate::utils::constants::TICK_ARRAY_SIZE;

verus! {

/// The sixteen bytes that store a `u128`.
pub open spec fn encoded_u128(value: u128) -> Seq<u8> {
    le_bytes(value as nat, 16)
}

/// The 113 bytes that store a tick.
pub open spec fn encoded_tick(tick: Tick) -> Seq<u8> {
    seq![if tick.initialized { 1u8 } else { 0u8 }]
        + le_bytes(twos_complement(tick.liquidity_net as int, 16), 16)
        + encoded_u128(tick.liquidity_gross)
        + encoded_u128(tick.fee_growth_outside_a)
        + encoded_u128(tick.fee_growth_outside_b)
        + encoded_u128(tick.reward_growths_outside[0])
        + encoded_u128(tick.reward_growths_outside[1])
        + encoded_u128(tick.reward_growths_outside[2])
}

/// The bytes that store a sequence of ticks, one after the other.
pub open spec fn encoded_ticks(ticks: Seq<Tick>) -> Seq<u8>
    decreases ticks.len(),
{
    if ticks.len() == 0 {
        Seq::empty()
    } else {
        encoded_ticks(ticks.drop_last()) + encoded_tick(ticks.last())
    }
}

/// The bytes of the account that stores a tick array behind the given
/// discriminator.
pub open spec fn encoded_tick_array(discriminator: Seq<u8>, tick_array: TickArrayView) -> Seq<u8> {
    discriminator + le_bytes(twos_complement(tick_array.start_tick_index as int, 4), 4)
        + encoded_ticks(tick_array.ticks) + tick_array.whirlpool
}

/// A tick-array account can store the tick array: it has 88 ticks and a
/// pool address of 32 bytes.
pub open spec fn is_storable(tick_array: TickArrayView) -> bool {
    &&& tick_array.ticks.len() == TICK_ARRAY_SIZE
    &&& tick_array.whirlpool.len() == 32
}

/// A stored tick takes 113 bytes.
pub proof fn lemma_encoded_tick_len(tick: Tick)
    ensures
        encoded_tick(tick).len() == TICK_LEN,
{
    lemma_le_bytes_len(twos_complement(tick.liquidity_net as int, 16), 16);
    lemma_le_bytes_len(tick.liquidity_gross as nat, 16);
    lemma_le_bytes_len(tick.fee_growth_outside_a as nat, 16);
    lemma_le_bytes_len(tick.fee_growth_outside_b as nat, 16);
    lemma_le_bytes_len(tick.reward_growths_outside[0] as nat, 16);
    lemma_le_bytes_len(tick.reward_growths_outside[1] as nat, 16);
    lemma_le_bytes_len(tick.reward_growths_outside[2] as nat, 16);
}

/// Where 113 bytes of `data` are the bytes that store `tick`, the tick
/// read there is `tick`, and its flag is valid.
pub proof fn lemma_tick_at_encoded_tick(data: Seq<u8>, offset: int, tick: Tick)
    requires
        0 <= offset,
        offset + TICK_LEN <= data.len(),
        data.subrange(offset, offset + TICK_LEN) == encoded_tick(tick),
    ensures
        tick_at(data, offset) == tick,
        data[offset] <= 1,
{
    let window = encoded_tick(tick);
    lemma_encoded_tick_len(tick);
    lemma_i128_round_trip(tick.liquidity_net);
    lemma_u128_round_trip(tick.liquidity_gross);
    lemma_u128_round_trip(tick.fee_growth_outside_a);
    lemma_u128_round_trip(tick.fee_growth_outside_b);
    lemma_u128_round_trip(tick.reward_growths_outside[0]);
    lemma_u128_round_trip(tick.reward_growths_outside[1]);
    lemma_u128_round_trip(tick.reward_growths_outside[2]);
    assert(data[offset] == window[0]);
    assert(data.subrange(offset + 1, offset + 17) =~= window.subrange(1, 17));
    assert(window.subrange(1, 17) =~= le_bytes(
        twos_complement(tick.liquidity_net as int, 16),
        16,
    ));
    assert(data.subrange(offset + 17, offset + 33) =~= window.subrange(17, 33));
    assert(window.subrange(17, 33) =~= encoded_u128(tick.liquidity_gross));
    assert(data.subrange(offset + 33, offset + 49) =~= window.subrange(33, 49));
    assert(window.subrange(33, 49) =~= encoded_u128(tick.fee_growth_outside_a));
    assert(data.subrange(offset + 49, offset + 65) =~= window.subrange(49, 65));
    assert(window.subrange(49, 65) =~= encoded_u128(tick.fee_growth_outside_b));
    assert(data.subrange(offset + 65, offset + 81) =~= window.subrange(65, 81));
    assert(window.subrange(65, 81) =~= encoded_u128(tick.reward_growths_outside[0]));
    assert(data.subrange(offset + 81, offset + 97) =~= window.subrange(81, 97));
    assert(window.subrange(81, 97) =~= encoded_u128(tick.reward_growths_outside[1]));
    assert(data.subrange(offset + 97, offset + 113) =~= window.subrange(97, 113));
    assert(window.subrange(97, 113) =~= encoded_u128(tick.reward_growths_outside[2]));
    let read = tick_at(data, offset);
    assert(read.reward_growths_outside =~= tick.reward_growths_outside);
}

/// Stored ticks take 113 bytes each, and the bytes of each one are found
/// at 113 times its position.
pub proof fn lemma_encoded_ticks_window(ticks: Seq<Tick>, position: int)
    requires
        0 <= position < ticks.len(),
    ensures
        encoded_ticks(ticks).len() == TICK_LEN * ticks.len(),
        encoded_ticks(ticks).subrange(TICK_LEN * position, TICK_LEN * position + TICK_LEN)
            == encoded_tick(ticks[position]),
    decreases ticks.len(),
{
    let front = ticks.drop_last();
    lemma_encoded_tick_len(ticks.last());
    if front.len() == 0 {
        assert(encoded_ticks(front) =~= Seq::<u8>::empty());
        assert(encoded_ticks(ticks).subrange(0, TICK_LEN as int) =~= encoded_tick(ticks.last()));
    } else if position == ticks.len() - 1 {
        lemma_encoded_ticks_window(front, 0);
        assert(encoded_ticks(ticks).subrange(
            TICK_LEN * position,
            TICK_LEN * position + TICK_LEN,
        ) =~= encoded_tick(ticks.last()));
    } else {
        lemma_encoded_ticks_window(front, position);
        assert(encoded_ticks(ticks).subrange(
            TICK_LEN * position,
            TICK_LEN * position + TICK_LEN,
        ) =~= encoded_ticks(front).subrange(TICK_LEN * position, TICK_LEN * position + TICK_LEN));
    }
}

/// Decoding the account that stores a tick array gives the tick array
/// back, whatever the discriminator.
pub proof fn lemma_decode_encoded_tick_array(discriminator: Seq<u8>, tick_array: TickArrayView)
    requires
        discriminator.len() == DISCRIMINATOR_LEN,
        is_storable(tick_array),
    ensures
        encoded_tick_array(discriminator, tick_array).len() == TICK_ARRAY_LEN,
        decoded_tick_array(encoded_tick_array(discriminator, tick_array)) == Ok::<
            TickArrayView,
            DecodeError,
        >(tick_array),
{
    let data = encoded_tick_array(discriminator, tick_array);
    let start = le_bytes(twos_complement(tick_array.start_tick_index as int, 4), 4);
    let ticks = encoded_ticks(tick_array.ticks);
    lemma_i32_round_trip(tick_array.start_tick_index);
    lemma_encoded_ticks_window(tick_array.ticks, 0);
    assert(data.len() == TICK_ARRAY_LEN);
    assert(data.subrange(8, 12) =~= start);
    assert(data.subrange(9956, 9988) =~= tick_array.whirlpool);
    assert forall|position: int| 0 <= position < TICK_ARRAY_SIZE implies #[trigger] flag_is_valid(
        data,
        position,
    ) && tick_at(data, tick_offset(position)) == tick_array.ticks[position] by {
        lemma_encoded_ticks_window(tick_array.ticks, position);
        assert(data.subrange(tick_offset(position), tick_offset(position) + TICK_LEN)
            =~= ticks.subrange(TICK_LEN * position, TICK_LEN * position + TICK_LEN));
        lemma_tick_at_encoded_tick(data, tick_offset(position), tick_array.ticks[position]);
    }
    let decoded = decoded_tick_array(data);
    assert(decoded is Ok);
    assert forall|position: int| 0 <= position < TICK_ARRAY_SIZE implies decoded->Ok_0.ticks[position]
        == #[trigger] tick_array.ticks[position] by {
        assert(flag_is_valid(data, position));
    }
    assert(decoded->Ok_0.ticks =~= tick_array.ticks);
}

/// Appends the 113 bytes that store `tick`.
pub fn encode_tick(out: &mut Vec<u8>, tick: &Tick)
    ensures
        final(out)@ == old(out)@ + encoded_tick(*tick),
{
    out.push(if tick.initialized { 1u8 } else { 0u8 });
    write_le(out, i128_bits(tick.liquidity_net), 16);
    write_le(out, tick.liquidity_gross, 16);
    write_le(out, tick.fee_growth_outside_a, 16);
    write_le(out, tick.fee_growth_outside_b, 16);
    write_le(out, tick.reward_growths_outside[0], 16);
    write_le(out, tick.reward_growths_outside[1], 16);
    write_le(out, tick.reward_growths_outside[2], 16);
    assert(out@ =~= old(out)@ + encoded_tick(*tick));
}

/// The bytes of the account that stores `tick_array` behind the given
/// discriminator.
pub fn encode_tick_array(discriminator: &[u8; 8], tick_array: &TickArray) -> (data: Vec<u8>)
    ensures
        data@ == encoded_tick_array(discriminator@, tick_array@),
        decoded_tick_array(data@) == Ok::<TickArrayView, DecodeError>(tick_array@),
{
    let mut data: Vec<u8> = Vec::new();
    let mut i: usize = 0;
    while i < 8
        invariant
            i <= 8,
            data@ == discriminator@.subrange(0, i as int),
        decreases 8 - i,
    {
        data.push(discriminator[i]);
        i = i + 1;
    }
    assert(data@ =~= discriminator@);
    write_le(&mut data, i32_bits(tick_array.start_tick_index), 4);
    let ghost head = data@;
    let mut position: usize = 0;
    while position < TICK_ARRAY_SIZE
        invariant
            position <= TICK_ARRAY_SIZE,
            data@ == head + encoded_ticks(tick_array.ticks@.subrange(0, position as int)),
        decreases TICK_ARRAY_SIZE - position,
    {
        let ghost before = tick_array.ticks@.subrange(0, position as int);
        encode_tick(&mut data, &tick_array.ticks[position]);
        position = position + 1;
        proof {
            let after = tick_array.ticks@.subrange(0, position as int);
            assert(after.drop_last() =~= before);
            assert(data@ =~= head + encoded_ticks(after));
        }
    }
    assert(tick_array.ticks@.subrange(0, TICK_ARRAY_SIZE as int) =~= tick_array.ticks@);
    let mut j: usize = 0;
    let ghost body = data@;
    while j < 32
        invariant
            j <= 32,
            data@ == body + tick_array.whirlpool@.subrange(0, j as int),
        decreases 32 - j,
    {
        data.push(tick_array.whirlpool.bytes[j]);
        j = j + 1;
    }
    proof {
        assert(tick_array.whirlpool@.subrange(0, 32) =~= tick_array.whirlpool@);
        assert(data@ =~= encoded_tick_array(discriminator@, tick_array@));
        lemma_decode_encoded_tick_array(discriminator@, tick_array@);
    }
    data
}

} // verus!
