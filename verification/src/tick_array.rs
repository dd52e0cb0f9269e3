//! The five tick arrays that a swap may touch.

use vstd::prelude::*;

use crate::utils::constants::TICK_ARRAY_SIZE;
use crate::error::{DecodeError, DerivationError, FetchError};
use crate::layout::{decode_tick_array, decoded_tick_array};
use crate::pda::{derive_tick_array_pda, tick_array_pda};
use crate::tick_index::{swap_array_start_indices, swap_range_fits, swap_start_index};
use crate::types::{
    empty_tick, facade_view, Address, TickArrayFacade, TickArrayFacadeView, TickFacade,
};

pub use crate::tick_index::get_tick_array_start_tick_index;

verus! {

/// Number of tick arrays that are looked up for a swap.
pub const SWAP_TICK_ARRAYS: usize = 5;

/// What a tick array holds that no account stores yet: the given start
/// index and 88 empty ticks.
pub open spec fn uninitialized_view(start_tick_index: i32) -> TickArrayFacadeView {
    TickArrayFacadeView {
        start_tick_index,
        ticks: Seq::new(TICK_ARRAY_SIZE as nat, |position: int| empty_tick()),
    }
}

/// The tick array that stands for one that no account stores yet.
pub fn uninitialized_tick_array(start_tick_index: i32) -> (tick_array: TickArrayFacade)
    ensures
        tick_array@ == uninitialized_view(start_tick_index),
{
    let tick_array = TickArrayFacade {
        start_tick_index,
        ticks: [TickFacade::default(); TICK_ARRAY_SIZE],
    };
    assert(tick_array@.ticks =~= uninitialized_view(start_tick_index).ticks);
    tick_array
}

/// What the fetch of one tick-array account came to.
#[derive(Clone, Copy, Debug, PartialEq, Eq)]
pub enum SlotOutcome {
    /// The account exists and holds a tick array.
    Decoded(TickArrayFacade),
    /// The account does not exist.
    Missing,
    /// The account exists and its data is no tick array.
    Malformed(DecodeError),
}

/// What a fetched slot comes to: `Missing` without an account, `Decoded`
/// with the tick array that the account data decodes to, `Malformed` with
/// the error that decoding ends in.
pub open spec fn slot_outcome_is(account: Option<Vec<u8>>, outcome: SlotOutcome) -> bool {
    match account {
        None => outcome == SlotOutcome::Missing,
        Some(data) => match decoded_tick_array(data@) {
            Ok(stored) => outcome matches SlotOutcome::Decoded(tick_array) && tick_array@
                == facade_view(stored),
            Err(error) => outcome == SlotOutcome::Malformed(error),
        },
    }
}

/// What stands for a fetched slot in the result: the tick array that the
/// account data decodes to, and the uninitialized tick array at
/// `start_tick_index` where the account is missing or cannot be decoded.
pub open spec fn resolved_view(start_tick_index: i32, account: Option<Vec<u8>>)
    -> TickArrayFacadeView {
    match account {
        None => uninitialized_view(start_tick_index),
        Some(data) => match decoded_tick_array(data@) {
            Ok(stored) => facade_view(stored),
            Err(_) => uninitialized_view(start_tick_index),
        },
    }
}

/// Tells what the fetch of one tick-array account came to.
pub fn classify_slot(account: &Option<Vec<u8>>) -> (outcome: SlotOutcome)
    ensures
        slot_outcome_is(*account, outcome),
{
    match account {
        None => SlotOutcome::Missing,
        Some(data) => match decode_tick_array(data.as_slice()) {
            Ok(stored) => SlotOutcome::Decoded(TickArrayFacade::from(stored)),
            Err(error) => SlotOutcome::Malformed(error),
        },
    }
}

impl SlotOutcome {
    /// The tick array that callers get for this slot: the decoded one, or
    /// the uninitialized one at `start_tick_index`.
    pub fn resolve(self, start_tick_index: i32) -> (tick_array: TickArrayFacade)
        ensures
            self matches SlotOutcome::Decoded(decoded) ==> tick_array == decoded,
            !(self is Decoded) ==> tick_array@ == uninitialized_view(start_tick_index),
    {
        match self {
            SlotOutcome::Decoded(tick_array) => tick_array,
            SlotOutcome::Missing => uninitialized_tick_array(start_tick_index),
            SlotOutcome::Malformed(_) => uninitialized_tick_array(start_tick_index),
        }
    }
}

/// An address can be derived for each of the five tick arrays of a swap.
pub open spec fn swap_addresses_exist(whirlpool: Seq<u8>, tick_index: int, tick_spacing: int)
    -> bool {
    forall|slot: int|
        0 <= slot < SWAP_TICK_ARRAYS ==> (#[trigger] tick_array_pda(
            whirlpool,
            swap_start_index(tick_index, tick_spacing, slot),
        )) is Some
}

/// `address` is the derived address of the tick array in `slot` of the
/// five of a swap.
pub open spec fn slot_address_is(
    whirlpool: Seq<u8>,
    tick_index: int,
    tick_spacing: int,
    slot: int,
    address: Address,
) -> bool {
    tick_array_pda(whirlpool, swap_start_index(tick_index, tick_spacing, slot)) matches Some(pda)
        && address@ == pda.0
}

/// `addresses` are the derived addresses of the five tick arrays of a swap,
/// slot by slot.
pub open spec fn swap_addresses_are(
    whirlpool: Seq<u8>,
    tick_index: int,
    tick_spacing: int,
    addresses: [Address; 5],
) -> bool {
    forall|slot: int|
        0 <= slot < SWAP_TICK_ARRAYS ==> #[trigger] slot_address_is(
            whirlpool,
            tick_index,
            tick_spacing,
            slot,
            addresses[slot],
        )
}

/// Derives the addresses of the five tick arrays that a swap at
/// `current_tick_index` may touch, in the order of
/// `swap_array_start_indices`. Where one of them cannot be derived, none is
/// returned.
pub fn swap_tick_array_addresses(
    whirlpool: &Address,
    current_tick_index: i32,
    tick_spacing: u16,
) -> (result: Result<[Address; 5], DerivationError>)
    requires
        tick_spacing > 0,
        swap_range_fits(current_tick_index as int, tick_spacing as int),
    ensures
        match result {
            Ok(addresses) => swap_addresses_are(
                whirlpool@,
                current_tick_index as int,
                tick_spacing as int,
                addresses,
            ),
            Err(error) => error == DerivationError::ExhaustedSeeds && !swap_addresses_exist(
                whirlpool@,
                current_tick_index as int,
                tick_spacing as int,
            ),
        },
{
    let indices: [i32; 5] = swap_array_start_indices(current_tick_index, tick_spacing);
    let mut addresses: [Address; 5] = [*whirlpool; 5];
    let mut slot: usize = 0;
    while slot < SWAP_TICK_ARRAYS
        invariant
            slot <= SWAP_TICK_ARRAYS,
            forall|at: int|
                0 <= at < 5 ==> #[trigger] indices[at] == swap_start_index(
                    current_tick_index as int,
                    tick_spacing as int,
                    at,
                ),
            forall|earlier: int|
                0 <= earlier < slot ==> #[trigger] slot_address_is(
                    whirlpool@,
                    current_tick_index as int,
                    tick_spacing as int,
                    earlier,
                    addresses[earlier],
                ),
        decreases SWAP_TICK_ARRAYS - slot,
    {
        match derive_tick_array_pda(whirlpool, indices[slot]) {
            Ok((address, _)) => {
                addresses[slot] = address;
            },
            Err(error) => {
                return Err(error);
            },
        }
        slot = slot + 1;
    }
    Ok(addresses)
}

/// `pairs` hold, slot by slot, the address that was asked for and the tick
/// array that stands for what was fetched there.
pub open spec fn tick_arrays_resolve(
    indices: [i32; 5],
    addresses: [Address; 5],
    accounts: [Option<Vec<u8>>; 5],
    pairs: [(Address, TickArrayFacade); 5],
) -> bool {
    forall|slot: int|
        0 <= slot < SWAP_TICK_ARRAYS ==> (#[trigger] pairs[slot]).0 == addresses[slot]
            && pairs[slot].1@ == resolved_view(indices[slot], accounts[slot])
}

/// Pairs every address with the tick array that stands for the account
/// fetched there, slot by slot: the decoded tick array, or the
/// uninitialized one at the slot's start index where the account is missing
/// or cannot be decoded.
pub fn resolve_tick_arrays(
    indices: &[i32; 5],
    addresses: &[Address; 5],
    accounts: &[Option<Vec<u8>>; 5],
) -> (pairs: [(Address, TickArrayFacade); 5])
    ensures
        tick_arrays_resolve(*indices, *addresses, *accounts, pairs),
{
    let mut pairs: [(Address, TickArrayFacade); 5] = [
        (addresses[0], uninitialized_tick_array(indices[0]));
        5
    ];
    let mut slot: usize = 0;
    while slot < SWAP_TICK_ARRAYS
        invariant
            slot <= SWAP_TICK_ARRAYS,
            forall|earlier: int|
                0 <= earlier < slot ==> (#[trigger] pairs[earlier]).0 == addresses[earlier]
                    && pairs[earlier].1@ == resolved_view(indices[earlier], accounts[earlier]),
        decreases SWAP_TICK_ARRAYS - slot,
    {
        let outcome = classify_slot(&accounts[slot]);
        pairs[slot] = (addresses[slot], outcome.resolve(indices[slot]));
        slot = slot + 1;
    }
    pairs
}

/// What a swap lookup returns once the fetch has answered: a failed fetch
/// is handed on as it came, and the accounts of one that succeeded are
/// resolved slot by slot.
pub open spec fn fetched_result_is<E>(
    indices: [i32; 5],
    addresses: [Address; 5],
    reply: Result<[Option<Vec<u8>>; 5], E>,
    result: Result<[(Address, TickArrayFacade); 5], FetchError<E>>,
) -> bool {
    match reply {
        Ok(accounts) => result matches Ok(pairs) && tick_arrays_resolve(
            indices,
            addresses,
            accounts,
            pairs,
        ),
        Err(error) => result == Err::<[(Address, TickArrayFacade); 5], FetchError<E>>(
            FetchError::Transport(error),
        ),
    }
}

/// Turns the answer of the account fetch into the result of the lookup.
pub fn finish_fetch<E>(
    indices: &[i32; 5],
    addresses: &[Address; 5],
    reply: Result<[Option<Vec<u8>>; 5], E>,
) -> (result: Result<[(Address, TickArrayFacade); 5], FetchError<E>>)
    ensures
        fetched_result_is(*indices, *addresses, reply, result),
{
    match reply {
        Ok(accounts) => Ok(resolve_tick_arrays(indices, addresses, &accounts)),
        Err(error) => Err(FetchError::Transport(error)),
    }
}

/// `indices` are the start indices of the five tick arrays of a swap, slot
/// by slot.
pub open spec fn swap_indices_are(tick_index: int, tick_spacing: int, indices: [i32; 5]) -> bool {
    forall|slot: int|
        0 <= slot < SWAP_TICK_ARRAYS ==> #[trigger] indices[slot] == swap_start_index(
            tick_index,
            tick_spacing,
            slot,
        )
}

/// Looks up the five tick arrays that a swap at `current_tick_index` may
/// touch: the array that holds the tick, the two above it and the two below
/// it, each with its address.
///
/// `fetch` is asked once, for the accounts at the five addresses in this
/// order, and answers with the data of each account, or `None` where there
/// is no such account. It is not asked at all where an address cannot be
/// derived. A slot whose account is missing or cannot be decoded gets the
/// uninitialized tick array at its start index.
pub fn get_tick_arrays_for_swap<E, F>(
    fetch: F,
    whirlpool: &Address,
    current_tick_index: i32,
    tick_spacing: u16,
) -> (result: Result<[(Address, TickArrayFacade); 5], FetchError<E>>) where
    F: FnOnce([Address; 5]) -> Result<[Option<Vec<u8>>; 5], E>,

    requires
        tick_spacing > 0,
        swap_range_fits(current_tick_index as int, tick_spacing as int),
        forall|addresses: [Address; 5]| call_requires(fetch, (addresses,)),
    ensures
        !swap_addresses_exist(whirlpool@, current_tick_index as int, tick_spacing as int)
            ==> result == Err::<[(Address, TickArrayFacade); 5], FetchError<E>>(
            FetchError::Derivation(DerivationError::ExhaustedSeeds),
        ),
        swap_addresses_exist(whirlpool@, current_tick_index as int, tick_spacing as int)
            ==> exists|
            indices: [i32; 5],
            addresses: [Address; 5],
            reply: Result<[Option<Vec<u8>>; 5], E>,
        |
            {
                &&& swap_indices_are(current_tick_index as int, tick_spacing as int, indices)
                &&& swap_addresses_are(
                    whirlpool@,
                    current_tick_index as int,
                    tick_spacing as int,
                    addresses,
                )
                &&& call_ensures(fetch, (addresses,), reply)
                &&& #[trigger] fetched_result_is(indices, addresses, reply, result)
            },
{
    let indices: [i32; 5] = swap_array_start_indices(current_tick_index, tick_spacing);
    let addresses: [Address; 5] = match swap_tick_array_addresses(
        whirlpool,
        current_tick_index,
        tick_spacing,
    ) {
        Ok(addresses) => addresses,
        Err(error) => {
            return Err(FetchError::Derivation(error));
        },
    };
    proof {
        assert forall|slot: int| 0 <= slot < SWAP_TICK_ARRAYS implies (#[trigger] tick_array_pda(
            whirlpool@,
            swap_start_index(current_tick_index as int, tick_spacing as int, slot),
        )) is Some by {
            assert(slot_address_is(
                whirlpool@,
                current_tick_index as int,
                tick_spacing as int,
                slot,
                addresses[slot],
            ));
        }
    }
    let reply = fetch(addresses);
    finish_fetch(&indices, &addresses, reply)
}

} // verus!
