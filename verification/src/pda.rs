//! Addresses of tick-array accounts.

use solana_sdk::pubkey::Pubkey;
use vstd::prelude::*;

use crate::utils::constants::{TICK_ARRAY_SEED, WHIRLPOOL_PROGRAM_ID};
use crate::decimal::{decimal_bytes, decimal_text};
use crate::error::DerivationError;
use crate::types::Address;

verus! {

/// The program-derived address that the chain assigns to a list of seeds
/// under a program, with the bump seed that gives it; `None` where no bump
/// seed gives one.
pub uninterp spec fn program_address(seeds: Seq<Seq<u8>>, program_id: Seq<u8>) -> Option<
    (Seq<u8>, u8),
>;

/// What a derived address and its bump seed hold.
pub open spec fn found_view(found: Option<(Address, u8)>) -> Option<(Seq<u8>, u8)> {
    match found {
        Some((address, bump)) => Some((address@, bump)),
        None => None,
    }
}

/// `Pubkey::try_find_program_address` of solana-pubkey, on three seeds.
/// The search hashes the seeds, a bump seed, the program id and a fixed
/// marker, from bump seed 255 downwards, and stops at the first hash that
/// is no point of the curve. Its outcome depends on the seeds and the
/// program id alone; the contract gives that outcome its name and claims
/// nothing more of it.
#[verifier::external_body]
fn find_program_address(
    first: &[u8],
    second: &[u8],
    third: &[u8],
    program_id: &Address,
) -> (found: Option<(Address, u8)>)
    ensures
        found_view(found) == program_address(seq![first@, second@, third@], program_id@),
{
    let program = Pubkey::new_from_array(program_id.bytes);
    match Pubkey::try_find_program_address(&[first, second, third], &program) {
        Some((address, bump)) => Some((Address { bytes: address.to_bytes() }, bump)),
        None => None,
    }
}

/// The address of the tick array of `whirlpool` that starts at
/// `start_tick_index`, with its bump seed. The seeds are the tag
/// `tick_array`, the address of the pool and the decimal text of the start
/// index; the program is the Whirlpool program.
pub open spec fn tick_array_pda(whirlpool: Seq<u8>, start_tick_index: int) -> Option<
    (Seq<u8>, u8),
> {
    program_address(
        seq![TICK_ARRAY_SEED@, whirlpool, decimal_text(start_tick_index)],
        WHIRLPOOL_PROGRAM_ID@,
    )
}

/// What the derivation returns for each outcome of the search.
pub open spec fn pda_outcome(found: Option<(Seq<u8>, u8)>) -> Result<
    (Seq<u8>, u8),
    DerivationError,
> {
    match found {
        Some(pda) => Ok(pda),
        None => Err(DerivationError::ExhaustedSeeds),
    }
}

/// What a derivation result holds.
pub open spec fn pda_view(result: Result<(Address, u8), DerivationError>) -> Result<
    (Seq<u8>, u8),
    DerivationError,
> {
    match result {
        Ok((address, bump)) => Ok((address@, bump)),
        Err(error) => Err(error),
    }
}

/// Deriving twice from the same pool and start index gives the same
/// address and the same bump seed, or fails both times: any two results
/// that meet the contract of `derive_tick_array_pda` on one input are
/// equal.
pub proof fn lemma_derivation_is_deterministic(
    whirlpool: Address,
    start_tick_index: i32,
    first: Result<(Address, u8), DerivationError>,
    second: Result<(Address, u8), DerivationError>,
)
    requires
        pda_view(first) == pda_outcome(tick_array_pda(whirlpool@, start_tick_index as int)),
        pda_view(second) == pda_outcome(tick_array_pda(whirlpool@, start_tick_index as int)),
    ensures
        first == second,
{
    if first is Ok {
        assert(second is Ok);
        assert(first->Ok_0.0.bytes =~= second->Ok_0.0.bytes);
    }
}

/// Turns the outcome of the search into the result of the derivation: a
/// search that found nothing is an error.
pub fn pda_from_search(found: Option<(Address, u8)>) -> (result: Result<
    (Address, u8),
    DerivationError,
>)
    ensures
        found matches Some(pda) ==> result == Ok::<(Address, u8), DerivationError>(pda),
        found is None ==> result == Err::<(Address, u8), DerivationError>(
            DerivationError::ExhaustedSeeds,
        ),
{
    match found {
        Some(pda) => Ok(pda),
        None => Err(DerivationError::ExhaustedSeeds),
    }
}

/// Derives the address of the tick array of `whirlpool` that starts at
/// `start_tick_index`, and its bump seed.
pub fn derive_tick_array_pda(whirlpool: &Address, start_tick_index: i32) -> (result: Result<
    (Address, u8),
    DerivationError,
>)
    ensures
        pda_view(result) == pda_outcome(tick_array_pda(whirlpool@, start_tick_index as int)),
{
    let index_text: Vec<u8> = decimal_bytes(start_tick_index);
    let seed: [u8; 10] = TICK_ARRAY_SEED;
    let program_id = Address { bytes: WHIRLPOOL_PROGRAM_ID };
    let found = find_program_address(
        seed.as_slice(),
        whirlpool.bytes.as_slice(),
        index_text.as_slice(),
        &program_id,
    );
    pda_from_search(found)
}

} // verus!
