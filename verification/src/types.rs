//! Ticks and tick arrays, as stored on chain and as handed to callers.

use vstd::prelude::*;
use vstd::std_specs::convert::FromSpecImpl;

use crate::utils::constants::{NUM_REWARDS, TICK_ARRAY_SIZE};

verus! {

/// Address of an account: thirty-two opaque bytes.
#[derive(Clone, Copy, Debug, PartialEq, Eq, Hash)]
pub struct Address {
    pub bytes: [u8; 32],
}

/// One tick as the tick-array account stores it.
#[derive(Clone, Copy, Debug, PartialEq, Eq)]
pub struct Tick {
    pub initialized: bool,
    pub liquidity_net: i128,
    pub liquidity_gross: u128,
    pub fee_growth_outside_a: u128,
    pub fee_growth_outside_b: u128,
    pub reward_growths_outside: [u128; NUM_REWARDS],
}

/// One tick as computations use it.
#[derive(Clone, Copy, Debug, PartialEq, Eq)]
pub struct TickFacade {
    pub initialized: bool,
    pub liquidity_net: i128,
    pub liquidity_gross: u128,
    pub fee_growth_outside_a: u128,
    pub fee_growth_outside_b: u128,
    pub reward_growths_outside: [u128; 3],
}

/// The tick that nothing has touched yet: not initialized, every amount
/// zero.
pub open spec fn empty_tick() -> TickFacade {
    TickFacade {
        initialized: false,
        liquidity_net: 0,
        liquidity_gross: 0,
        fee_growth_outside_a: 0,
        fee_growth_outside_b: 0,
        reward_growths_outside: [0u128, 0u128, 0u128],
    }
}

impl Default for TickFacade {
    fn default() -> (tick: Self)
        ensures
            tick == empty_tick(),
    {
        TickFacade {
            initialized: false,
            liquidity_net: 0,
            liquidity_gross: 0,
            fee_growth_outside_a: 0,
            fee_growth_outside_b: 0,
            reward_growths_outside: [0u128, 0u128, 0u128],
        }
    }
}

/// A tick array as the tick-array account stores it.
#[derive(Clone, Copy, Debug, PartialEq, Eq)]
pub struct TickArray {
    pub start_tick_index: i32,
    pub ticks: [Tick; TICK_ARRAY_SIZE],
    pub whirlpool: Address,
}

/// A tick array as computations use it.
#[derive(Clone, Copy, Debug, PartialEq, Eq)]
pub struct TickArrayFacade {
    pub start_tick_index: i32,
    pub ticks: [TickFacade; TICK_ARRAY_SIZE],
}

/// What a stored tick array holds.
pub struct TickArrayView {
    pub start_tick_index: i32,
    pub ticks: Seq<Tick>,
    pub whirlpool: Seq<u8>,
}

/// What a tick array holds.
pub struct TickArrayFacadeView {
    pub start_tick_index: i32,
    pub ticks: Seq<TickFacade>,
}

impl View for Address {
    type V = Seq<u8>;

    open spec fn view(&self) -> Seq<u8> {
        self.bytes@
    }
}

impl View for TickArray {
    type V = TickArrayView;

    open spec fn view(&self) -> TickArrayView {
        TickArrayView {
            start_tick_index: self.start_tick_index,
            ticks: self.ticks@,
            whirlpool: self.whirlpool@,
        }
    }
}

impl View for TickArrayFacade {
    type V = TickArrayFacadeView;

    open spec fn view(&self) -> TickArrayFacadeView {
        TickArrayFacadeView { start_tick_index: self.start_tick_index, ticks: self.ticks@ }
    }
}

impl Default for Tick {
    fn default() -> (tick: Self)
        ensures
            facade_of(tick) == empty_tick(),
    {
        Tick {
            initialized: false,
            liquidity_net: 0,
            liquidity_gross: 0,
            fee_growth_outside_a: 0,
            fee_growth_outside_b: 0,
            reward_growths_outside: [0u128, 0u128, 0u128],
        }
    }
}

/// The tick that computations use in place of a stored one: every field is
/// kept.
pub open spec fn facade_of(tick: Tick) -> TickFacade {
    TickFacade {
        initialized: tick.initialized,
        liquidity_net: tick.liquidity_net,
        liquidity_gross: tick.liquidity_gross,
        fee_growth_outside_a: tick.fee_growth_outside_a,
        fee_growth_outside_b: tick.fee_growth_outside_b,
        reward_growths_outside: tick.reward_growths_outside,
    }
}

impl FromSpecImpl<Tick> for TickFacade {
    open spec fn obeys_from_spec() -> bool {
        true
    }

    open spec fn from_spec(tick: Tick) -> Self {
        facade_of(tick)
    }
}

impl From<Tick> for TickFacade {
    fn from(tick: Tick) -> (facade: Self) {
        TickFacade {
            initialized: tick.initialized,
            liquidity_net: tick.liquidity_net,
            liquidity_gross: tick.liquidity_gross,
            fee_growth_outside_a: tick.fee_growth_outside_a,
            fee_growth_outside_b: tick.fee_growth_outside_b,
            reward_growths_outside: tick.reward_growths_outside,
        }
    }
}

/// What is left of a stored tick array when computations take it over:
/// every tick is kept, field by field, and the address of the pool is
/// dropped.
pub open spec fn facade_view(stored: TickArrayView) -> TickArrayFacadeView {
    TickArrayFacadeView {
        start_tick_index: stored.start_tick_index,
        ticks: Seq::new(stored.ticks.len(), |position: int| facade_of(stored.ticks[position])),
    }
}

/// Two tick arrays that hold the same are equal.
pub proof fn lemma_facade_view_decides(first: TickArrayFacade, second: TickArrayFacade)
    requires
        first@ == second@,
    ensures
        first == second,
{
    assert(first.ticks =~= second.ticks);
}

/// The tick array that computations use in place of a stored one: the one
/// that holds `facade_view` of it.
pub open spec fn tick_array_facade(tick_array: TickArray) -> TickArrayFacade {
    choose|facade: TickArrayFacade| facade@ == facade_view(tick_array@)
}

impl FromSpecImpl<TickArray> for TickArrayFacade {
    open spec fn obeys_from_spec() -> bool {
        true
    }

    open spec fn from_spec(tick_array: TickArray) -> Self {
        tick_array_facade(tick_array)
    }
}

impl From<TickArray> for TickArrayFacade {
    fn from(tick_array: TickArray) -> (facade: Self)
        ensures
            facade@ == facade_view(tick_array@),
    {
        let mut ticks: [TickFacade; TICK_ARRAY_SIZE] = [TickFacade::default(); TICK_ARRAY_SIZE];
        let mut position: usize = 0;
        while position < TICK_ARRAY_SIZE
            invariant
                position <= TICK_ARRAY_SIZE,
                forall|earlier: int|
                    0 <= earlier < position ==> #[trigger] ticks[earlier] == facade_of(
                        tick_array.ticks[earlier],
                    ),
            decreases TICK_ARRAY_SIZE - position,
        {
            ticks[position] = TickFacade::from(tick_array.ticks[position]);
            position = position + 1;
        }
        let facade = TickArrayFacade { start_tick_index: tick_array.start_tick_index, ticks };
        proof {
            assert(facade@.ticks =~= facade_view(tick_array@).ticks);
            lemma_facade_view_decides(facade, tick_array_facade(tick_array));
        }
        facade
    }
}

} // verus!
