use std::cell::Cell;
use std::str::FromStr;

use orca_rust_tick_maths::tick_array::{
    classify_slot, finish_fetch, resolve_tick_arrays, swap_tick_array_addresses, SlotOutcome,
};
use orca_rust_tick_maths::{
    derive_tick_array_pda, get_tick_arrays_for_swap, parse_whirlpool, swap_array_start_indices,
    uninitialized_tick_array, Address, DecodeError, FetchError, TickArrayFacade, TickFacade,
};
use solana_sdk::pubkey::Pubkey;

type StoredTick = (bool, i128, u128, u128, u128, [u128; 3]);

const POOL: &str = "8erNF5u3CHrqZJXtkfY8CjSxFYF1yqHmN8uDbAhk6tWM";

fn pool_address() -> Address {
    Address { bytes: Pubkey::from_str(POOL).unwrap().to_bytes() }
}

fn sample_facade(start_tick_index: i32) -> TickArrayFacade {
    let mut tick_array = uninitialized_tick_array(start_tick_index);
    for (position, tick) in tick_array.ticks.iter_mut().enumerate() {
        let n: u128 = position as u128 + 2;
        *tick = TickFacade {
            initialized: position % 2 == 1,
            liquidity_net: start_tick_index as i128 - n as i128,
            liquidity_gross: n * n,
            fee_growth_outside_a: n << 64,
            fee_growth_outside_b: u128::MAX - n,
            reward_growths_outside: [n, n + 1, n + 2],
        };
    }
    tick_array
}

fn account_of(tick_array: &TickArrayFacade, whirlpool: &Address) -> Vec<u8> {
    let ticks: [StoredTick; 88] = tick_array.ticks.map(|tick| {
        (
            tick.initialized,
            tick.liquidity_net,
            tick.liquidity_gross,
            tick.fee_growth_outside_a,
            tick.fee_growth_outside_b,
            tick.reward_growths_outside,
        )
    });
    let mut data: Vec<u8> = vec![69, 97, 189, 190, 110, 7, 66, 187];
    data.extend(borsh::to_vec(&(tick_array.start_tick_index, ticks, whirlpool.bytes)).unwrap());
    data
}

fn full_accounts(indices: &[i32; 5]) -> [Option<Vec<u8>>; 5] {
    indices.map(|index| Some(account_of(&sample_facade(index), &pool_address())))
}

fn pool_account(tick_spacing: u16, tick_current_index: i32) -> Vec<u8> {
    let mut data = vec![0u8; 653];
    data[41..43].copy_from_slice(&tick_spacing.to_le_bytes());
    data[81..85].copy_from_slice(&tick_current_index.to_le_bytes());
    data
}

#[test]
fn test_whirlpool_tick_array_fetching() {
    let whirlpool_id = pool_address();
    let account = pool_account(4, -17_325);
    let whirlpool = parse_whirlpool(&account);

    assert!(whirlpool.tick_spacing > 0, "Tick spacing should be positive");
    assert!(
        whirlpool.tick_current_index.abs() < 1_000_000,
        "Current tick index should be within reasonable bounds"
    );

    let indices = swap_array_start_indices(whirlpool.tick_current_index, whirlpool.tick_spacing);
    let tick_arrays = get_tick_arrays_for_swap(
        |_addresses: [Address; 5]| Ok::<_, String>(full_accounts(&indices)),
        &whirlpool_id,
        whirlpool.tick_current_index,
        whirlpool.tick_spacing,
    )
    .unwrap();

    assert_eq!(tick_arrays.len(), 5, "Should fetch exactly 5 tick arrays");
    for (pubkey, _) in &tick_arrays {
        assert_ne!(
            Pubkey::new_from_array(pubkey.bytes),
            Pubkey::default(),
            "Tick array pubkey should not be default"
        );
    }
}

#[test]
fn every_slot_gets_its_address_and_its_decoded_tick_array() {
    let whirlpool = pool_address();
    let indices = swap_array_start_indices(100, 64);
    let pairs = get_tick_arrays_for_swap(
        |_addresses: [Address; 5]| Ok::<_, String>(full_accounts(&indices)),
        &whirlpool,
        100,
        64,
    )
    .unwrap();
    for slot in 0..5 {
        let (address, _) = derive_tick_array_pda(&whirlpool, indices[slot]).unwrap();
        assert_eq!(pairs[slot].0, address);
        assert_eq!(pairs[slot].1, sample_facade(indices[slot]));
    }
}

#[test]
fn the_fetch_is_asked_once_for_the_five_addresses_in_order() {
    let whirlpool = pool_address();
    let calls: Cell<usize> = Cell::new(0);
    let asked: Cell<[Address; 5]> = Cell::new([Address { bytes: [0u8; 32] }; 5]);
    let result = get_tick_arrays_for_swap(
        |addresses: [Address; 5]| {
            calls.set(calls.get() + 1);
            asked.set(addresses);
            Ok::<_, String>([None, None, None, None, None])
        },
        &whirlpool,
        100,
        64,
    );
    assert!(result.is_ok());
    assert_eq!(calls.get(), 1);
    let expected = [0, 5632, 11264, -5632, -11264]
        .map(|index| derive_tick_array_pda(&whirlpool, index).unwrap().0);
    assert_eq!(asked.get(), expected);
    assert_eq!(swap_tick_array_addresses(&whirlpool, 100, 64), Ok(expected));
}

#[test]
fn a_missing_account_becomes_an_uninitialized_tick_array() {
    let whirlpool = pool_address();
    let indices = swap_array_start_indices(100, 64);
    let mut accounts = full_accounts(&indices);
    accounts[3] = None;
    let pairs = get_tick_arrays_for_swap(
        |_addresses: [Address; 5]| Ok::<_, String>(accounts),
        &whirlpool,
        100,
        64,
    )
    .unwrap();
    assert_eq!(pairs[3].1.start_tick_index, -5632);
    for tick in pairs[3].1.ticks {
        assert_eq!(tick, TickFacade::default());
        assert!(!tick.initialized);
    }
    assert_eq!(pairs[3].1, uninitialized_tick_array(-5632));
    for slot in [0usize, 1, 2, 4] {
        assert_eq!(pairs[slot].1, sample_facade(indices[slot]));
    }
}

#[test]
fn an_account_that_is_too_short_becomes_an_uninitialized_tick_array() {
    let whirlpool = pool_address();
    let indices = swap_array_start_indices(100, 64);
    let mut accounts = full_accounts(&indices);
    accounts[1] = Some(vec![1, 2, 3]);
    let pairs = get_tick_arrays_for_swap(
        |_addresses: [Address; 5]| Ok::<_, String>(accounts),
        &whirlpool,
        100,
        64,
    )
    .unwrap();
    assert_eq!(pairs[1].1, uninitialized_tick_array(5632));
    for slot in [0usize, 2, 3, 4] {
        assert_eq!(pairs[slot].1, sample_facade(indices[slot]));
    }
}

#[test]
fn corrupt_and_missing_accounts_get_the_same_placeholder() {
    let indices = swap_array_start_indices(-1, 1);
    let addresses = [Address { bytes: [3u8; 32] }; 5];
    let good = account_of(&sample_facade(88), &pool_address());
    let mut bad_flag = good.clone();
    bad_flag[12 + 113 * 40] = 2;
    let mut too_long = good.clone();
    too_long.push(0);
    let accounts = [None, Some(Vec::new()), Some(good[..9987].to_vec()), Some(bad_flag), Some(too_long)];
    let pairs = resolve_tick_arrays(&indices, &addresses, &accounts);
    for slot in 0..5 {
        assert_eq!(pairs[slot].0, addresses[slot]);
        assert_eq!(pairs[slot].1, uninitialized_tick_array(indices[slot]));
    }
    assert_eq!(pairs[0].1.start_tick_index, -88);
    assert_eq!(pairs[4].1.start_tick_index, -264);
}

#[test]
fn a_decoded_tick_array_keeps_its_own_start_index() {
    let indices = [0, 5632, 11264, -5632, -11264];
    let addresses = [Address { bytes: [3u8; 32] }; 5];
    let stray = sample_facade(777);
    let accounts = [Some(account_of(&stray, &pool_address())), None, None, None, None];
    let pairs = resolve_tick_arrays(&indices, &addresses, &accounts);
    assert_eq!(pairs[0].1, stray);
    assert_eq!(pairs[0].1.start_tick_index, 777);
}

#[test]
fn a_failed_fetch_is_handed_on() {
    let whirlpool = pool_address();
    let result = get_tick_arrays_for_swap(
        |_addresses: [Address; 5]| Err(String::from("connection refused")),
        &whirlpool,
        100,
        64,
    );
    assert_eq!(result, Err(FetchError::Transport(String::from("connection refused"))));
}

#[test]
fn finishing_a_failed_fetch_gives_the_transport_error() {
    let indices = [0, 5632, 11264, -5632, -11264];
    let addresses = [Address { bytes: [3u8; 32] }; 5];
    let result = finish_fetch(&indices, &addresses, Err(42u8));
    assert_eq!(result, Err(FetchError::Transport(42u8)));
    let result = finish_fetch::<u8>(&indices, &addresses, Ok([None, None, None, None, None]));
    assert_eq!(result, Ok(indices.map(|index| (addresses[0], uninitialized_tick_array(index)))));
}

#[test]
fn slots_are_classified() {
    let whirlpool = pool_address();
    let tick_array = sample_facade(-5632);
    let data = account_of(&tick_array, &whirlpool);
    assert_eq!(classify_slot(&None), SlotOutcome::Missing);
    assert_eq!(classify_slot(&Some(data.clone())), SlotOutcome::Decoded(tick_array));
    assert_eq!(
        classify_slot(&Some(data[..500].to_vec())),
        SlotOutcome::Malformed(DecodeError::TooShort)
    );
    let mut longer = data.clone();
    longer.push(9);
    assert_eq!(classify_slot(&Some(longer)), SlotOutcome::Malformed(DecodeError::TrailingBytes));
    let mut broken = data;
    broken[12] = 17;
    assert_eq!(classify_slot(&Some(broken)), SlotOutcome::Malformed(DecodeError::InvalidBool));
}

#[test]
fn outcomes_resolve_to_the_decoded_array_or_the_placeholder() {
    let tick_array = sample_facade(-5632);
    assert_eq!(SlotOutcome::Decoded(tick_array).resolve(11264), tick_array);
    assert_eq!(SlotOutcome::Missing.resolve(11264), uninitialized_tick_array(11264));
    assert_eq!(
        SlotOutcome::Malformed(DecodeError::InvalidBool).resolve(-88),
        uninitialized_tick_array(-88)
    );
}

#[test]
fn the_uninitialized_tick_array_holds_88_empty_ticks() {
    let tick_array = uninitialized_tick_array(-11264);
    assert_eq!(tick_array.start_tick_index, -11264);
    assert_eq!(tick_array.ticks.len(), 88);
    for tick in tick_array.ticks {
        assert_eq!(
            tick,
            TickFacade {
                initialized: false,
                liquidity_net: 0,
                liquidity_gross: 0,
                fee_growth_outside_a: 0,
                fee_growth_outside_b: 0,
                reward_growths_outside: [0, 0, 0],
            }
        );
    }
}
