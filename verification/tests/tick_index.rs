use orca_rust_tick_maths::tick_index::swap_range_is_supported;
use orca_rust_tick_maths::{get_tick_array_start_tick_index, swap_array_start_indices};

#[test]
fn start_index_of_minus_one_rounds_down() {
    assert_eq!(get_tick_array_start_tick_index(-1, 1), -88);
}

#[test]
fn start_index_of_zero_is_zero() {
    assert_eq!(get_tick_array_start_tick_index(0, 1), 0);
    assert_eq!(get_tick_array_start_tick_index(0, 64), 0);
    assert_eq!(get_tick_array_start_tick_index(0, u16::MAX), 0);
}

#[test]
fn start_index_at_array_borders() {
    assert_eq!(get_tick_array_start_tick_index(87, 1), 0);
    assert_eq!(get_tick_array_start_tick_index(88, 1), 88);
    assert_eq!(get_tick_array_start_tick_index(-88, 1), -88);
    assert_eq!(get_tick_array_start_tick_index(-89, 1), -176);
    assert_eq!(get_tick_array_start_tick_index(5631, 64), 0);
    assert_eq!(get_tick_array_start_tick_index(5632, 64), 5632);
    assert_eq!(get_tick_array_start_tick_index(-5632, 64), -5632);
    assert_eq!(get_tick_array_start_tick_index(-5633, 64), -11264);
}

#[test]
fn start_index_matches_euclidean_division() {
    let spacings: [u16; 6] = [1, 2, 8, 64, 128, 32896];
    let ticks: [i32; 9] = [-443636, -100000, -5633, -65, -1, 0, 63, 100, 443636];
    for spacing in spacings {
        for tick in ticks {
            let expected: i32 = tick.div_euclid(spacing as i32).div_euclid(88) * spacing as i32 * 88;
            assert_eq!(get_tick_array_start_tick_index(tick, spacing), expected);
        }
    }
}

#[test]
fn start_index_is_an_aligned_lower_bound() {
    let spacings: [u16; 5] = [1, 3, 64, 1000, u16::MAX];
    let ticks: [i32; 8] = [-2_000_000_000, -443636, -89, -1, 0, 87, 443636, i32::MAX];
    for spacing in spacings {
        let span: i64 = spacing as i64 * 88;
        for tick in ticks {
            let start: i64 = get_tick_array_start_tick_index(tick, spacing) as i64;
            assert_eq!(start.rem_euclid(span), 0);
            assert!(start <= tick as i64);
            assert!((tick as i64) < start + span);
        }
    }
}

#[test]
fn start_index_never_decreases() {
    let mut previous: i32 = get_tick_array_start_tick_index(-1000, 3);
    for tick in -999..1000 {
        let start: i32 = get_tick_array_start_tick_index(tick, 3);
        assert!(previous <= start);
        previous = start;
    }
}

#[test]
fn start_index_at_the_largest_tick() {
    assert_eq!(get_tick_array_start_tick_index(i32::MAX, 1), 2147483624);
    assert_eq!(get_tick_array_start_tick_index(i32::MAX, u16::MAX), 2145353760);
}

#[test]
fn swap_indices_of_spacing_64_at_tick_100() {
    assert_eq!(swap_array_start_indices(100, 64), [0, 5632, 11264, -5632, -11264]);
}

#[test]
fn swap_indices_at_the_ends_of_the_supported_range() {
    assert_eq!(
        swap_array_start_indices(2147483535, 1),
        [2147483448, 2147483536, 2147483624, 2147483360, 2147483272]
    );
    assert_eq!(
        swap_array_start_indices(-2147483448, 1),
        [-2147483448, -2147483360, -2147483272, -2147483536, -2147483624]
    );
}

#[test]
fn swap_indices_below_zero() {
    assert_eq!(swap_array_start_indices(-1, 1), [-88, 0, 88, -176, -264]);
}

#[test]
fn swap_indices_are_five_different_values_in_order() {
    let spacings: [u16; 4] = [1, 8, 64, 256];
    let ticks: [i32; 5] = [-443636, -1, 0, 100, 443636];
    for spacing in spacings {
        let step: i32 = spacing as i32 * 88;
        for tick in ticks {
            let base: i32 = get_tick_array_start_tick_index(tick, spacing);
            let indices: [i32; 5] = swap_array_start_indices(tick, spacing);
            assert_eq!(indices, [base, base + step, base + 2 * step, base - step, base - 2 * step]);
            for i in 0..5 {
                for j in (i + 1)..5 {
                    assert_ne!(indices[i], indices[j]);
                }
            }
        }
    }
}

#[test]
fn supported_range_excludes_zero_spacing() {
    assert!(!swap_range_is_supported(100, 0));
    assert!(swap_range_is_supported(100, 64));
    assert!(swap_range_is_supported(-443636, 1));
    assert!(swap_range_is_supported(443636, u16::MAX));
}

#[test]
fn supported_range_ends_where_an_index_leaves_i32() {
    assert!(!swap_range_is_supported(i32::MAX, 1));
    assert!(!swap_range_is_supported(i32::MIN, 1));
    assert!(!swap_range_is_supported(i32::MIN, u16::MAX));
    assert!(!swap_range_is_supported(i32::MAX, u16::MAX));
    assert!(swap_range_is_supported(2147483535, 1));
    assert!(!swap_range_is_supported(2147483536, 1));
    assert!(swap_range_is_supported(-2147483448, 1));
    assert!(!swap_range_is_supported(-2147483449, 1));
}
