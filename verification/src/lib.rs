//! Tick-array lookups for Orca Whirlpool pools: the start indices of the
//! tick arrays around a tick, the addresses at which the chain stores
//! them, and the decoding of pool and tick-array accounts.

pub mod decimal;
pub mod encoding;
pub mod error;
pub mod layout;
pub mod le_bytes;
pub mod pda;
pub mod tick_array;
pub mod tick_index;
pub mod types;
pub mod utils;
pub mod whirlpool;

pub use error::{DecodeError, DerivationError, FetchError};
pub use layout::decode_tick_array;
pub use pda::derive_tick_array_pda;
pub use tick_array::{
    get_tick_array_start_tick_index, get_tick_arrays_for_swap, uninitialized_tick_array,
};
pub use tick_index::swap_array_start_indices;
pub use types::{Address, Tick, TickArray, TickArrayFacade, TickFacade};
pub use whirlpool::{parse_whirlpool, try_parse_whirlpool, WhirlpoolCore};
