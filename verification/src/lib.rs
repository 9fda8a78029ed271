//! Host-side address conversion for a smart-contract execution environment.
//!
//! The [`Api`] capability converts between a human-readable chain address and
//! a fixed-width canonical address. Every call is metered in gas and reports
//! failure as a value. The [`testing`] module holds a deterministic stand-in
//! for a real address codec, together with the fixtures that contract test
//! suites need to run without a live chain.
pub mod addresses;
pub mod coins;
pub mod errors;
pub mod std_specs;
pub mod testing;
pub mod traits;
pub mod types;

pub use addresses::{Binary, CanonicalAddr, HumanAddr};
pub use coins::{coins, Coin};
pub use errors::{FfiError, FfiResult, GasInfo};
pub use traits::{Api, Extern};
pub use types::{BlockInfo, ContractInfo, Env, MessageInfo};
