//! Stand-ins for the capabilities of a live chain, for use in contract tests.
pub mod mock;
pub mod padding;
pub mod querier;
pub mod storage;

pub use mock::{
    mock_dependencies, mock_dependencies_with_balances, mock_env, MockApi, MOCK_CONTRACT_ADDR,
};
pub use querier::MockQuerier;
pub use storage::MockStorage;
