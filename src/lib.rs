//! A single administrator-driven staking pool: a pool is created OPEN, locked
//! after one day, closed after twenty-one more, and may then be replaced by a
//! new one. Only the owner recorded at initialization may drive it.

pub mod contract;
pub mod error;
pub mod lifecycle;
pub mod msg;
pub mod state;
