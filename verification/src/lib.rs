//! Storage gas metering and change-set validation.
//!
//! The crate prices a transaction's reads and writes of ledger state and holds
//! the change set it produced to hard size limits. Every result is a function
//! of the arguments alone, so that all nodes agree on it.
pub mod bencher;
pub mod change_set;
pub mod gas_algebra;
pub mod gas_params;
pub mod limits;
pub mod pricing;
pub mod role;
pub mod storage_gas;
pub mod waypoint;
pub mod write_op;
