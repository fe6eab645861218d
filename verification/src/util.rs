pub mod carbon;
pub mod cosmos;
pub mod datetime;
pub mod evm;
