pub mod fee;
pub mod strategies;
