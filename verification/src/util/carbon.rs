pub mod msg;
pub mod parser;
pub mod query;
pub mod tx;
