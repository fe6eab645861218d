pub mod broadcaster;
pub mod listener;
pub mod retry;
