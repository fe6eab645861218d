pub mod broadcaster;
pub mod listener;
