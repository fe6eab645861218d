//! Names of the events that the relayer watches.

pub mod events;
