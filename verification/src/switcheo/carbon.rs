pub mod bridge;
