pub mod carbon;
