//! Cell models of the token contracts.
pub mod sudt_data;
pub mod xudt_data;
