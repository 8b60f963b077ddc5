//! Cell models of simple and extensible user-defined tokens on CKB, and the
//! verified rules of the simple UDT type script.
pub mod cell_message;
pub mod cells;
pub mod sudt;
