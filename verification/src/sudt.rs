//! The rules of the simple UDT (sUDT) type script, as functions of the values
//! that the script loads from the transaction.
pub mod amount;
pub mod error;
pub mod laws;
pub mod script;
