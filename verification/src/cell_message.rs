//! Layout descriptions shared by the cell models.
pub mod cell;
