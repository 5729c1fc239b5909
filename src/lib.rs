//! An inventory whose items age by one day per update, each by the rules of
//! the category that its name places it in.

pub mod text;
pub mod item;
pub mod inventory;
pub mod laws;
