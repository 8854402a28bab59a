//! The similarity engine and the numbers it works with.

pub mod proportion;
pub mod similarity;
pub mod weights;
