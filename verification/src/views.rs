//! Rendering of values as text.

pub mod decimal;
pub mod html;
pub mod order;
pub mod persons;
