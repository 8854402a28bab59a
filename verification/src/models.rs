//! The records that are compared.

pub mod person;
