//! The Safari browser in its versions.

pub mod safari18;
