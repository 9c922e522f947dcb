//! The Chrome browser in its versions.

pub mod v104;
