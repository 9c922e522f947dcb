//! TLS knobs of a profile and what they mean for a handshake.

pub mod connector;
pub mod extension;
pub mod identity;
pub mod impersonate;
pub mod layer;
pub mod settings;
