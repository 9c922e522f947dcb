//! A programmable HTTP client core whose connections reproduce the wire-level
//! fingerprint of a chosen browser build.
//!
//! The crate holds the request execution engine as verified decision logic:
//! header preparation, redirect and retry control, timeout selection, cookie
//! attachment, content-encoding negotiation, connection planning and the
//! derivation of a new client state from an update. Transport work (sockets,
//! TLS handshakes, HTTP framing) is performed by the caller, which feeds the
//! outcome of each exchange back into the engine.

pub mod body;
pub mod client;
pub mod connect;
pub mod cookie;
pub mod decoder;
pub mod emulation;
pub mod error;
pub mod header;
pub mod http1;
pub mod http2;
pub mod method;
pub mod net;
pub mod order;
pub mod pool;
pub mod proxy;
pub mod redirect;
pub mod retry;
pub mod scheme;
pub mod status;
pub mod text;
pub mod timeout;
pub mod tls;
pub mod tunnel;
pub mod url;
pub mod verbose;
pub mod websocket;
