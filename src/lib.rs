//! Serve HTTP/1 and HTTP/2 on one listening point: sniff the first bytes of
//! a connection, classify its protocol generation, and hand the bytes already
//! read back to the engine that speaks it.

pub mod builder;
pub mod conn;
pub mod detect;
pub mod rewind;
pub mod version;

pub use builder::{Builder, Http1Builder, Http1Config, Http2Builder, Http2Config};
pub use conn::{Connection, Phase, Step, UpgradeableConnection};
pub use detect::ReadVersion;
pub use rewind::Rewind;
pub use version::{Unsupported, Version, Versions};
