//! Response hardening for an HTTP service.
//!
//! Two things are decided here and nowhere else in a service: which
//! cross-origin requests it answers, and which protective headers every
//! response carries.
//!
//! - [`policy`] holds the cross-origin policy, checked when it is made.
//! - [`cors`] hands a policy to `tower_http`, which enforces it.
//! - [`headers`] stamps the table of protective headers on a header map.
//! - [`token`] is the byte-level grammar that the others share.

pub mod cors;
pub mod headers;
pub mod policy;
pub mod token;

pub use cors::{cors_layer, cors_layer_for};
pub use headers::{security_headers, try_security_headers};
pub use policy::{AllowedOrigins, ConfigError, CorsPolicy};
