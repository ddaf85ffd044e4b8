//! An asymmetric password-authenticated key exchange.
//!
//! A client holding only a password and a server holding a credential store
//! run a registration exchange and a three-message login exchange, at the end
//! of which both sides share a high-entropy session key and the client holds
//! an export key, without the password ever leaving the client.

pub mod ciphersuite;
pub mod envelope;
pub mod errors;
pub mod messages;
pub mod opaque;
pub mod oprf;
pub mod primitives;
