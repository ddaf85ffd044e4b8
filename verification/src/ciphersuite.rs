//! The ciphersuite configuration: a compile-time bundle naming the underlying
//! primitives. Every choice is resolved at build time; nothing dispatches at
//! run time.

use vstd::prelude::*;

verus! {

/// Configures the underlying primitives used by the protocol:
/// * `OprfGroup`: the finite cyclic group the password is hashed into;
/// * `KeGroup`: the group used for the key exchange;
/// * `KeyExchange`: the key-exchange protocol of the login step;
/// * `Hash`: the main hash function, used for HKDF computations, MACs and
///   transcript hashing;
/// * `SlowHash`: the slow hashing function applied to the randomized
///   password.
pub trait CipherSuite {
    /// The finite cyclic group of the OPRF
    type OprfGroup;

    /// The group used for the key exchange
    type KeGroup;

    /// The key-exchange protocol of the login step
    type KeyExchange;

    /// The main hash function
    type Hash;

    /// The slow hashing function for the randomized password
    type SlowHash;
}

/// The ristretto255 group, in which the OPRF runs.
pub struct Ristretto255;

/// The x25519 Montgomery-curve group, in which the key exchange runs.
pub struct X25519;

/// The three-message triple-Diffie-Hellman key exchange.
pub struct TripleDh;

/// The SHA-512 hash function.
pub struct Sha512Hash;

/// The identity slow hash: the randomized password is used as it is.
pub struct NoOpHash;

/// The suite this crate instantiates: ristretto255 for the OPRF, x25519 for
/// the key exchange, triple Diffie-Hellman, SHA-512, and no slow hashing.
pub struct X25519Sha512NoSlowHash;

impl CipherSuite for X25519Sha512NoSlowHash {
    type OprfGroup = Ristretto255;

    type KeGroup = X25519;

    type KeyExchange = TripleDh;

    type Hash = Sha512Hash;

    type SlowHash = NoOpHash;
}

} // verus!
