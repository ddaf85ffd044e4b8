//! The cryptographic primitives of the configured suite, behind trusted
//! wrappers: SHA-512, HMAC-SHA-512, HKDF-SHA-512, the ristretto255 group used
//! for the OPRF, and the x25519 group used for the key exchange.
//!
//! Group elements and scalars are carried everywhere as their canonical
//! 32-byte encodings; every wrapper takes and returns plain byte vectors.

use crate::errors::InternalError;
use curve25519_dalek::constants::X25519_BASEPOINT;
use curve25519_dalek::montgomery::MontgomeryPoint;
use curve25519_dalek::ristretto::CompressedRistretto;
use curve25519_dalek::ristretto::RistrettoPoint;
use curve25519_dalek::scalar::Scalar;
use hkdf::Hkdf;
use hmac::Hmac;
use hmac::Mac;
use hmac::NewMac;
use rand::RngCore;
use sha2::Digest;
use sha2::Sha512;
use subtle::ConstantTimeEq;
use vstd::prelude::*;

verus! {

/// True when every byte of `s` is zero. All-zero is the canonical encoding of
/// the identity element of both groups and of the zero scalar.
pub open spec fn is_zero_bytes(s: Seq<u8>) -> bool {
    forall|i: int| 0 <= i < s.len() ==> s[i] == 0u8
}

/// The SHA-512 digest of a message.
pub uninterp spec fn sha512_of(m: Seq<u8>) -> Seq<u8>;

/// The HMAC-SHA-512 tag of a message under a key.
pub uninterp spec fn hmac_sha512_of(key: Seq<u8>, m: Seq<u8>) -> Seq<u8>;

/// The first `n` bytes of the HKDF-SHA-512 output for the given salt, input
/// key material and info label.
pub uninterp spec fn hkdf_sha512_of(salt: Seq<u8>, ikm: Seq<u8>, info: Seq<u8>, n: nat) -> Seq<u8>;

/// The ristretto255 element obtained by hashing 64 uniform bytes to the group.
pub uninterp spec fn ristretto_from_uniform_of(b: Seq<u8>) -> Seq<u8>;

/// Whether 32 bytes are the canonical encoding of a ristretto255 element.
pub uninterp spec fn ristretto_valid(p: Seq<u8>) -> bool;

/// The canonical encoding of a ristretto255 element raised to a scalar.
pub uninterp spec fn ristretto_mul_of(p: Seq<u8>, k: Seq<u8>) -> Seq<u8>;

/// Whether 32 bytes are the canonical (fully reduced) encoding of a scalar.
pub uninterp spec fn scalar_canonical(k: Seq<u8>) -> bool;

/// The canonical encoding of a 64-byte value reduced modulo the group order.
pub uninterp spec fn scalar_reduce_of(b: Seq<u8>) -> Seq<u8>;

/// The canonical encoding of the multiplicative inverse of a scalar.
pub uninterp spec fn scalar_invert_of(k: Seq<u8>) -> Seq<u8>;

/// The x25519 public key for a secret scalar: the basepoint raised to it.
pub uninterp spec fn x25519_base_of(sk: Seq<u8>) -> Seq<u8>;

/// The x25519 shared value for a secret scalar and a peer public key.
pub uninterp spec fn x25519_dh_of(sk: Seq<u8>, pk: Seq<u8>) -> Seq<u8>;

/// Relies on `rand::rngs::OsRng::fill_bytes`: fills the buffer from the
/// operating system's secure random source. Nothing is claimed of the values.
#[verifier::external_body]
pub(crate) fn random_bytes(n: usize) -> (r: Vec<u8>)
    ensures
        r@.len() == n,
{
    let mut buf = vec![0u8; n];
    rand::rngs::OsRng.fill_bytes(&mut buf);
    buf
}

/// Relies on `curve25519_dalek::scalar::Scalar::from_bytes_mod_order_wide`
/// and `Scalar::to_bytes`: reduces 64 bytes modulo the group order and
/// returns the canonical 32-byte encoding of the result.
#[verifier::external_body]
pub(crate) fn scalar_reduce_wide(b: &Vec<u8>) -> (r: Vec<u8>)
    requires
        b@.len() == 64,
    ensures
        r@.len() == 32,
        r@ == scalar_reduce_of(b@),
        scalar_canonical(r@),
{
    let mut wide = [0u8; 64];
    wide.copy_from_slice(b.as_slice());
    Scalar::from_bytes_mod_order_wide(&wide).to_bytes().to_vec()
}

/// Relies on `curve25519_dalek::scalar::Scalar::invert`: returns the
/// multiplicative inverse of a nonzero scalar modulo the prime group order.
/// Because ristretto255 is a group of that prime order, raising an element
/// first to `k` and then to its inverse gives the element back, and scalar
/// exponentiations commute; the last two clauses state those two group laws
/// for the inverse returned here.
#[verifier::external_body]
pub(crate) fn scalar_invert(k: &Vec<u8>) -> (r: Vec<u8>)
    requires
        k@.len() == 32,
        scalar_canonical(k@),
        !is_zero_bytes(k@),
    ensures
        r@.len() == 32,
        r@ == scalar_invert_of(k@),
        forall|p: Seq<u8>|
            ristretto_valid(p) ==> (#[trigger] ristretto_mul_of(ristretto_mul_of(p, k@), r@))
                == p,
        forall|p: Seq<u8>, a: Seq<u8>|
            ristretto_valid(p) ==> (#[trigger] ristretto_mul_of(
                ristretto_mul_of(ristretto_mul_of(p, k@), a),
                r@,
            )) == ristretto_mul_of(p, a),
{
    let mut arr = [0u8; 32];
    arr.copy_from_slice(k.as_slice());
    Scalar::from_bytes_mod_order(arr).invert().to_bytes().to_vec()
}

/// Relies on `curve25519_dalek::ristretto::RistrettoPoint::from_uniform_bytes`
/// and `compress`: hashes 64 uniform bytes to a group element and returns its
/// canonical encoding, which always decodes again.
#[verifier::external_body]
pub(crate) fn ristretto_hash_from_wide(b: &Vec<u8>) -> (r: Vec<u8>)
    requires
        b@.len() == 64,
    ensures
        r@.len() == 32,
        r@ == ristretto_from_uniform_of(b@),
        ristretto_valid(r@),
{
    let mut wide = [0u8; 64];
    wide.copy_from_slice(b.as_slice());
    RistrettoPoint::from_uniform_bytes(&wide).compress().to_bytes().to_vec()
}

/// Relies on `curve25519_dalek::ristretto::CompressedRistretto::decompress`,
/// scalar multiplication of `RistrettoPoint`, and `compress`. Decoding fails
/// exactly on non-canonical encodings; the product of a valid element and a
/// scalar is again a valid element. Since the group has prime order and only
/// the identity encodes as all-zero bytes, raising a valid non-identity
/// element to a canonical nonzero scalar never gives the identity.
#[verifier::external_body]
pub(crate) fn ristretto_mul(p: &Vec<u8>, k: &Vec<u8>) -> (r: Result<Vec<u8>, InternalError>)
    requires
        p@.len() == 32,
        k@.len() == 32,
    ensures
        match r {
            Ok(v) => {
                &&& ristretto_valid(p@)
                &&& v@.len() == 32
                &&& v@ == ristretto_mul_of(p@, k@)
                &&& ristretto_valid(v@)
                &&& !is_zero_bytes(p@) && scalar_canonical(k@) && !is_zero_bytes(k@)
                    ==> !is_zero_bytes(v@)
            },
            Err(e) => !ristretto_valid(p@) && e is PointError,
        },
{
    let mut arr = [0u8; 32];
    arr.copy_from_slice(p.as_slice());
    let point = match CompressedRistretto(arr).decompress() {
        Some(point) => point,
        None => {
            return Err(InternalError::PointError);
        },
    };
    let mut karr = [0u8; 32];
    karr.copy_from_slice(k.as_slice());
    let scalar = Scalar::from_bytes_mod_order(karr);
    Ok((point * scalar).compress().to_bytes().to_vec())
}

/// Relies on `curve25519_dalek::constants::X25519_BASEPOINT` multiplied by a
/// `Scalar`: the x25519 base-point scalar multiplication. The basepoint
/// generates a subgroup of prime order, so a canonical nonzero scalar never
/// yields the identity, whose encoding is all-zero.
#[verifier::external_body]
pub(crate) fn x25519_public_key(sk: &Vec<u8>) -> (r: Vec<u8>)
    requires
        sk@.len() == 32,
    ensures
        r@.len() == 32,
        r@ == x25519_base_of(sk@),
        scalar_canonical(sk@) && !is_zero_bytes(sk@) ==> !is_zero_bytes(r@),
{
    let mut arr = [0u8; 32];
    arr.copy_from_slice(sk.as_slice());
    (X25519_BASEPOINT * Scalar::from_bits(arr)).to_bytes().to_vec()
}

/// Relies on scalar multiplication of
/// `curve25519_dalek::montgomery::MontgomeryPoint`: the x25519 function.
/// The Montgomery ladder computes the scalar multiple of the point, so the
/// two orders of exponentiation agree: raising a peer's public key to one's
/// own secret gives the same bytes as the peer raising one's own public key
/// to its secret. The last clause states that Diffie-Hellman property.
#[verifier::external_body]
pub(crate) fn x25519_diffie_hellman(sk: &Vec<u8>, pk: &Vec<u8>) -> (r: Vec<u8>)
    requires
        sk@.len() == 32,
        pk@.len() == 32,
    ensures
        r@.len() == 32,
        r@ == x25519_dh_of(sk@, pk@),
        forall|t: Seq<u8>| pk@ == x25519_base_of(t) ==> r@ == #[trigger] x25519_dh_of(
            t,
            x25519_base_of(sk@),
        ),
{
    let mut skarr = [0u8; 32];
    skarr.copy_from_slice(sk.as_slice());
    let mut pkarr = [0u8; 32];
    pkarr.copy_from_slice(pk.as_slice());
    (MontgomeryPoint(pkarr) * Scalar::from_bits(skarr)).to_bytes().to_vec()
}

/// Relies on `sha2::Sha512::digest`: the SHA-512 hash, 64 bytes of output.
#[verifier::external_body]
pub(crate) fn sha512(m: &Vec<u8>) -> (r: Vec<u8>)
    ensures
        r@.len() == 64,
        r@ == sha512_of(m@),
{
    Sha512::digest(m.as_slice()).to_vec()
}

/// Relies on `hmac::Hmac<Sha512>` (`new_from_slice`, `update`,
/// `finalize`): HMAC-SHA-512, which accepts a key of any length and produces
/// a 64-byte tag.
#[verifier::external_body]
pub(crate) fn hmac_sha512(key: &Vec<u8>, m: &Vec<u8>) -> (r: Vec<u8>)
    ensures
        r@.len() == 64,
        r@ == hmac_sha512_of(key@, m@),
{
    let mut mac = Hmac::<Sha512>::new_from_slice(key.as_slice()).expect(
        "HMAC accepts a key of any length",
    );
    mac.update(m.as_slice());
    mac.finalize().into_bytes().to_vec()
}

/// Relies on `hkdf::Hkdf::<Sha512>::new` and `expand`: HKDF-SHA-512
/// extract-then-expand, producing `n` bytes; `expand` succeeds whenever
/// `n` is at most 255 times the hash length.
#[verifier::external_body]
pub(crate) fn hkdf_sha512(salt: &Vec<u8>, ikm: &Vec<u8>, info: &Vec<u8>, n: usize) -> (r: Vec<u8>)
    requires
        n <= 16320,
    ensures
        r@.len() == n,
        r@ == hkdf_sha512_of(salt@, ikm@, info@, n as nat),
{
    let kdf = Hkdf::<Sha512>::new(Some(salt.as_slice()), ikm.as_slice());
    let mut okm = vec![0u8; n];
    kdf.expand(info.as_slice(), &mut okm).expect("the length is at most 255 hash lengths");
    okm
}

/// Relies on `subtle::ConstantTimeEq` for byte slices: a constant-time
/// comparison that is true exactly when the two slices hold equal bytes
/// (slices of different lengths compare unequal).
#[verifier::external_body]
pub(crate) fn ct_equal(a: &Vec<u8>, b: &Vec<u8>) -> (r: bool)
    ensures
        r == (a@ == b@),
{
    bool::from(a.as_slice().ct_eq(b.as_slice()))
}

/// Samples a fresh canonical nonzero scalar: draws 64 uniform bytes, reduces
/// them modulo the group order, and redraws in the vanishingly unlikely case
/// that the reduction gave zero. Gives up, and reports a keypair-generation
/// failure, only if every draw of a bounded number reduced to zero.
pub fn random_nonzero_scalar() -> (r: Result<Vec<u8>, InternalError>)
    ensures
        match r {
            Ok(v) => v@.len() == 32 && scalar_canonical(v@) && !is_zero_bytes(v@),
            Err(e) => e is InvalidKeypairError,
        },
{
    let mut attempts: usize = 0;
    while attempts < 64
        invariant
            attempts <= 64,
        decreases 64 - attempts,
    {
        let wide = random_bytes(64);
        let reduced = scalar_reduce_wide(&wide);
        if !bytes_all_zero(&reduced) {
            return Ok(reduced);
        }
        attempts = attempts + 1;
    }
    Err(InternalError::InvalidKeypairError)
}

/// Whether every byte of a vector is zero.
pub fn bytes_all_zero(v: &Vec<u8>) -> (r: bool)
    ensures
        r == is_zero_bytes(v@),
{
    let mut i: usize = 0;
    while i < v.len()
        invariant
            0 <= i <= v@.len(),
            forall|j: int| 0 <= j < i ==> v@[j] == 0u8,
        decreases v@.len() - i,
    {
        if v[i] != 0u8 {
            return false;
        }
        i = i + 1;
    }
    true
}

} // verus!
