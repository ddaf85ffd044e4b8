//! The oblivious-pseudorandom-function exchange over ristretto255 that turns
//! the password into a randomized password, in both registration and login.
//!
//! The client blinds the hashed password with a fresh scalar; the server
//! raises the blinded element to its long-term OPRF key; the client removes
//! the blind factor and hashes the result together with the password.

use crate::errors::InternalError;
use crate::primitives::is_zero_bytes;
use crate::primitives::random_nonzero_scalar;
use crate::primitives::ristretto_from_uniform_of;
use crate::primitives::ristretto_hash_from_wide;
use crate::primitives::ristretto_mul;
use crate::primitives::ristretto_mul_of;
use crate::primitives::ristretto_valid;
use crate::primitives::scalar_canonical;
use crate::primitives::scalar_invert;
use crate::primitives::scalar_invert_of;
use crate::primitives::sha512;
use crate::primitives::sha512_of;
use crate::envelope::concat_into;
use vstd::prelude::*;

verus! {

/// The group element the password is hashed to.
pub open spec fn password_point(pw: Seq<u8>) -> Seq<u8> {
    ristretto_from_uniform_of(sha512_of(pw))
}

/// The unblinded OPRF element for a password under the server's OPRF key:
/// the hashed password raised to the key.
pub open spec fn oprf_unblinded(pw: Seq<u8>, key: Seq<u8>) -> Seq<u8> {
    ristretto_mul_of(password_point(pw), key)
}

/// The randomized password for a password under the server's OPRF key: the
/// hash of the password together with its unblinded OPRF element.
pub open spec fn oprf_output(pw: Seq<u8>, key: Seq<u8>) -> Seq<u8> {
    sha512_of(pw + oprf_unblinded(pw, key))
}

/// The randomized password the client computes at `finalize` time, as a
/// function of what it holds: the password, its blind factor, and the
/// evaluated element the server sent.
pub open spec fn finalize_output(pw: Seq<u8>, blind: Seq<u8>, beta: Seq<u8>) -> Seq<u8> {
    sha512_of(pw + ristretto_mul_of(beta, scalar_invert_of(blind)))
}

/// Blinds a password: hashes it to the group and raises it to a freshly
/// sampled nonzero blind factor. Returns `(blind_factor, blinded_element)`.
pub(crate) fn blind(password: &Vec<u8>) -> (r: Result<(Vec<u8>, Vec<u8>), InternalError>)
    ensures
        match r {
            Ok(t) => {
                &&& t.0@.len() == 32
                &&& scalar_canonical(t.0@)
                &&& !is_zero_bytes(t.0@)
                &&& t.1@.len() == 32
                &&& t.1@ == ristretto_mul_of(password_point(password@), t.0@)
                &&& ristretto_valid(t.1@)
                &&& ristretto_valid(password_point(password@))
            },
            Err(e) => e is InvalidKeypairError,
        },
{
    let hashed = sha512(password);
    let point = ristretto_hash_from_wide(&hashed);
    let blind_factor = match random_nonzero_scalar() {
        Ok(blind_factor) => blind_factor,
        Err(e) => {
            return Err(e);
        },
    };
    let blinded = match ristretto_mul(&point, &blind_factor) {
        Ok(blinded) => blinded,
        Err(_) => {
            return vstd::pervasive::unreached();
        },
    };
    Ok((blind_factor, blinded))
}

/// Evaluates a blinded element under the server's OPRF key: raises it to the
/// key. Fails with `PointError` exactly when the element does not decode.
pub(crate) fn evaluate(oprf_key: &Vec<u8>, alpha: &Vec<u8>) -> (r: Result<Vec<u8>, InternalError>)
    requires
        oprf_key@.len() == 32,
        alpha@.len() == 32,
    ensures
        match r {
            Ok(beta) => {
                &&& ristretto_valid(alpha@)
                &&& beta@.len() == 32
                &&& beta@ == ristretto_mul_of(alpha@, oprf_key@)
                &&& ristretto_valid(beta@)
                &&& !is_zero_bytes(alpha@) && scalar_canonical(oprf_key@) && !is_zero_bytes(
                    oprf_key@,
                ) ==> !is_zero_bytes(beta@)
            },
            Err(e) => e is PointError && !ristretto_valid(alpha@),
        },
{
    ristretto_mul(alpha, oprf_key)
}

/// Unblinds the evaluated element with the inverse of the blind factor and
/// hashes it together with the password into the randomized password.
///
/// When the evaluated element really is the blinded element raised to some
/// key, the result is `oprf_output` of the password under that key, whatever
/// blind factor was used: that is the second `ensures` clause, and it is what
/// makes registration and login derive the same randomized password.
pub(crate) fn finalize(password: &Vec<u8>, blind_factor: &Vec<u8>, beta: &Vec<u8>) -> (r: Result<
    Vec<u8>,
    InternalError,
>)
    requires
        blind_factor@.len() == 32,
        scalar_canonical(blind_factor@),
        !is_zero_bytes(blind_factor@),
        beta@.len() == 32,
    ensures
        match r {
            Ok(rw) => {
                &&& ristretto_valid(beta@)
                &&& rw@.len() == 64
                &&& rw@ == finalize_output(password@, blind_factor@, beta@)
                &&& forall|key: Seq<u8>|
                    ristretto_valid(password_point(password@)) && beta@
                        == #[trigger] ristretto_mul_of(
                        ristretto_mul_of(password_point(password@), blind_factor@),
                        key,
                    ) ==> rw@ == oprf_output(password@, key)
            },
            Err(e) => e is PointError && !ristretto_valid(beta@),
        },
{
    let inverse = scalar_invert(blind_factor);
    let unblinded = match ristretto_mul(beta, &inverse) {
        Ok(unblinded) => unblinded,
        Err(e) => {
            return Err(e);
        },
    };
    let mut input: Vec<u8> = Vec::new();
    concat_into(&mut input, password);
    concat_into(&mut input, &unblinded);
    let rw = sha512(&input);
    Ok(rw)
}

} // verus!
