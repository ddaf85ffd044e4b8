//! The two-tier error taxonomy: internal cryptographic errors and
//! protocol-level errors surfaced to the integrator.
//!
//! Wrong-password and unknown-identity failures are deliberately merged into
//! the single `InvalidLoginError` variant, so that an observer cannot
//! enumerate registered identities from differing error behaviour.

use core::convert::Infallible;
use voprf::errors::InternalError as VoprfError;
use vstd::prelude::*;

verus! {

/// Declares `VoprfError`, the error type of the underlying
/// OPRF crate, carried opaquely inside `InternalError::OprfError`.
#[verifier::external_type_specification]
#[verifier::external_body]
pub struct ExVoprfInternalError(VoprfError);

/// Relies on the `Clone` impl that `voprf` derives for its error enum: a
/// clone of a fieldless enum value is the value itself.
pub assume_specification[ <VoprfError as Clone>::clone ](e: &VoprfError) -> (r: VoprfError)
    ensures
        r == e,
;

/// An error in the manipulation of internal cryptographic data.
#[derive(Debug, Clone, PartialEq, Eq)]
pub enum InternalError<T = Infallible> {
    /// A custom error supplied by a pluggable crypto backend
    Custom(T),
    /// Deserializing from a byte sequence failed
    InvalidByteSequence,
    /// A slice had a different length than expected
    SizeError {
        /// name of the argument that was checked
        name: &'static str,
        /// the expected length
        len: usize,
        /// the length the slice actually had
        actual_len: usize,
    },
    /// Could not decompress a group element
    PointError,
    /// Computing the hash-to-curve function failed
    HashToCurveError,
    /// Computing HKDF failed while deriving subkeys
    HkdfError,
    /// Computing HMAC failed while supplying a secret key
    HmacError,
    /// Computing the slow hashing function failed
    SlowHashError,
    /// The integrity check while opening an envelope failed
    SealOpenHmacError,
    /// Attempted to open an envelope of the wrong mode (base vs. custom identifier)
    IncompatibleEnvelopeModeError,
    /// The inner envelope is structurally malformed
    InvalidInnerEnvelopeError,
    /// Error from the OPRF evaluation
    OprfError(VoprfError),
    /// Error encountered when attempting to produce a keypair
    InvalidKeypairError,
}

/// Whether `b` is the same error as `a`, re-tagged with another custom-error
/// payload type. `a` holds no custom payload, so the `Custom` case is vacuous.
pub open spec fn internal_error_corresponds<T>(a: InternalError, b: InternalError<T>) -> bool {
    match a {
        InternalError::Custom(_) => false,
        InternalError::InvalidByteSequence => b is InvalidByteSequence,
        InternalError::SizeError { name, len, actual_len } => b == (InternalError::<T>::SizeError {
            name,
            len,
            actual_len,
        }),
        InternalError::PointError => b is PointError,
        InternalError::HashToCurveError => b is HashToCurveError,
        InternalError::HkdfError => b is HkdfError,
        InternalError::HmacError => b is HmacError,
        InternalError::SlowHashError => b is SlowHashError,
        InternalError::SealOpenHmacError => b is SealOpenHmacError,
        InternalError::IncompatibleEnvelopeModeError => b is IncompatibleEnvelopeModeError,
        InternalError::InvalidInnerEnvelopeError => b is InvalidInnerEnvelopeError,
        InternalError::OprfError(e) => b == InternalError::<T>::OprfError(e),
        InternalError::InvalidKeypairError => b is InvalidKeypairError,
    }
}

impl InternalError {
    /// Re-tags an `InternalError` that can hold no custom payload with an
    /// arbitrary custom-error payload type.
    pub fn into_custom<T>(self) -> (r: InternalError<T>)
        requires
            !(self is Custom),
        ensures
            internal_error_corresponds(self, r),
    {
        match self {
            InternalError::Custom(_) => vstd::pervasive::unreached(),
            InternalError::InvalidByteSequence => InternalError::InvalidByteSequence,
            InternalError::SizeError { name, len, actual_len } => InternalError::SizeError {
                name,
                len,
                actual_len,
            },
            InternalError::PointError => InternalError::PointError,
            InternalError::HashToCurveError => InternalError::HashToCurveError,
            InternalError::HkdfError => InternalError::HkdfError,
            InternalError::HmacError => InternalError::HmacError,
            InternalError::SlowHashError => InternalError::SlowHashError,
            InternalError::SealOpenHmacError => InternalError::SealOpenHmacError,
            InternalError::IncompatibleEnvelopeModeError => InternalError::IncompatibleEnvelopeModeError,
            InternalError::InvalidInnerEnvelopeError => InternalError::InvalidInnerEnvelopeError,
            InternalError::OprfError(e) => InternalError::OprfError(e),
            InternalError::InvalidKeypairError => InternalError::InvalidKeypairError,
        }
    }
}

/// An error in protocol handling.
#[derive(Debug, Clone, PartialEq, Eq)]
pub enum ProtocolError<T = Infallible> {
    /// Internal error encountered
    LibraryError(InternalError<T>),
    /// Failure to validate login credentials; covers both a wrong password and
    /// an identity that was never registered
    InvalidLoginError,
    /// Error with serializing or deserializing protocol messages
    SerializationError,
    /// The server reflected the client's own blinded OPRF element back as its
    /// evaluated element
    ReflectedValueError,
    /// An identity group element was encountered during deserialization
    IdentityGroupElementError,
}

/// Whether `b` is the same error as `a`, re-tagged with another custom-error
/// payload type.
pub open spec fn protocol_error_corresponds<T>(a: ProtocolError, b: ProtocolError<T>) -> bool {
    match a {
        ProtocolError::LibraryError(e) => b matches ProtocolError::LibraryError(
            e2,
        ) && internal_error_corresponds(e, e2),
        ProtocolError::InvalidLoginError => b is InvalidLoginError,
        ProtocolError::SerializationError => b is SerializationError,
        ProtocolError::ReflectedValueError => b is ReflectedValueError,
        ProtocolError::IdentityGroupElementError => b is IdentityGroupElementError,
    }
}

impl ProtocolError {
    /// Re-tags a `ProtocolError` that can hold no custom payload with an
    /// arbitrary custom-error payload type.
    pub fn into_custom<T>(self) -> (r: ProtocolError<T>)
        requires
            self matches ProtocolError::LibraryError(e) ==> !(e is Custom),
        ensures
            protocol_error_corresponds(self, r),
    {
        match self {
            ProtocolError::LibraryError(e) => ProtocolError::LibraryError(e.into_custom()),
            ProtocolError::InvalidLoginError => ProtocolError::InvalidLoginError,
            ProtocolError::SerializationError => ProtocolError::SerializationError,
            ProtocolError::ReflectedValueError => ProtocolError::ReflectedValueError,
            ProtocolError::IdentityGroupElementError => ProtocolError::IdentityGroupElementError,
        }
    }
}

impl From<VoprfError> for InternalError {
    fn from(voprf_error: VoprfError) -> (r: Self)
        ensures
            r == InternalError::<Infallible>::OprfError(voprf_error),
    {
        InternalError::OprfError(voprf_error)
    }
}

impl vstd::std_specs::convert::FromSpecImpl<VoprfError> for InternalError {
    open spec fn obeys_from_spec() -> bool {
        true
    }

    open spec fn from_spec(e: VoprfError) -> Self {
        InternalError::OprfError(e)
    }
}

impl From<VoprfError> for ProtocolError {
    fn from(voprf_error: VoprfError) -> (r: Self)
        ensures
            r == ProtocolError::LibraryError(InternalError::<Infallible>::OprfError(voprf_error)),
    {
        ProtocolError::LibraryError(InternalError::OprfError(voprf_error))
    }
}

impl vstd::std_specs::convert::FromSpecImpl<VoprfError> for ProtocolError {
    open spec fn obeys_from_spec() -> bool {
        true
    }

    open spec fn from_spec(e: VoprfError) -> Self {
        ProtocolError::LibraryError(InternalError::OprfError(e))
    }
}

impl<T> From<InternalError<T>> for ProtocolError<T> {
    fn from(e: InternalError<T>) -> (r: Self)
        ensures
            r == ProtocolError::LibraryError(e),
    {
        ProtocolError::LibraryError(e)
    }
}

impl<T> vstd::std_specs::convert::FromSpecImpl<InternalError<T>> for ProtocolError<T> {
    open spec fn obeys_from_spec() -> bool {
        true
    }

    open spec fn from_spec(e: InternalError<T>) -> Self {
        ProtocolError::LibraryError(e)
    }
}

/// Checks that a slice has exactly the expected length, and hands it back
/// unchanged if so.
pub fn check_slice_size<'a, T>(
    slice: &'a [u8],
    expected_len: usize,
    arg_name: &'static str,
) -> (r: Result<&'a [u8], InternalError<T>>)
    ensures
        slice@.len() == expected_len ==> r == Ok::<&'a [u8], InternalError<T>>(slice),
        slice@.len() != expected_len ==> r == Err::<&'a [u8], InternalError<T>>(
            InternalError::SizeError {
                name: arg_name,
                len: expected_len,
                actual_len: slice@.len() as usize,
            },
        ),
{
    if slice.len() != expected_len {
        return Err(
            InternalError::SizeError { name: arg_name, len: expected_len, actual_len: slice.len() },
        );
    }
    Ok(slice)
}

/// Checks that a slice has at least the expected length, and hands it back
/// unchanged if so.
pub fn check_slice_size_atleast<'a>(
    slice: &'a [u8],
    expected_len: usize,
    arg_name: &'static str,
) -> (r: Result<&'a [u8], InternalError>)
    ensures
        slice@.len() >= expected_len ==> r == Ok::<&'a [u8], InternalError>(slice),
        slice@.len() < expected_len ==> r == Err::<&'a [u8], InternalError>(
            InternalError::SizeError {
                name: arg_name,
                len: expected_len,
                actual_len: slice@.len() as usize,
            },
        ),
{
    if slice.len() < expected_len {
        return Err(
            InternalError::SizeError { name: arg_name, len: expected_len, actual_len: slice.len() },
        );
    }
    Ok(slice)
}

} // verus!
