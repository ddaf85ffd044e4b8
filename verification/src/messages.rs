//! The protocol messages and their wire formats: fixed-length concatenations
//! of group elements, nonces, envelopes and MAC tags, with exact
//! serialization and deserialization.
//!
//! Deserialization rejects a received group element equal to the identity
//! element (encoded as all-zero bytes) with `IdentityGroupElementError`, for
//! both the OPRF group and the key-exchange group.

use crate::envelope::byte_mode;
use crate::envelope::env_wf;
use crate::envelope::mode_byte;
use crate::envelope::mode_to_byte;
use crate::envelope::concat_into;
use crate::envelope::Envelope;
use crate::envelope::EnvelopeView;
use crate::errors::InternalError;
use crate::errors::ProtocolError;
use crate::primitives::bytes_all_zero;
use crate::primitives::is_zero_bytes;
use vstd::prelude::*;

verus! {

/// The client's first registration message: the blinded OPRF element.
pub struct RegistrationRequest {
    /// The blinded OPRF element
    pub alpha: Vec<u8>,
}

/// The server's registration answer: the evaluated OPRF element and the
/// server's long-term public key.
pub struct RegistrationResponse {
    /// The evaluated OPRF element
    pub beta: Vec<u8>,
    /// The server's long-term key-exchange public key
    pub server_s_pk: Vec<u8>,
}

/// The client's final registration message: the sealed envelope and the
/// client's long-term public key, persisted by the server as the
/// registration record.
pub struct RegistrationUpload {
    /// The envelope sealed under the randomized password
    pub envelope: Envelope,
    /// The client's long-term key-exchange public key
    pub client_s_pk: Vec<u8>,
}

/// The first login message (KE1): the blinded OPRF element together with the
/// client's ephemeral key-exchange contribution.
pub struct CredentialRequest {
    /// The blinded OPRF element
    pub alpha: Vec<u8>,
    /// The client's fresh random nonce
    pub client_nonce: Vec<u8>,
    /// The client's ephemeral key-exchange public key
    pub client_e_pk: Vec<u8>,
}

/// The second login message (KE2): the evaluated OPRF element, the stored
/// envelope, the server's key-exchange contribution, and a MAC over the
/// transcript so far.
pub struct CredentialResponse {
    /// The evaluated OPRF element
    pub beta: Vec<u8>,
    /// The server's long-term key-exchange public key
    pub server_s_pk: Vec<u8>,
    /// The envelope stored (or synthesized) for this identity
    pub envelope: Envelope,
    /// The server's fresh random nonce
    pub server_nonce: Vec<u8>,
    /// The server's ephemeral key-exchange public key
    pub server_e_pk: Vec<u8>,
    /// The MAC over the transcript, under the server MAC key
    pub mac: Vec<u8>,
}

/// The mathematical value of a credential response.
#[verifier::ext_equal]
pub struct CredentialResponseView {
    /// The evaluated OPRF element
    pub beta: Seq<u8>,
    /// The server's long-term key-exchange public key
    pub server_s_pk: Seq<u8>,
    /// The envelope stored (or synthesized) for this identity
    pub envelope: EnvelopeView,
    /// The server's fresh random nonce
    pub server_nonce: Seq<u8>,
    /// The server's ephemeral key-exchange public key
    pub server_e_pk: Seq<u8>,
    /// The MAC over the transcript, under the server MAC key
    pub mac: Seq<u8>,
}

impl View for CredentialResponse {
    type V = CredentialResponseView;

    open spec fn view(&self) -> CredentialResponseView {
        CredentialResponseView {
            beta: self.beta@,
            server_s_pk: self.server_s_pk@,
            envelope: self.envelope@,
            server_nonce: self.server_nonce@,
            server_e_pk: self.server_e_pk@,
            mac: self.mac@,
        }
    }
}

/// The third login message (KE3): the client's MAC over the transcript,
/// proving it derived the same keys.
pub struct CredentialFinalization {
    /// The MAC over the transcript, under the client MAC key
    pub mac: Vec<u8>,
}

/// Copies `b[start..end]` into a fresh vector.
pub fn sub_vec(b: &[u8], start: usize, end: usize) -> (r: Vec<u8>)
    requires
        start <= end <= b@.len(),
    ensures
        r@ == b@.subrange(start as int, end as int),
{
    let mut r: Vec<u8> = Vec::new();
    let mut j: usize = start;
    while j < end
        invariant
            start <= j <= end <= b@.len(),
            r@ == b@.subrange(start as int, j as int),
        decreases end - j,
    {
        r.push(b[j]);
        proof {
            assert(r@ =~= b@.subrange(start as int, j + 1 as int));
        }
        j = j + 1;
    }
    r
}

/// Copies a byte vector.
pub fn clone_vec(v: &Vec<u8>) -> (r: Vec<u8>)
    ensures
        r@ == v@,
{
    sub_vec(v.as_slice(), 0, v.len())
}

// ---------------------------------------------------------------------------
// Envelope wire format
// ---------------------------------------------------------------------------

/// The serialized envelope: `[mode:1][nonce:32][ciphertext:32][tag:64]`.
pub open spec fn env_ser(e: EnvelopeView) -> Seq<u8> {
    seq![mode_byte(e.mode)] + e.nonce + e.ciphertext + e.tag
}

/// What envelope deserialization yields on given bytes: a structurally
/// malformed envelope (wrong length or unknown mode byte) is rejected.
pub open spec fn env_parse(b: Seq<u8>) -> Result<EnvelopeView, InternalError> {
    if b.len() != 129 {
        Err(InternalError::InvalidInnerEnvelopeError)
    } else if byte_mode(b[0]) is None {
        Err(InternalError::InvalidInnerEnvelopeError)
    } else {
        Ok(
            EnvelopeView {
                mode: byte_mode(b[0]).unwrap(),
                nonce: b.subrange(1, 33),
                ciphertext: b.subrange(33, 65),
                tag: b.subrange(65, 129),
            },
        )
    }
}

/// Law: envelope serialization round-trips byte-for-byte.
pub proof fn lemma_env_roundtrip(e: EnvelopeView)
    requires
        env_wf(e),
    ensures
        env_parse(env_ser(e)) == Ok::<EnvelopeView, InternalError>(e),
{
    let b = env_ser(e);
    assert(b[0] == mode_byte(e.mode));
    assert(byte_mode(mode_byte(e.mode)) == Some(e.mode));
    assert(b.subrange(1, 33) =~= e.nonce);
    assert(b.subrange(33, 65) =~= e.ciphertext);
    assert(b.subrange(65, 129) =~= e.tag);
    assert(env_parse(env_ser(e)).unwrap() =~= e);
}

impl Envelope {
    /// Serializes the envelope in the fixed wire layout.
    pub fn serialize(&self) -> (r: Vec<u8>)
        ensures
            r@ == env_ser(self@),
    {
        let mut r: Vec<u8> = Vec::new();
        r.push(mode_to_byte(self.mode));
        concat_into(&mut r, &self.nonce);
        concat_into(&mut r, &self.ciphertext);
        concat_into(&mut r, &self.tag);
        proof {
            assert(r@ =~= env_ser(self@));
        }
        r
    }

    /// Deserializes an envelope, rejecting a malformed structure.
    pub fn deserialize(bytes: &[u8]) -> (r: Result<Envelope, InternalError>)
        ensures
            match (r, env_parse(bytes@)) {
                (Ok(m), Ok(v)) => m@ == v,
                (Err(e1), Err(e2)) => e1 == e2,
                _ => false,
            },
    {
        if bytes.len() != 129 {
            return Err(InternalError::InvalidInnerEnvelopeError);
        }
        let mode = if bytes[0] == 1u8 {
            crate::envelope::EnvelopeMode::Base
        } else if bytes[0] == 2u8 {
            crate::envelope::EnvelopeMode::CustomIdentifier
        } else {
            return Err(InternalError::InvalidInnerEnvelopeError);
        };
        let envelope = Envelope {
            mode,
            nonce: sub_vec(bytes, 1, 33),
            ciphertext: sub_vec(bytes, 33, 65),
            tag: sub_vec(bytes, 65, 129),
        };
        proof {
            assert(envelope@ =~= env_parse(bytes@).unwrap());
        }
        Ok(envelope)
    }
}

// ---------------------------------------------------------------------------
// RegistrationRequest: [alpha:32]
// ---------------------------------------------------------------------------

/// The serialized registration request.
pub open spec fn ser_registration_request(alpha: Seq<u8>) -> Seq<u8> {
    alpha
}

/// What registration-request deserialization yields on given bytes.
pub open spec fn parse_registration_request(b: Seq<u8>) -> Result<Seq<u8>, ProtocolError> {
    if b.len() != 32 {
        Err(ProtocolError::SerializationError)
    } else if is_zero_bytes(b) {
        Err(ProtocolError::IdentityGroupElementError)
    } else {
        Ok(b)
    }
}

/// Law: registration-request serialization round-trips byte-for-byte.
pub proof fn lemma_registration_request_roundtrip(alpha: Seq<u8>)
    requires
        alpha.len() == 32,
        !is_zero_bytes(alpha),
    ensures
        parse_registration_request(ser_registration_request(alpha)) == Ok::<Seq<u8>, ProtocolError>(
            alpha,
        ),
{
}

impl RegistrationRequest {
    /// Serializes the message in the fixed wire layout.
    pub fn serialize(&self) -> (r: Vec<u8>)
        ensures
            r@ == ser_registration_request(self.alpha@),
    {
        let mut r: Vec<u8> = Vec::new();
        concat_into(&mut r, &self.alpha);
        proof {
            assert(r@ =~= self.alpha@);
        }
        r
    }

    /// Deserializes the message, rejecting a wrong length and an identity
    /// group element.
    pub fn deserialize(bytes: &[u8]) -> (r: Result<RegistrationRequest, ProtocolError>)
        ensures
            match (r, parse_registration_request(bytes@)) {
                (Ok(m), Ok(alpha)) => m.alpha@ == alpha,
                (Err(e1), Err(e2)) => e1 == e2,
                _ => false,
            },
    {
        if bytes.len() != 32 {
            return Err(ProtocolError::SerializationError);
        }
        let alpha = sub_vec(bytes, 0, 32);
        proof {
            assert(alpha@ =~= bytes@);
        }
        if bytes_all_zero(&alpha) {
            return Err(ProtocolError::IdentityGroupElementError);
        }
        Ok(RegistrationRequest { alpha })
    }
}

// ---------------------------------------------------------------------------
// RegistrationResponse: [beta:32][server_s_pk:32]
// ---------------------------------------------------------------------------

/// The serialized registration response.
pub open spec fn ser_registration_response(beta: Seq<u8>, server_s_pk: Seq<u8>) -> Seq<u8> {
    beta + server_s_pk
}

/// What registration-response deserialization yields on given bytes.
pub open spec fn parse_registration_response(b: Seq<u8>) -> Result<(Seq<u8>, Seq<u8>), ProtocolError> {
    if b.len() != 64 {
        Err(ProtocolError::SerializationError)
    } else if is_zero_bytes(b.subrange(0, 32)) || is_zero_bytes(b.subrange(32, 64)) {
        Err(ProtocolError::IdentityGroupElementError)
    } else {
        Ok((b.subrange(0, 32), b.subrange(32, 64)))
    }
}

/// Law: registration-response serialization round-trips byte-for-byte.
pub proof fn lemma_registration_response_roundtrip(beta: Seq<u8>, server_s_pk: Seq<u8>)
    requires
        beta.len() == 32,
        server_s_pk.len() == 32,
        !is_zero_bytes(beta),
        !is_zero_bytes(server_s_pk),
    ensures
        parse_registration_response(ser_registration_response(beta, server_s_pk)) == Ok::<
            (Seq<u8>, Seq<u8>),
            ProtocolError,
        >((beta, server_s_pk)),
{
    let b = ser_registration_response(beta, server_s_pk);
    assert(b.subrange(0, 32) =~= beta);
    assert(b.subrange(32, 64) =~= server_s_pk);
}

impl RegistrationResponse {
    /// Serializes the message in the fixed wire layout.
    pub fn serialize(&self) -> (r: Vec<u8>)
        ensures
            r@ == ser_registration_response(self.beta@, self.server_s_pk@),
    {
        let mut r: Vec<u8> = Vec::new();
        concat_into(&mut r, &self.beta);
        concat_into(&mut r, &self.server_s_pk);
        r
    }

    /// Deserializes the message, rejecting a wrong length and identity group
    /// elements.
    pub fn deserialize(bytes: &[u8]) -> (r: Result<RegistrationResponse, ProtocolError>)
        ensures
            match (r, parse_registration_response(bytes@)) {
                (Ok(m), Ok(t)) => m.beta@ == t.0 && m.server_s_pk@ == t.1,
                (Err(e1), Err(e2)) => e1 == e2,
                _ => false,
            },
    {
        if bytes.len() != 64 {
            return Err(ProtocolError::SerializationError);
        }
        let beta = sub_vec(bytes, 0, 32);
        let server_s_pk = sub_vec(bytes, 32, 64);
        if bytes_all_zero(&beta) || bytes_all_zero(&server_s_pk) {
            return Err(ProtocolError::IdentityGroupElementError);
        }
        Ok(RegistrationResponse { beta, server_s_pk })
    }
}

// ---------------------------------------------------------------------------
// RegistrationUpload: [envelope:129][client_s_pk:32]
// ---------------------------------------------------------------------------

/// The serialized registration upload.
pub open spec fn ser_registration_upload(e: EnvelopeView, client_s_pk: Seq<u8>) -> Seq<u8> {
    env_ser(e) + client_s_pk
}

/// What registration-upload deserialization yields on given bytes.
pub open spec fn parse_registration_upload(b: Seq<u8>) -> Result<
    (EnvelopeView, Seq<u8>),
    ProtocolError,
> {
    if b.len() != 161 {
        Err(ProtocolError::SerializationError)
    } else if env_parse(b.subrange(0, 129)) is Err {
        Err(ProtocolError::LibraryError(InternalError::InvalidInnerEnvelopeError))
    } else if is_zero_bytes(b.subrange(129, 161)) {
        Err(ProtocolError::IdentityGroupElementError)
    } else {
        Ok((env_parse(b.subrange(0, 129)).unwrap(), b.subrange(129, 161)))
    }
}

/// Law: registration-upload serialization round-trips byte-for-byte.
pub proof fn lemma_registration_upload_roundtrip(e: EnvelopeView, client_s_pk: Seq<u8>)
    requires
        env_wf(e),
        client_s_pk.len() == 32,
        !is_zero_bytes(client_s_pk),
    ensures
        parse_registration_upload(ser_registration_upload(e, client_s_pk)) == Ok::<
            (EnvelopeView, Seq<u8>),
            ProtocolError,
        >((e, client_s_pk)),
{
    let b = ser_registration_upload(e, client_s_pk);
    assert(b.subrange(0, 129) =~= env_ser(e));
    assert(b.subrange(129, 161) =~= client_s_pk);
    lemma_env_roundtrip(e);
}

impl RegistrationUpload {
    /// Serializes the message in the fixed wire layout.
    pub fn serialize(&self) -> (r: Vec<u8>)
        ensures
            r@ == ser_registration_upload(self.envelope@, self.client_s_pk@),
    {
        let mut r: Vec<u8> = Vec::new();
        let env_bytes = self.envelope.serialize();
        concat_into(&mut r, &env_bytes);
        concat_into(&mut r, &self.client_s_pk);
        proof {
            assert(r@ =~= ser_registration_upload(self.envelope@, self.client_s_pk@));
        }
        r
    }

    /// Deserializes the message, rejecting a wrong length, a malformed
    /// envelope and an identity group element.
    pub fn deserialize(bytes: &[u8]) -> (r: Result<RegistrationUpload, ProtocolError>)
        ensures
            match (r, parse_registration_upload(bytes@)) {
                (Ok(m), Ok(t)) => m.envelope@ == t.0 && m.client_s_pk@ == t.1,
                (Err(e1), Err(e2)) => e1 == e2,
                _ => false,
            },
    {
        if bytes.len() != 161 {
            return Err(ProtocolError::SerializationError);
        }
        let env_bytes = sub_vec(bytes, 0, 129);
        let envelope = match Envelope::deserialize(env_bytes.as_slice()) {
            Ok(envelope) => envelope,
            Err(_) => {
                return Err(ProtocolError::LibraryError(InternalError::InvalidInnerEnvelopeError));
            },
        };
        let client_s_pk = sub_vec(bytes, 129, 161);
        if bytes_all_zero(&client_s_pk) {
            return Err(ProtocolError::IdentityGroupElementError);
        }
        Ok(RegistrationUpload { envelope, client_s_pk })
    }
}

// ---------------------------------------------------------------------------
// CredentialRequest (KE1): [alpha:32][client_nonce:32][client_e_pk:32]
// ---------------------------------------------------------------------------

/// The serialized credential request.
pub open spec fn ser_credential_request(
    alpha: Seq<u8>,
    client_nonce: Seq<u8>,
    client_e_pk: Seq<u8>,
) -> Seq<u8> {
    alpha + client_nonce + client_e_pk
}

/// What credential-request deserialization yields on given bytes.
pub open spec fn parse_credential_request(b: Seq<u8>) -> Result<
    (Seq<u8>, Seq<u8>, Seq<u8>),
    ProtocolError,
> {
    if b.len() != 96 {
        Err(ProtocolError::SerializationError)
    } else if is_zero_bytes(b.subrange(0, 32)) || is_zero_bytes(b.subrange(64, 96)) {
        Err(ProtocolError::IdentityGroupElementError)
    } else {
        Ok((b.subrange(0, 32), b.subrange(32, 64), b.subrange(64, 96)))
    }
}

/// Law: credential-request serialization round-trips byte-for-byte.
pub proof fn lemma_credential_request_roundtrip(
    alpha: Seq<u8>,
    client_nonce: Seq<u8>,
    client_e_pk: Seq<u8>,
)
    requires
        alpha.len() == 32,
        client_nonce.len() == 32,
        client_e_pk.len() == 32,
        !is_zero_bytes(alpha),
        !is_zero_bytes(client_e_pk),
    ensures
        parse_credential_request(ser_credential_request(alpha, client_nonce, client_e_pk)) == Ok::<
            (Seq<u8>, Seq<u8>, Seq<u8>),
            ProtocolError,
        >((alpha, client_nonce, client_e_pk)),
{
    let b = ser_credential_request(alpha, client_nonce, client_e_pk);
    assert(b.subrange(0, 32) =~= alpha);
    assert(b.subrange(32, 64) =~= client_nonce);
    assert(b.subrange(64, 96) =~= client_e_pk);
}

impl CredentialRequest {
    /// Serializes the message in the fixed wire layout.
    pub fn serialize(&self) -> (r: Vec<u8>)
        ensures
            r@ == ser_credential_request(self.alpha@, self.client_nonce@, self.client_e_pk@),
    {
        let mut r: Vec<u8> = Vec::new();
        concat_into(&mut r, &self.alpha);
        concat_into(&mut r, &self.client_nonce);
        concat_into(&mut r, &self.client_e_pk);
        r
    }

    /// Deserializes the message, rejecting a wrong length and identity group
    /// elements.
    pub fn deserialize(bytes: &[u8]) -> (r: Result<CredentialRequest, ProtocolError>)
        ensures
            match (r, parse_credential_request(bytes@)) {
                (Ok(m), Ok(t)) => m.alpha@ == t.0 && m.client_nonce@ == t.1 && m.client_e_pk@
                    == t.2,
                (Err(e1), Err(e2)) => e1 == e2,
                _ => false,
            },
    {
        if bytes.len() != 96 {
            return Err(ProtocolError::SerializationError);
        }
        let alpha = sub_vec(bytes, 0, 32);
        let client_nonce = sub_vec(bytes, 32, 64);
        let client_e_pk = sub_vec(bytes, 64, 96);
        if bytes_all_zero(&alpha) || bytes_all_zero(&client_e_pk) {
            return Err(ProtocolError::IdentityGroupElementError);
        }
        Ok(CredentialRequest { alpha, client_nonce, client_e_pk })
    }
}

// ---------------------------------------------------------------------------
// CredentialResponse (KE2):
// [beta:32][server_s_pk:32][envelope:129][server_nonce:32][server_e_pk:32][mac:64]
// ---------------------------------------------------------------------------

/// The serialized credential response.
pub open spec fn ser_credential_response(v: CredentialResponseView) -> Seq<u8> {
    v.beta + v.server_s_pk + env_ser(v.envelope) + v.server_nonce + v.server_e_pk + v.mac
}

/// Well-formedness of a credential response: the fixed field lengths.
pub open spec fn credential_response_wf(v: CredentialResponseView) -> bool {
    &&& v.beta.len() == 32
    &&& v.server_s_pk.len() == 32
    &&& env_wf(v.envelope)
    &&& v.server_nonce.len() == 32
    &&& v.server_e_pk.len() == 32
    &&& v.mac.len() == 64
}

/// What credential-response deserialization yields on given bytes.
pub open spec fn parse_credential_response(b: Seq<u8>) -> Result<
    CredentialResponseView,
    ProtocolError,
> {
    if b.len() != 321 {
        Err(ProtocolError::SerializationError)
    } else if is_zero_bytes(b.subrange(0, 32)) || is_zero_bytes(b.subrange(32, 64))
        || is_zero_bytes(b.subrange(225, 257)) {
        Err(ProtocolError::IdentityGroupElementError)
    } else if env_parse(b.subrange(64, 193)) is Err {
        Err(ProtocolError::LibraryError(InternalError::InvalidInnerEnvelopeError))
    } else {
        Ok(
            CredentialResponseView {
                beta: b.subrange(0, 32),
                server_s_pk: b.subrange(32, 64),
                envelope: env_parse(b.subrange(64, 193)).unwrap(),
                server_nonce: b.subrange(193, 225),
                server_e_pk: b.subrange(225, 257),
                mac: b.subrange(257, 321),
            },
        )
    }
}

/// Law: credential-response serialization round-trips byte-for-byte.
pub proof fn lemma_credential_response_roundtrip(v: CredentialResponseView)
    requires
        credential_response_wf(v),
        !is_zero_bytes(v.beta),
        !is_zero_bytes(v.server_s_pk),
        !is_zero_bytes(v.server_e_pk),
    ensures
        parse_credential_response(ser_credential_response(v)) == Ok::<
            CredentialResponseView,
            ProtocolError,
        >(v),
{
    let b = ser_credential_response(v);
    assert(b.subrange(0, 32) =~= v.beta);
    assert(b.subrange(32, 64) =~= v.server_s_pk);
    assert(b.subrange(64, 193) =~= env_ser(v.envelope));
    assert(b.subrange(193, 225) =~= v.server_nonce);
    assert(b.subrange(225, 257) =~= v.server_e_pk);
    assert(b.subrange(257, 321) =~= v.mac);
    lemma_env_roundtrip(v.envelope);
    assert(parse_credential_response(ser_credential_response(v)).unwrap() =~= v);
}

impl CredentialResponse {
    /// Serializes the message in the fixed wire layout.
    pub fn serialize(&self) -> (r: Vec<u8>)
        ensures
            r@ == ser_credential_response(self@),
    {
        let mut r: Vec<u8> = Vec::new();
        concat_into(&mut r, &self.beta);
        concat_into(&mut r, &self.server_s_pk);
        let env_bytes = self.envelope.serialize();
        concat_into(&mut r, &env_bytes);
        concat_into(&mut r, &self.server_nonce);
        concat_into(&mut r, &self.server_e_pk);
        concat_into(&mut r, &self.mac);
        proof {
            assert(r@ =~= ser_credential_response(self@));
        }
        r
    }

    /// Deserializes the message, rejecting a wrong length, identity group
    /// elements and a malformed envelope.
    pub fn deserialize(bytes: &[u8]) -> (r: Result<CredentialResponse, ProtocolError>)
        ensures
            match (r, parse_credential_response(bytes@)) {
                (Ok(m), Ok(v)) => m@ == v,
                (Err(e1), Err(e2)) => e1 == e2,
                _ => false,
            },
    {
        if bytes.len() != 321 {
            return Err(ProtocolError::SerializationError);
        }
        let beta = sub_vec(bytes, 0, 32);
        let server_s_pk = sub_vec(bytes, 32, 64);
        let server_e_pk = sub_vec(bytes, 225, 257);
        if bytes_all_zero(&beta) || bytes_all_zero(&server_s_pk) || bytes_all_zero(&server_e_pk) {
            return Err(ProtocolError::IdentityGroupElementError);
        }
        let env_bytes = sub_vec(bytes, 64, 193);
        let envelope = match Envelope::deserialize(env_bytes.as_slice()) {
            Ok(envelope) => envelope,
            Err(_) => {
                return Err(ProtocolError::LibraryError(InternalError::InvalidInnerEnvelopeError));
            },
        };
        let server_nonce = sub_vec(bytes, 193, 225);
        let mac = sub_vec(bytes, 257, 321);
        let response = CredentialResponse {
            beta,
            server_s_pk,
            envelope,
            server_nonce,
            server_e_pk,
            mac,
        };
        proof {
            assert(response@ =~= parse_credential_response(bytes@).unwrap());
        }
        Ok(response)
    }
}

// ---------------------------------------------------------------------------
// CredentialFinalization (KE3): [mac:64]
// ---------------------------------------------------------------------------

/// The serialized credential finalization.
pub open spec fn ser_credential_finalization(mac: Seq<u8>) -> Seq<u8> {
    mac
}

/// What credential-finalization deserialization yields on given bytes.
pub open spec fn parse_credential_finalization(b: Seq<u8>) -> Result<Seq<u8>, ProtocolError> {
    if b.len() != 64 {
        Err(ProtocolError::SerializationError)
    } else {
        Ok(b)
    }
}

/// Law: credential-finalization serialization round-trips byte-for-byte.
pub proof fn lemma_credential_finalization_roundtrip(mac: Seq<u8>)
    requires
        mac.len() == 64,
    ensures
        parse_credential_finalization(ser_credential_finalization(mac)) == Ok::<
            Seq<u8>,
            ProtocolError,
        >(mac),
{
}

// ---------------------------------------------------------------------------
// Identity-element rejection
// ---------------------------------------------------------------------------

/// Law: a registration request whose OPRF element is the identity encoding is
/// rejected with `IdentityGroupElementError`.
pub proof fn lemma_identity_rejected_registration_request(b: Seq<u8>)
    requires
        b.len() == 32,
        is_zero_bytes(b),
    ensures
        parse_registration_request(b) == Err::<Seq<u8>, ProtocolError>(
            ProtocolError::IdentityGroupElementError,
        ),
{
}

/// Law: a credential request whose OPRF element or whose key-exchange element
/// is the identity encoding is rejected with `IdentityGroupElementError`.
pub proof fn lemma_identity_rejected_credential_request(b: Seq<u8>)
    requires
        b.len() == 96,
        is_zero_bytes(b.subrange(0, 32)) || is_zero_bytes(b.subrange(64, 96)),
    ensures
        parse_credential_request(b) == Err::<(Seq<u8>, Seq<u8>, Seq<u8>), ProtocolError>(
            ProtocolError::IdentityGroupElementError,
        ),
{
}

/// Law: a credential response whose OPRF element or either of whose
/// key-exchange elements is the identity encoding is rejected with
/// `IdentityGroupElementError`.
pub proof fn lemma_identity_rejected_credential_response(b: Seq<u8>)
    requires
        b.len() == 321,
        is_zero_bytes(b.subrange(0, 32)) || is_zero_bytes(b.subrange(32, 64)) || is_zero_bytes(
            b.subrange(225, 257),
        ),
    ensures
        parse_credential_response(b) == Err::<CredentialResponseView, ProtocolError>(
            ProtocolError::IdentityGroupElementError,
        ),
{
}

impl CredentialFinalization {
    /// Serializes the message in the fixed wire layout.
    pub fn serialize(&self) -> (r: Vec<u8>)
        ensures
            r@ == ser_credential_finalization(self.mac@),
    {
        let mut r: Vec<u8> = Vec::new();
        concat_into(&mut r, &self.mac);
        proof {
            assert(r@ =~= self.mac@);
        }
        r
    }

    /// Deserializes the message, rejecting a wrong length.
    pub fn deserialize(bytes: &[u8]) -> (r: Result<CredentialFinalization, ProtocolError>)
        ensures
            match (r, parse_credential_finalization(bytes@)) {
                (Ok(m), Ok(mac)) => m.mac@ == mac,
                (Err(e1), Err(e2)) => e1 == e2,
                _ => false,
            },
    {
        if bytes.len() != 64 {
            return Err(ProtocolError::SerializationError);
        }
        let mac = sub_vec(bytes, 0, 64);
        proof {
            assert(mac@ =~= bytes@);
        }
        Ok(CredentialFinalization { mac })
    }
}

} // verus!
