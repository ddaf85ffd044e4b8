//! The credential envelope: seals the client's long-term secret key under a
//! key derived from the randomized password, with an integrity tag, and opens
//! it again when the same randomized password is presented.

use crate::errors::InternalError;
use crate::primitives::hkdf_sha512;
use crate::primitives::hkdf_sha512_of;
use crate::primitives::hmac_sha512;
use crate::primitives::hmac_sha512_of;
use crate::primitives::ct_equal;
use crate::primitives::random_bytes;
use vstd::prelude::*;

verus! {

/// The mode an envelope was sealed in: plain, or bound to caller-supplied
/// custom identifiers.
#[derive(Debug, Clone, Copy, PartialEq, Eq, Structural)]
pub enum EnvelopeMode {
    /// No custom identifiers: the envelope binds only the key material
    Base,
    /// The envelope additionally binds custom identifiers
    CustomIdentifier,
}

/// The wire byte that stands for an envelope mode.
pub open spec fn mode_byte(m: EnvelopeMode) -> u8 {
    match m {
        EnvelopeMode::Base => 1u8,
        EnvelopeMode::CustomIdentifier => 2u8,
    }
}

/// The envelope mode a wire byte stands for, if any.
pub open spec fn byte_mode(b: u8) -> Option<EnvelopeMode> {
    if b == 1u8 {
        Some(EnvelopeMode::Base)
    } else if b == 2u8 {
        Some(EnvelopeMode::CustomIdentifier)
    } else {
        None
    }
}

/// The wire byte that stands for an envelope mode.
pub fn mode_to_byte(m: EnvelopeMode) -> (r: u8)
    ensures
        r == mode_byte(m),
{
    match m {
        EnvelopeMode::Base => 1u8,
        EnvelopeMode::CustomIdentifier => 2u8,
    }
}

/// The sealed container binding the client's long-term secret key to the
/// randomized password.
pub struct Envelope {
    /// The mode the envelope was sealed in
    pub mode: EnvelopeMode,
    /// The fresh random nonce drawn at sealing time
    pub nonce: Vec<u8>,
    /// The secret key, masked by the password-derived pad
    pub ciphertext: Vec<u8>,
    /// The integrity tag over the serialized contents
    pub tag: Vec<u8>,
}

/// The mathematical value of an envelope.
#[verifier::ext_equal]
pub struct EnvelopeView {
    /// The mode the envelope was sealed in
    pub mode: EnvelopeMode,
    /// The fresh random nonce drawn at sealing time
    pub nonce: Seq<u8>,
    /// The secret key, masked by the password-derived pad
    pub ciphertext: Seq<u8>,
    /// The integrity tag over the serialized contents
    pub tag: Seq<u8>,
}

impl View for Envelope {
    type V = EnvelopeView;

    open spec fn view(&self) -> EnvelopeView {
        EnvelopeView {
            mode: self.mode,
            nonce: self.nonce@,
            ciphertext: self.ciphertext@,
            tag: self.tag@,
        }
    }
}

/// Structural well-formedness: the fixed field lengths of the wire format.
pub open spec fn env_wf(e: EnvelopeView) -> bool {
    e.nonce.len() == 32 && e.ciphertext.len() == 32 && e.tag.len() == 64
}

/// The domain-separation label for the masking pad.
pub open spec fn pad_label() -> Seq<u8> {
    seq![0x50u8, 0x61u8, 0x64u8]
}

/// The domain-separation label for the envelope MAC key.
pub open spec fn hmac_label() -> Seq<u8> {
    seq![0x48u8, 0x6du8, 0x61u8, 0x63u8, 0x4bu8, 0x65u8, 0x79u8]
}

/// The domain-separation label for the export key.
pub open spec fn export_label() -> Seq<u8> {
    seq![0x45u8, 0x78u8, 0x70u8, 0x6fu8, 0x72u8, 0x74u8, 0x4bu8, 0x65u8, 0x79u8]
}

fn pad_label_vec() -> (r: Vec<u8>)
    ensures
        r@ == pad_label(),
{
    let mut r: Vec<u8> = Vec::new();
    r.push(0x50u8);
    r.push(0x61u8);
    r.push(0x64u8);
    proof {
        assert(r@ =~= pad_label());
    }
    r
}

fn hmac_label_vec() -> (r: Vec<u8>)
    ensures
        r@ == hmac_label(),
{
    let mut r: Vec<u8> = Vec::new();
    r.push(0x48u8);
    r.push(0x6du8);
    r.push(0x61u8);
    r.push(0x63u8);
    r.push(0x4bu8);
    r.push(0x65u8);
    r.push(0x79u8);
    proof {
        assert(r@ =~= hmac_label());
    }
    r
}

fn export_label_vec() -> (r: Vec<u8>)
    ensures
        r@ == export_label(),
{
    let mut r: Vec<u8> = Vec::new();
    r.push(0x45u8);
    r.push(0x78u8);
    r.push(0x70u8);
    r.push(0x6fu8);
    r.push(0x72u8);
    r.push(0x74u8);
    r.push(0x4bu8);
    r.push(0x65u8);
    r.push(0x79u8);
    proof {
        assert(r@ =~= export_label());
    }
    r
}

/// The bytewise exclusive-or of two equally long byte sequences.
pub open spec fn xor_seq(a: Seq<u8>, b: Seq<u8>) -> Seq<u8> {
    Seq::new(a.len(), |i: int| a[i] ^ b[i])
}

/// Law: masking twice with the same pad gives the original bytes back.
pub proof fn lemma_xor_involution(a: Seq<u8>, b: Seq<u8>)
    requires
        a.len() == b.len(),
    ensures
        xor_seq(xor_seq(a, b), b) == a,
{
    assert forall|i: int| 0 <= i < a.len() implies xor_seq(xor_seq(a, b), b)[i] == a[i] by {
        let x = a[i];
        let y = b[i];
        assert((x ^ y) ^ y == x) by (bit_vector);
    }
    assert(xor_seq(xor_seq(a, b), b) =~= a);
}

/// Appends the bytes of `src` to `dst`.
pub fn concat_into(dst: &mut Vec<u8>, src: &Vec<u8>)
    ensures
        final(dst)@ == old(dst)@ + src@,
{
    let mut i: usize = 0;
    while i < src.len()
        invariant
            0 <= i <= src@.len(),
            dst@ == old(dst)@ + src@.take(i as int),
        decreases src@.len() - i,
    {
        dst.push(src[i]);
        proof {
            assert(dst@ =~= old(dst)@ + src@.take(i + 1 as int));
        }
        i = i + 1;
    }
    proof {
        assert(src@.take(src@.len() as int) =~= src@);
    }
}

/// The bytewise exclusive-or of two equally long byte vectors.
pub fn xor_bytes(a: &Vec<u8>, b: &Vec<u8>) -> (r: Vec<u8>)
    requires
        a@.len() == b@.len(),
    ensures
        r@ == xor_seq(a@, b@),
{
    let mut r: Vec<u8> = Vec::new();
    let mut i: usize = 0;
    while i < a.len()
        invariant
            0 <= i <= a@.len(),
            a@.len() == b@.len(),
            r@.len() == i,
            forall|j: int| 0 <= j < i ==> r@[j] == (a@[j] ^ b@[j]),
        decreases a@.len() - i,
    {
        r.push(a[i] ^ b[i]);
        i = i + 1;
    }
    proof {
        assert(r@ =~= xor_seq(a@, b@));
    }
    r
}

/// The masking pad derived from the randomized password and the nonce.
pub open spec fn envelope_pad(rw: Seq<u8>, nonce: Seq<u8>) -> Seq<u8> {
    hkdf_sha512_of(nonce, rw, pad_label(), 32)
}

/// The envelope MAC key derived from the randomized password and the nonce.
pub open spec fn envelope_hmac_key(rw: Seq<u8>, nonce: Seq<u8>) -> Seq<u8> {
    hkdf_sha512_of(nonce, rw, hmac_label(), 64)
}

/// The export key derived from the randomized password and the nonce,
/// domain-separated from every other derived key.
pub open spec fn export_key_of(rw: Seq<u8>, nonce: Seq<u8>) -> Seq<u8> {
    hkdf_sha512_of(nonce, rw, export_label(), 64)
}

/// The serialized contents of an envelope that the integrity tag covers
/// (together with the associated data).
pub open spec fn env_contents(mode: EnvelopeMode, nonce: Seq<u8>, ct: Seq<u8>) -> Seq<u8> {
    seq![mode_byte(mode)] + nonce + ct
}

/// The integrity tag of an envelope under a randomized password.
pub open spec fn env_tag_of(
    rw: Seq<u8>,
    mode: EnvelopeMode,
    nonce: Seq<u8>,
    ct: Seq<u8>,
    aad: Seq<u8>,
) -> Seq<u8> {
    hmac_sha512_of(envelope_hmac_key(rw, nonce), env_contents(mode, nonce, ct) + aad)
}

/// Whether an envelope's tag is the correct tag under `rw` and `aad`.
pub open spec fn sealed_under(e: EnvelopeView, rw: Seq<u8>, aad: Seq<u8>) -> bool {
    e.tag == env_tag_of(rw, e.mode, e.nonce, e.ciphertext, aad)
}

/// The secret key an envelope hides under `rw`: the ciphertext unmasked.
pub open spec fn sealed_sk(e: EnvelopeView, rw: Seq<u8>) -> Seq<u8> {
    xor_seq(e.ciphertext, envelope_pad(rw, e.nonce))
}

/// What `open` returns, as a function of its inputs: the mode is checked
/// first, then the structure, then the integrity tag, and only then is any
/// credential material computed.
pub open spec fn open_spec(
    rw: Seq<u8>,
    e: EnvelopeView,
    expected_mode: EnvelopeMode,
    aad: Seq<u8>,
) -> Result<(Seq<u8>, Seq<u8>), InternalError> {
    if e.mode != expected_mode {
        Err(InternalError::IncompatibleEnvelopeModeError)
    } else if !env_wf(e) {
        Err(InternalError::InvalidInnerEnvelopeError)
    } else if !sealed_under(e, rw, aad) {
        Err(InternalError::SealOpenHmacError)
    } else {
        Ok((sealed_sk(e, rw), export_key_of(rw, e.nonce)))
    }
}

impl Envelope {
    /// Seals `client_s_sk` under the randomized password `rw`: draws a fresh
    /// nonce, masks the key with a pad derived from `rw`, and tags the whole
    /// serialized structure together with `aad` using a MAC key derived from
    /// `rw`. Also returns the export key, which is derived from `rw` under a
    /// label of its own.
    pub fn seal(rw: &Vec<u8>, mode: EnvelopeMode, client_s_sk: &Vec<u8>, aad: &Vec<u8>) -> (r: (
        Envelope,
        Vec<u8>,
    ))
        requires
            client_s_sk@.len() == 32,
        ensures
            env_wf(r.0@),
            r.0@.mode == mode,
            sealed_under(r.0@, rw@, aad@),
            sealed_sk(r.0@, rw@) == client_s_sk@,
            r.1@ == export_key_of(rw@, r.0@.nonce),
            r.1@.len() == 64,
    {
        let nonce = random_bytes(32);
        let pad = hkdf_sha512(&nonce, rw, &pad_label_vec(), 32);
        let ciphertext = xor_bytes(client_s_sk, &pad);
        let hmac_key = hkdf_sha512(&nonce, rw, &hmac_label_vec(), 64);
        let mut mac_input: Vec<u8> = Vec::new();
        mac_input.push(mode_to_byte(mode));
        concat_into(&mut mac_input, &nonce);
        concat_into(&mut mac_input, &ciphertext);
        proof {
            assert(mac_input@ =~= env_contents(mode, nonce@, ciphertext@));
        }
        concat_into(&mut mac_input, aad);
        let tag = hmac_sha512(&hmac_key, &mac_input);
        let export_key = hkdf_sha512(&nonce, rw, &export_label_vec(), 64);
        let envelope = Envelope { mode, nonce, ciphertext, tag };
        proof {
            lemma_xor_involution(client_s_sk@, envelope_pad(rw@, envelope@.nonce));
        }
        (envelope, export_key)
    }

    /// Opens the envelope with the randomized password `rw`: rejects a mode
    /// other than the expected one before anything else, then a malformed
    /// structure, then recomputes the integrity tag and compares it in
    /// constant time, and only on a match unmasks and returns the secret key
    /// together with the export key.
    pub fn open(&self, rw: &Vec<u8>, expected_mode: EnvelopeMode, aad: &Vec<u8>) -> (r: Result<
        (Vec<u8>, Vec<u8>),
        InternalError,
    >)
        ensures
            match (r, open_spec(rw@, self@, expected_mode, aad@)) {
                (Ok(p), Ok(q)) => p.0@ == q.0 && p.1@ == q.1,
                (Err(e1), Err(e2)) => e1 == e2,
                _ => false,
            },
            r matches Ok(p) ==> p.0@.len() == 32 && p.1@.len() == 64,
    {
        if self.mode != expected_mode {
            return Err(InternalError::IncompatibleEnvelopeModeError);
        }
        if self.nonce.len() != 32 || self.ciphertext.len() != 32 || self.tag.len() != 64 {
            return Err(InternalError::InvalidInnerEnvelopeError);
        }
        let hmac_key = hkdf_sha512(&self.nonce, rw, &hmac_label_vec(), 64);
        let mut mac_input: Vec<u8> = Vec::new();
        mac_input.push(mode_to_byte(self.mode));
        concat_into(&mut mac_input, &self.nonce);
        concat_into(&mut mac_input, &self.ciphertext);
        proof {
            assert(mac_input@ =~= env_contents(self@.mode, self@.nonce, self@.ciphertext));
        }
        concat_into(&mut mac_input, aad);
        let expected_tag = hmac_sha512(&hmac_key, &mac_input);
        if !ct_equal(&expected_tag, &self.tag) {
            return Err(InternalError::SealOpenHmacError);
        }
        let pad = hkdf_sha512(&self.nonce, rw, &pad_label_vec(), 32);
        let client_s_sk = xor_bytes(&self.ciphertext, &pad);
        let export_key = hkdf_sha512(&self.nonce, rw, &export_label_vec(), 64);
        Ok((client_s_sk, export_key))
    }
}

/// Law: an envelope sealed under a randomized password opens under the same
/// randomized password, the same mode and the same associated data, and gives
/// back exactly the sealed secret key and the export key derived from the
/// envelope's nonce.
pub proof fn lemma_seal_open_agreement(
    e: EnvelopeView,
    rw: Seq<u8>,
    sk: Seq<u8>,
    aad: Seq<u8>,
)
    requires
        env_wf(e),
        sealed_under(e, rw, aad),
        sealed_sk(e, rw) == sk,
    ensures
        open_spec(rw, e, e.mode, aad) == Ok::<(Seq<u8>, Seq<u8>), InternalError>(
            (sk, export_key_of(rw, e.nonce)),
        ),
{
}

/// Law: opening an envelope whose tag is not the correct tag under the given
/// randomized password and associated data — a tampered envelope, a wrong
/// password, or other associated data — fails with `SealOpenHmacError`, and
/// no credential bytes are computed.
pub proof fn lemma_open_tampered_tag(
    e: EnvelopeView,
    rw: Seq<u8>,
    aad: Seq<u8>,
)
    requires
        env_wf(e),
        !sealed_under(e, rw, aad),
    ensures
        open_spec(rw, e, e.mode, aad) == Err::<(Seq<u8>, Seq<u8>), InternalError>(
            InternalError::SealOpenHmacError,
        ),
{
}

/// Law: opening an envelope while expecting a mode other than the one it was
/// sealed in fails with `IncompatibleEnvelopeModeError`, whatever the
/// randomized password and associated data, before any credential bytes are
/// computed.
pub proof fn lemma_open_wrong_mode(
    e: EnvelopeView,
    rw: Seq<u8>,
    expected_mode: EnvelopeMode,
    aad: Seq<u8>,
)
    requires
        e.mode != expected_mode,
    ensures
        open_spec(rw, e, expected_mode, aad) == Err::<(Seq<u8>, Seq<u8>), InternalError>(
            InternalError::IncompatibleEnvelopeModeError,
        ),
{
}

} // verus!
