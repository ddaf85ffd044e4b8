//! The registration and login state machines and the authenticated
//! three-message key exchange.
//!
//! Each in-flight state is consumed by its `finish` step, so a half-finished
//! exchange can never be completed twice. All MAC and reflection comparisons
//! go through a constant-time comparison.

use crate::envelope::concat_into;
use crate::envelope::env_wf;
use crate::envelope::export_key_of;
use crate::envelope::open_spec;
use crate::envelope::sealed_sk;
use crate::envelope::sealed_under;
use crate::envelope::Envelope;
use crate::envelope::EnvelopeMode;
use crate::envelope::EnvelopeView;
use crate::errors::InternalError;
use crate::errors::ProtocolError;
use crate::messages::clone_vec;
use crate::messages::credential_response_wf;
use crate::messages::env_ser;
use crate::messages::sub_vec;
use crate::messages::CredentialFinalization;
use crate::messages::CredentialRequest;
use crate::messages::CredentialResponse;
use crate::messages::CredentialResponseView;
use crate::messages::RegistrationRequest;
use crate::messages::RegistrationResponse;
use crate::messages::RegistrationUpload;
use crate::oprf;
use crate::oprf::finalize_output;
use crate::oprf::oprf_output;
use crate::oprf::password_point;
use crate::primitives::ct_equal;
use crate::primitives::hkdf_sha512;
use crate::primitives::hkdf_sha512_of;
use crate::primitives::hmac_sha512;
use crate::primitives::hmac_sha512_of;
use crate::primitives::is_zero_bytes;
use crate::primitives::random_bytes;
use crate::primitives::random_nonzero_scalar;
use crate::primitives::ristretto_mul_of;
use crate::primitives::ristretto_valid;
use crate::primitives::scalar_canonical;
use crate::primitives::scalar_reduce_of;
use crate::primitives::scalar_reduce_wide;
use crate::primitives::sha512;
use crate::primitives::sha512_of;
use crate::primitives::x25519_base_of;
use crate::primitives::x25519_dh_of;
use crate::primitives::x25519_diffie_hellman;
use crate::primitives::x25519_public_key;
use vstd::prelude::*;

verus! {

// ---------------------------------------------------------------------------
// Key derivation of the three-message Diffie-Hellman exchange
// ---------------------------------------------------------------------------

/// The domain-separation label for the session key.
pub open spec fn session_label() -> Seq<u8> {
    seq![0x53u8, 0x65u8, 0x73u8, 0x73u8, 0x69u8, 0x6fu8, 0x6eu8, 0x4bu8, 0x65u8, 0x79u8]
}

/// The domain-separation label for the server MAC key.
pub open spec fn server_mac_label() -> Seq<u8> {
    seq![0x53u8, 0x65u8, 0x72u8, 0x76u8, 0x65u8, 0x72u8, 0x4du8, 0x61u8, 0x63u8]
}

/// The domain-separation label for the client MAC key.
pub open spec fn client_mac_label() -> Seq<u8> {
    seq![0x43u8, 0x6cu8, 0x69u8, 0x65u8, 0x6eu8, 0x74u8, 0x4du8, 0x61u8, 0x63u8]
}

/// The domain-separation label for the deterministic fake credentials.
pub open spec fn fake_label() -> Seq<u8> {
    seq![0x46u8, 0x61u8, 0x6bu8, 0x65u8]
}

fn session_label_vec() -> (r: Vec<u8>)
    ensures
        r@ == session_label(),
{
    let mut r: Vec<u8> = Vec::new();
    r.push(0x53u8);
    r.push(0x65u8);
    r.push(0x73u8);
    r.push(0x73u8);
    r.push(0x69u8);
    r.push(0x6fu8);
    r.push(0x6eu8);
    r.push(0x4bu8);
    r.push(0x65u8);
    r.push(0x79u8);
    proof {
        assert(r@ =~= session_label());
    }
    r
}

fn server_mac_label_vec() -> (r: Vec<u8>)
    ensures
        r@ == server_mac_label(),
{
    let mut r: Vec<u8> = Vec::new();
    r.push(0x53u8);
    r.push(0x65u8);
    r.push(0x72u8);
    r.push(0x76u8);
    r.push(0x65u8);
    r.push(0x72u8);
    r.push(0x4du8);
    r.push(0x61u8);
    r.push(0x63u8);
    proof {
        assert(r@ =~= server_mac_label());
    }
    r
}

fn client_mac_label_vec() -> (r: Vec<u8>)
    ensures
        r@ == client_mac_label(),
{
    let mut r: Vec<u8> = Vec::new();
    r.push(0x43u8);
    r.push(0x6cu8);
    r.push(0x69u8);
    r.push(0x65u8);
    r.push(0x6eu8);
    r.push(0x74u8);
    r.push(0x4du8);
    r.push(0x61u8);
    r.push(0x63u8);
    proof {
        assert(r@ =~= client_mac_label());
    }
    r
}

fn fake_label_vec() -> (r: Vec<u8>)
    ensures
        r@ == fake_label(),
{
    let mut r: Vec<u8> = Vec::new();
    r.push(0x46u8);
    r.push(0x61u8);
    r.push(0x6bu8);
    r.push(0x65u8);
    proof {
        assert(r@ =~= fake_label());
    }
    r
}

/// The full transcript bound into the key derivation and both MACs: every
/// field of the first login message followed by every field of the second but
/// its MAC.
pub open spec fn transcript(
    alpha: Seq<u8>,
    client_nonce: Seq<u8>,
    client_e_pk: Seq<u8>,
    v: CredentialResponseView,
) -> Seq<u8> {
    alpha + client_nonce + client_e_pk + v.beta + v.server_s_pk + env_ser(v.envelope)
        + v.server_nonce + v.server_e_pk
}

/// The input key material of the key derivation, as the server computes it:
/// three Diffie-Hellman values from the server's ephemeral and static secrets
/// and the client's ephemeral and static public keys.
pub open spec fn ikm_server(
    se_sk: Seq<u8>,
    s_sk: Seq<u8>,
    c_pk: Seq<u8>,
    ce_pk: Seq<u8>,
) -> Seq<u8> {
    x25519_dh_of(se_sk, ce_pk) + x25519_dh_of(s_sk, ce_pk) + x25519_dh_of(se_sk, c_pk)
}

/// The input key material of the key derivation, as the client computes it:
/// the same three Diffie-Hellman values from the client's ephemeral and
/// static secrets and the server's ephemeral and static public keys.
pub open spec fn ikm_client(
    ce_sk: Seq<u8>,
    c_sk: Seq<u8>,
    se_pk: Seq<u8>,
    ss_pk: Seq<u8>,
) -> Seq<u8> {
    x25519_dh_of(ce_sk, se_pk) + x25519_dh_of(ce_sk, ss_pk) + x25519_dh_of(c_sk, se_pk)
}

/// The session key: derived from the hashed transcript and the input key
/// material under the session label.
pub open spec fn session_key_of(tr: Seq<u8>, ikm: Seq<u8>) -> Seq<u8> {
    hkdf_sha512_of(sha512_of(tr), ikm, session_label(), 64)
}

/// The server MAC key, domain-separated from the session key.
pub open spec fn server_mac_key_of(tr: Seq<u8>, ikm: Seq<u8>) -> Seq<u8> {
    hkdf_sha512_of(sha512_of(tr), ikm, server_mac_label(), 64)
}

/// The client MAC key, domain-separated from the other two keys.
pub open spec fn client_mac_key_of(tr: Seq<u8>, ikm: Seq<u8>) -> Seq<u8> {
    hkdf_sha512_of(sha512_of(tr), ikm, client_mac_label(), 64)
}

/// The MAC the server sends in the second login message: over the transcript,
/// under the server MAC key.
pub open spec fn ke2_mac_of(tr: Seq<u8>, ikm: Seq<u8>) -> Seq<u8> {
    hmac_sha512_of(server_mac_key_of(tr, ikm), tr)
}

/// The MAC the client sends in the third login message: over the transcript
/// extended by the server's MAC, under the client MAC key.
pub open spec fn ke3_mac_of(tr: Seq<u8>, ikm: Seq<u8>) -> Seq<u8> {
    hmac_sha512_of(client_mac_key_of(tr, ikm), tr + ke2_mac_of(tr, ikm))
}

/// The associated data an envelope is bound to: the server's long-term public
/// key and the optional custom identifiers.
pub open spec fn aad_of(server_s_pk: Seq<u8>, id_client: Seq<u8>, id_server: Seq<u8>) -> Seq<u8> {
    server_s_pk + id_client + id_server
}

/// What a registration upload and export key must be for a randomized
/// password `rw`: the envelope is well formed, sealed in the given mode under
/// `rw` and the associated data, hides the secret key whose public key is
/// uploaded, and the export key is the one derived from `rw` and the
/// envelope's nonce.
pub open spec fn registered_with(
    env: EnvelopeView,
    client_s_pk: Seq<u8>,
    export_key: Seq<u8>,
    rw: Seq<u8>,
    mode: EnvelopeMode,
    aad: Seq<u8>,
) -> bool {
    &&& env_wf(env)
    &&& env.mode == mode
    &&& sealed_under(env, rw, aad)
    &&& client_s_pk == x25519_base_of(sealed_sk(env, rw))
    &&& export_key == export_key_of(rw, env.nonce)
}

/// The deterministic fake credentials the server synthesizes for an identity
/// that was never registered: an envelope and a public key derived from the
/// server's fixed secret seed and the requested identity alone, so that the
/// response shape is indistinguishable from a real one.
pub open spec fn fake_credentials(seed: Seq<u8>, id: Seq<u8>) -> (EnvelopeView, Seq<u8>) {
    let fake = hkdf_sha512_of(seed, id, fake_label(), 192);
    (
        EnvelopeView {
            mode: EnvelopeMode::Base,
            nonce: fake.subrange(0, 32),
            ciphertext: fake.subrange(32, 64),
            tag: fake.subrange(64, 128),
        },
        x25519_base_of(scalar_reduce_of(fake.subrange(128, 192))),
    )
}

/// Generates a fresh x25519 keypair `(secret, public)`.
pub(crate) fn generate_keypair() -> (r: Result<(Vec<u8>, Vec<u8>), InternalError>)
    ensures
        match r {
            Ok(t) => {
                &&& t.0@.len() == 32
                &&& scalar_canonical(t.0@)
                &&& !is_zero_bytes(t.0@)
                &&& t.1@.len() == 32
                &&& t.1@ == x25519_base_of(t.0@)
                &&& !is_zero_bytes(t.1@)
            },
            Err(e) => e is InvalidKeypairError,
        },
{
    let sk = match random_nonzero_scalar() {
        Ok(sk) => sk,
        Err(e) => {
            return Err(e);
        },
    };
    let pk = x25519_public_key(&sk);
    Ok((sk, pk))
}

/// Builds the transcript bytes from the message fields.
fn build_transcript(
    alpha: &Vec<u8>,
    client_nonce: &Vec<u8>,
    client_e_pk: &Vec<u8>,
    beta: &Vec<u8>,
    server_s_pk: &Vec<u8>,
    envelope: &Envelope,
    server_nonce: &Vec<u8>,
    server_e_pk: &Vec<u8>,
) -> (r: Vec<u8>)
    ensures
        r@ == alpha@ + client_nonce@ + client_e_pk@ + beta@ + server_s_pk@ + env_ser(envelope@)
            + server_nonce@ + server_e_pk@,
{
    let mut r: Vec<u8> = Vec::new();
    concat_into(&mut r, alpha);
    concat_into(&mut r, client_nonce);
    concat_into(&mut r, client_e_pk);
    concat_into(&mut r, beta);
    concat_into(&mut r, server_s_pk);
    let env_bytes = envelope.serialize();
    concat_into(&mut r, &env_bytes);
    concat_into(&mut r, server_nonce);
    concat_into(&mut r, server_e_pk);
    proof {
        assert(r@ =~= alpha@ + client_nonce@ + client_e_pk@ + beta@ + server_s_pk@ + env_ser(
            envelope@,
        ) + server_nonce@ + server_e_pk@);
    }
    r
}

// ---------------------------------------------------------------------------
// ServerSetup
// ---------------------------------------------------------------------------

/// The server's long-term state: its OPRF secret key, its long-term
/// key-exchange keypair, and the fixed secret seed used to synthesize fake
/// records for unregistered identities. Created once per deployment and never
/// sent to a client.
pub struct ServerSetup {
    oprf_key: Vec<u8>,
    private_key: Vec<u8>,
    public_key: Vec<u8>,
    fake_seed: Vec<u8>,
}

impl ServerSetup {
    /// The invariant of a server setup: canonical nonzero secrets of the
    /// fixed lengths, with the public key derived from the private key.
    #[verifier::type_invariant]
    spec fn inv(self) -> bool {
        &&& self.oprf_key@.len() == 32
        &&& scalar_canonical(self.oprf_key@)
        &&& !is_zero_bytes(self.oprf_key@)
        &&& self.private_key@.len() == 32
        &&& scalar_canonical(self.private_key@)
        &&& !is_zero_bytes(self.private_key@)
        &&& self.public_key@ == x25519_base_of(self.private_key@)
        &&& self.public_key@.len() == 32
        &&& !is_zero_bytes(self.public_key@)
        &&& self.fake_seed@.len() == 32
    }

    /// The server's OPRF secret key.
    pub closed spec fn oprf_key_view(self) -> Seq<u8> {
        self.oprf_key@
    }

    /// The server's long-term key-exchange secret key.
    pub closed spec fn private_key_view(self) -> Seq<u8> {
        self.private_key@
    }

    /// The server's long-term key-exchange public key.
    pub closed spec fn public_key_view(self) -> Seq<u8> {
        self.public_key@
    }

    /// The fixed secret seed for synthesizing fake records.
    pub closed spec fn seed_view(self) -> Seq<u8> {
        self.fake_seed@
    }

    /// One-time server key generation: draws the OPRF key, the long-term
    /// keypair and the fake-record seed from the secure random source.
    pub fn new() -> (r: Result<ServerSetup, ProtocolError>)
        ensures
            r matches Ok(s) ==> {
                &&& s.public_key_view() == x25519_base_of(s.private_key_view())
                &&& s.public_key_view().len() == 32
                &&& !is_zero_bytes(s.public_key_view())
            },
            r matches Err(e) ==> e matches ProtocolError::LibraryError(ie) && ie
                is InvalidKeypairError,
    {
        let oprf_key = match random_nonzero_scalar() {
            Ok(k) => k,
            Err(e) => {
                return Err(ProtocolError::LibraryError(e));
            },
        };
        let (private_key, public_key) = match generate_keypair() {
            Ok(t) => t,
            Err(e) => {
                return Err(ProtocolError::LibraryError(e));
            },
        };
        let fake_seed = random_bytes(32);
        Ok(ServerSetup { oprf_key, private_key, public_key, fake_seed })
    }
}

// ---------------------------------------------------------------------------
// Registration
// ---------------------------------------------------------------------------

/// Optional parameters of the client's registration `finish`: the envelope
/// mode and the custom identifiers bound into the envelope.
pub struct ClientRegistrationFinishParameters {
    /// The mode to seal the envelope in
    pub mode: EnvelopeMode,
    /// The custom client identifier bound into the envelope
    pub id_client: Vec<u8>,
    /// The custom server identifier bound into the envelope
    pub id_server: Vec<u8>,
}

impl Default for ClientRegistrationFinishParameters {
    /// The defaults: base mode, no custom identifiers.
    fn default() -> (r: Self)
        ensures
            r.mode == EnvelopeMode::Base,
            r.id_client@ == Seq::<u8>::empty(),
            r.id_server@ == Seq::<u8>::empty(),
    {
        ClientRegistrationFinishParameters {
            mode: EnvelopeMode::Base,
            id_client: Vec::new(),
            id_server: Vec::new(),
        }
    }
}

/// The client's in-flight registration state: the password and the blind
/// factor, consumed exactly once by `finish`.
pub struct ClientRegistration {
    password: Vec<u8>,
    blind: Vec<u8>,
    alpha: Vec<u8>,
}

impl ClientRegistration {
    /// The invariant of an in-flight registration: a canonical nonzero blind
    /// factor and the blinded element it produced.
    #[verifier::type_invariant]
    spec fn inv(self) -> bool {
        &&& self.blind@.len() == 32
        &&& scalar_canonical(self.blind@)
        &&& !is_zero_bytes(self.blind@)
        &&& self.alpha@.len() == 32
        &&& self.alpha@ == ristretto_mul_of(password_point(self.password@), self.blind@)
        &&& ristretto_valid(password_point(self.password@))
        &&& ristretto_valid(self.alpha@)
    }

    /// The password this exchange is for.
    pub closed spec fn password(self) -> Seq<u8> {
        self.password@
    }

    /// The blind factor drawn at `start`.
    pub closed spec fn blind_factor(self) -> Seq<u8> {
        self.blind@
    }

    /// The blinded element sent at `start`.
    pub closed spec fn blinded_element(self) -> Seq<u8> {
        self.alpha@
    }

    /// Starts a registration: blinds the password with a fresh blind factor
    /// and returns the request to send together with the in-flight state.
    pub fn start(password: &Vec<u8>) -> (r: Result<
        (RegistrationRequest, ClientRegistration),
        ProtocolError,
    >)
        ensures
            r matches Ok(t) ==> {
                &&& t.1.password() == password@
                &&& t.0.alpha@ == t.1.blinded_element()
                &&& t.0.alpha@ == ristretto_mul_of(password_point(password@), t.1.blind_factor())
                &&& t.0.alpha@.len() == 32
            },
            r matches Err(e) ==> e matches ProtocolError::LibraryError(ie) && ie
                is InvalidKeypairError,
    {
        let (blind, alpha) = match oprf::blind(password) {
            Ok(t) => t,
            Err(e) => {
                return Err(ProtocolError::LibraryError(e));
            },
        };
        let state = ClientRegistration {
            password: clone_vec(password),
            blind,
            alpha: clone_vec(&alpha),
        };
        Ok((RegistrationRequest { alpha }, state))
    }

    /// Finishes a registration, consuming the state: checks that the server
    /// did not reflect the blinded element, unblinds the evaluated element
    /// into the randomized password, generates the long-term keypair, seals
    /// the envelope and returns the upload together with the export key.
    pub fn finish(
        self,
        response: &RegistrationResponse,
        params: &ClientRegistrationFinishParameters,
    ) -> (r: Result<(RegistrationUpload, Vec<u8>), ProtocolError>)
        ensures
            response.beta@.len() != 32 ==> (r matches Err(e) && e is SerializationError),
            response.beta@.len() == 32 && response.beta@ == self.blinded_element() ==> (r matches Err(
                e,
            ) && e is ReflectedValueError),
            response.beta@.len() == 32 && response.beta@ != self.blinded_element()
                && !ristretto_valid(response.beta@) ==> (r matches Err(e)
                && e matches ProtocolError::LibraryError(ie) && ie is PointError),
            response.beta@.len() == 32 && response.beta@ != self.blinded_element()
                && ristretto_valid(response.beta@) ==> (r is Ok || (r matches Err(e)
                && e matches ProtocolError::LibraryError(ie) && ie is InvalidKeypairError)),
            r matches Ok(t) ==> registered_with(
                t.0.envelope@,
                t.0.client_s_pk@,
                t.1@,
                finalize_output(self.password(), self.blind_factor(), response.beta@),
                params.mode,
                aad_of(response.server_s_pk@, params.id_client@, params.id_server@),
            ),
            r matches Ok(t) ==> forall|key: Seq<u8>|
                response.beta@ == #[trigger] ristretto_mul_of(
                    ristretto_mul_of(password_point(self.password()), self.blind_factor()),
                    key,
                ) ==> registered_with(
                    t.0.envelope@,
                    t.0.client_s_pk@,
                    t.1@,
                    oprf_output(self.password(), key),
                    params.mode,
                    aad_of(response.server_s_pk@, params.id_client@, params.id_server@),
                ),
            r matches Ok(t) ==> t.0.client_s_pk@.len() == 32 && !is_zero_bytes(t.0.client_s_pk@)
                && env_wf(t.0.envelope@) && t.1@.len() == 64,
    {
        proof {
            use_type_invariant(&self);
        }
        if response.beta.len() != 32 {
            return Err(ProtocolError::SerializationError);
        }
        if ct_equal(&response.beta, &self.alpha) {
            return Err(ProtocolError::ReflectedValueError);
        }
        let rw = match oprf::finalize(&self.password, &self.blind, &response.beta) {
            Ok(rw) => rw,
            Err(e) => {
                return Err(ProtocolError::LibraryError(e));
            },
        };
        let (client_s_sk, client_s_pk) = match generate_keypair() {
            Ok(t) => t,
            Err(e) => {
                return Err(ProtocolError::LibraryError(e));
            },
        };
        let mut aad: Vec<u8> = Vec::new();
        concat_into(&mut aad, &response.server_s_pk);
        concat_into(&mut aad, &params.id_client);
        concat_into(&mut aad, &params.id_server);
        let (envelope, export_key) = Envelope::seal(&rw, params.mode, &client_s_sk, &aad);
        Ok((RegistrationUpload { envelope, client_s_pk }, export_key))
    }
}

/// The durable registration record the server stores for an identity: the
/// envelope and the client's long-term public key.
pub struct ServerRegistration {
    /// The envelope sealed under the client's randomized password
    pub envelope: Envelope,
    /// The client's long-term key-exchange public key
    pub client_s_pk: Vec<u8>,
}

impl ServerRegistration {
    /// Answers a registration request: evaluates the blinded element under
    /// the server's OPRF key and returns it with the server's public key.
    pub fn start(
        server_setup: &ServerSetup,
        message: &RegistrationRequest,
        _credential_identifier: &Vec<u8>,
    ) -> (r: Result<RegistrationResponse, ProtocolError>)
        ensures
            message.alpha@.len() != 32 ==> (r matches Err(e) && e is SerializationError),
            message.alpha@.len() == 32 && !ristretto_valid(message.alpha@) ==> (r matches Err(e)
                && e matches ProtocolError::LibraryError(ie) && ie is PointError),
            message.alpha@.len() == 32 && ristretto_valid(message.alpha@) ==> r is Ok,
            r matches Ok(resp) ==> {
                &&& resp.beta@ == ristretto_mul_of(message.alpha@, server_setup.oprf_key_view())
                &&& resp.beta@.len() == 32
                &&& ristretto_valid(resp.beta@)
                &&& (!is_zero_bytes(message.alpha@) ==> !is_zero_bytes(resp.beta@))
                &&& resp.server_s_pk@ == server_setup.public_key_view()
            },
    {
        proof {
            use_type_invariant(server_setup);
        }
        if message.alpha.len() != 32 {
            return Err(ProtocolError::SerializationError);
        }
        let beta = match oprf::evaluate(&server_setup.oprf_key, &message.alpha) {
            Ok(beta) => beta,
            Err(e) => {
                return Err(ProtocolError::LibraryError(e));
            },
        };
        Ok(RegistrationResponse { beta, server_s_pk: clone_vec(&server_setup.public_key) })
    }

    /// Turns the client's upload into the record the server persists.
    pub fn finish(message: RegistrationUpload) -> (r: ServerRegistration)
        ensures
            r.envelope@ == message.envelope@,
            r.client_s_pk@ == message.client_s_pk@,
    {
        ServerRegistration { envelope: message.envelope, client_s_pk: message.client_s_pk }
    }
}

// ---------------------------------------------------------------------------
// Login
// ---------------------------------------------------------------------------

/// Optional parameters of the client's login `finish`: the expected envelope
/// mode and the custom identifiers it was bound to.
pub struct ClientLoginFinishParameters {
    /// The envelope mode expected when opening
    pub mode: EnvelopeMode,
    /// The custom client identifier the envelope was bound to
    pub id_client: Vec<u8>,
    /// The custom server identifier the envelope was bound to
    pub id_server: Vec<u8>,
}

impl Default for ClientLoginFinishParameters {
    /// The defaults: base mode, no custom identifiers.
    fn default() -> (r: Self)
        ensures
            r.mode == EnvelopeMode::Base,
            r.id_client@ == Seq::<u8>::empty(),
            r.id_server@ == Seq::<u8>::empty(),
    {
        ClientLoginFinishParameters {
            mode: EnvelopeMode::Base,
            id_client: Vec::new(),
            id_server: Vec::new(),
        }
    }
}

/// The client's in-flight login state: the password, the blind factor, the
/// sent nonce and the ephemeral keypair, consumed exactly once by `finish`.
pub struct ClientLogin {
    password: Vec<u8>,
    blind: Vec<u8>,
    alpha: Vec<u8>,
    client_nonce: Vec<u8>,
    client_e_sk: Vec<u8>,
    client_e_pk: Vec<u8>,
}

impl ClientLogin {
    /// The invariant of an in-flight login: a canonical nonzero blind factor,
    /// the blinded element it produced, and a well-formed ephemeral keypair.
    #[verifier::type_invariant]
    spec fn inv(self) -> bool {
        &&& self.blind@.len() == 32
        &&& scalar_canonical(self.blind@)
        &&& !is_zero_bytes(self.blind@)
        &&& self.alpha@.len() == 32
        &&& self.alpha@ == ristretto_mul_of(password_point(self.password@), self.blind@)
        &&& ristretto_valid(password_point(self.password@))
        &&& ristretto_valid(self.alpha@)
        &&& self.client_nonce@.len() == 32
        &&& self.client_e_sk@.len() == 32
        &&& scalar_canonical(self.client_e_sk@)
        &&& !is_zero_bytes(self.client_e_sk@)
        &&& self.client_e_pk@ == x25519_base_of(self.client_e_sk@)
        &&& self.client_e_pk@.len() == 32
    }

    /// The password this exchange is for.
    pub closed spec fn password(self) -> Seq<u8> {
        self.password@
    }

    /// The blind factor drawn at `start`.
    pub closed spec fn blind_factor(self) -> Seq<u8> {
        self.blind@
    }

    /// The blinded element sent at `start`.
    pub closed spec fn blinded_element(self) -> Seq<u8> {
        self.alpha@
    }

    /// The nonce sent at `start`.
    pub closed spec fn nonce_view(self) -> Seq<u8> {
        self.client_nonce@
    }

    /// The ephemeral secret key drawn at `start`.
    pub closed spec fn ephemeral_sk(self) -> Seq<u8> {
        self.client_e_sk@
    }

    /// The ephemeral public key sent at `start`.
    pub closed spec fn ephemeral_pk(self) -> Seq<u8> {
        self.client_e_pk@
    }

    /// Starts a login: blinds the password, draws a fresh nonce and ephemeral
    /// keypair, and returns the first message together with the in-flight
    /// state.
    pub fn start(password: &Vec<u8>) -> (r: Result<
        (CredentialRequest, ClientLogin),
        ProtocolError,
    >)
        ensures
            r matches Ok(t) ==> {
                &&& t.1.password() == password@
                &&& t.0.alpha@ == t.1.blinded_element()
                &&& t.0.alpha@ == ristretto_mul_of(password_point(password@), t.1.blind_factor())
                &&& t.0.alpha@.len() == 32
                &&& t.0.client_nonce@ == t.1.nonce_view()
                &&& t.0.client_nonce@.len() == 32
                &&& t.0.client_e_pk@ == t.1.ephemeral_pk()
                &&& t.0.client_e_pk@ == x25519_base_of(t.1.ephemeral_sk())
                &&& t.0.client_e_pk@.len() == 32
            },
            r matches Err(e) ==> e matches ProtocolError::LibraryError(ie) && ie
                is InvalidKeypairError,
    {
        let (blind, alpha) = match oprf::blind(password) {
            Ok(t) => t,
            Err(e) => {
                return Err(ProtocolError::LibraryError(e));
            },
        };
        let (client_e_sk, client_e_pk) = match generate_keypair() {
            Ok(t) => t,
            Err(e) => {
                return Err(ProtocolError::LibraryError(e));
            },
        };
        let client_nonce = random_bytes(32);
        let state = ClientLogin {
            password: clone_vec(password),
            blind,
            alpha: clone_vec(&alpha),
            client_nonce: clone_vec(&client_nonce),
            client_e_sk,
            client_e_pk: clone_vec(&client_e_pk),
        };
        let message = CredentialRequest { alpha, client_nonce, client_e_pk };
        Ok((message, state))
    }

    /// Finishes a login, consuming the state: rejects a reflected OPRF
    /// element, re-derives the randomized password, opens the envelope,
    /// recomputes the three Diffie-Hellman values, derives the keys, checks
    /// the server's MAC in constant time, and returns the third message
    /// together with the session key and the export key.
    ///
    /// A wrong password, a tampered envelope and a record for another
    /// identity all fail the same way, with `InvalidLoginError`.
    pub fn finish(
        self,
        response: &CredentialResponse,
        params: &ClientLoginFinishParameters,
    ) -> (r: Result<(CredentialFinalization, Vec<u8>, Vec<u8>), ProtocolError>)
        ensures
            !credential_response_wf(response@) ==> (r matches Err(e) && e is SerializationError),
            credential_response_wf(response@) && response@.beta == self.blinded_element()
                ==> (r matches Err(e) && e is ReflectedValueError),
            credential_response_wf(response@) && response@.beta != self.blinded_element()
                && !ristretto_valid(response@.beta) ==> (r matches Err(e)
                && e matches ProtocolError::LibraryError(ie) && ie is PointError),
            credential_response_wf(response@) && response@.beta != self.blinded_element()
                && ristretto_valid(response@.beta) ==> {
                let rw = finalize_output(self.password(), self.blind_factor(), response@.beta);
                let tr = transcript(
                    self.blinded_element(),
                    self.nonce_view(),
                    self.ephemeral_pk(),
                    response@,
                );
                let aad = aad_of(response@.server_s_pk, params.id_client@, params.id_server@);
                let ikm = ikm_client(
                    self.ephemeral_sk(),
                    sealed_sk(response@.envelope, rw),
                    response@.server_e_pk,
                    response@.server_s_pk,
                );
                if open_spec(rw, response@.envelope, params.mode, aad) is Err {
                    r matches Err(e) && e is InvalidLoginError
                } else if response@.mac != ke2_mac_of(tr, ikm) {
                    r matches Err(e) && e is InvalidLoginError
                } else {
                    r matches Ok(t) && {
                        &&& t.0.mac@ == ke3_mac_of(tr, ikm)
                        &&& t.1@ == session_key_of(tr, ikm)
                        &&& t.2@ == export_key_of(rw, response@.envelope.nonce)
                        &&& t.1@.len() == 64
                        &&& t.2@.len() == 64
                    }
                }
            },
            r matches Ok(t) ==> forall|key: Seq<u8>, se_sk: Seq<u8>, ss_sk: Seq<u8>|
                #![trigger ristretto_mul_of(ristretto_mul_of(password_point(self.password()), self.blind_factor()), key), x25519_base_of(se_sk), x25519_base_of(ss_sk)]
                (response@.beta == ristretto_mul_of(
                    ristretto_mul_of(password_point(self.password()), self.blind_factor()),
                    key,
                ) && response@.server_e_pk == x25519_base_of(se_sk) && response@.server_s_pk
                    == x25519_base_of(ss_sk)) ==> {
                    let tr = transcript(
                        self.blinded_element(),
                        self.nonce_view(),
                        self.ephemeral_pk(),
                        response@,
                    );
                    let ikm = ikm_server(
                        se_sk,
                        ss_sk,
                        x25519_base_of(
                            sealed_sk(response@.envelope, oprf_output(self.password(), key)),
                        ),
                        self.ephemeral_pk(),
                    );
                    &&& t.1@ == session_key_of(tr, ikm)
                    &&& t.0.mac@ == ke3_mac_of(tr, ikm)
                    &&& t.2@ == export_key_of(
                        oprf_output(self.password(), key),
                        response@.envelope.nonce,
                    )
                },
    {
        proof {
            use_type_invariant(&self);
        }
        if response.beta.len() != 32 || response.server_s_pk.len() != 32
            || response.envelope.nonce.len() != 32 || response.envelope.ciphertext.len() != 32
            || response.envelope.tag.len() != 64 || response.server_nonce.len() != 32
            || response.server_e_pk.len() != 32 || response.mac.len() != 64 {
            return Err(ProtocolError::SerializationError);
        }
        if ct_equal(&response.beta, &self.alpha) {
            return Err(ProtocolError::ReflectedValueError);
        }
        let rw = match oprf::finalize(&self.password, &self.blind, &response.beta) {
            Ok(rw) => rw,
            Err(e) => {
                return Err(ProtocolError::LibraryError(e));
            },
        };
        let mut aad: Vec<u8> = Vec::new();
        concat_into(&mut aad, &response.server_s_pk);
        concat_into(&mut aad, &params.id_client);
        concat_into(&mut aad, &params.id_server);
        proof {
            assert(aad@ =~= aad_of(response@.server_s_pk, params.id_client@, params.id_server@));
        }
        let (client_s_sk, export_key) = match response.envelope.open(&rw, params.mode, &aad) {
            Ok(t) => t,
            Err(_) => {
                return Err(ProtocolError::InvalidLoginError);
            },
        };
        let dh1 = x25519_diffie_hellman(&self.client_e_sk, &response.server_e_pk);
        let dh2 = x25519_diffie_hellman(&self.client_e_sk, &response.server_s_pk);
        let dh3 = x25519_diffie_hellman(&client_s_sk, &response.server_e_pk);
        let mut ikm: Vec<u8> = Vec::new();
        concat_into(&mut ikm, &dh1);
        concat_into(&mut ikm, &dh2);
        concat_into(&mut ikm, &dh3);
        let tr = build_transcript(
            &self.alpha,
            &self.client_nonce,
            &self.client_e_pk,
            &response.beta,
            &response.server_s_pk,
            &response.envelope,
            &response.server_nonce,
            &response.server_e_pk,
        );
        proof {
            assert(tr@ =~= transcript(self.alpha@, self.client_nonce@, self.client_e_pk@, response@));
            assert(ikm@ =~= ikm_client(
                self.client_e_sk@,
                client_s_sk@,
                response@.server_e_pk,
                response@.server_s_pk,
            ));
        }
        let th = sha512(&tr);
        let server_mac_key = hkdf_sha512(&th, &ikm, &server_mac_label_vec(), 64);
        let expected_mac = hmac_sha512(&server_mac_key, &tr);
        if !ct_equal(&expected_mac, &response.mac) {
            return Err(ProtocolError::InvalidLoginError);
        }
        let client_mac_key = hkdf_sha512(&th, &ikm, &client_mac_label_vec(), 64);
        let session_key = hkdf_sha512(&th, &ikm, &session_label_vec(), 64);
        let mut mac3_input: Vec<u8> = Vec::new();
        concat_into(&mut mac3_input, &tr);
        concat_into(&mut mac3_input, &response.mac);
        let mac3 = hmac_sha512(&client_mac_key, &mac3_input);
        proof {
            assert forall|key: Seq<u8>, se_sk: Seq<u8>, ss_sk: Seq<u8>|
                (response@.beta == ristretto_mul_of(
                    ristretto_mul_of(password_point(self.password@), self.blind@),
                    key,
                ) && response@.server_e_pk == x25519_base_of(se_sk) && response@.server_s_pk
                    == x25519_base_of(ss_sk)) implies {
                let ikm2 = ikm_server(
                    se_sk,
                    ss_sk,
                    x25519_base_of(sealed_sk(response@.envelope, oprf_output(self.password@, key))),
                    self.client_e_pk@,
                );
                &&& session_key@ == session_key_of(tr@, ikm2)
                &&& mac3@ == ke3_mac_of(tr@, ikm2)
            } by {
                assert(rw@ == oprf_output(self.password@, key));
                assert(client_s_sk@ == sealed_sk(response@.envelope, oprf_output(self.password@, key)));
                assert(dh1@ == x25519_dh_of(se_sk, x25519_base_of(self.client_e_sk@)));
                assert(dh2@ == x25519_dh_of(ss_sk, x25519_base_of(self.client_e_sk@)));
                assert(dh3@ == x25519_dh_of(se_sk, x25519_base_of(client_s_sk@)));
                assert(ikm@ =~= ikm_server(
                    se_sk,
                    ss_sk,
                    x25519_base_of(sealed_sk(response@.envelope, oprf_output(self.password@, key))),
                    self.client_e_pk@,
                ));
            }
        }
        Ok((CredentialFinalization { mac: mac3 }, session_key, export_key))
    }
}

/// The server's in-flight login state: the derived session key and the MAC it
/// expects in the third message, consumed exactly once by `finish`.
pub struct ServerLogin {
    session_key: Vec<u8>,
    expected_mac: Vec<u8>,
    e_sk: Ghost<Seq<u8>>,
    used_c_pk: Ghost<Seq<u8>>,
}

impl ServerLogin {
    /// The invariant of an in-flight server login: the fixed key lengths.
    #[verifier::type_invariant]
    spec fn inv(self) -> bool {
        self.session_key@.len() == 64 && self.expected_mac@.len() == 64
    }

    /// The session key this login will yield if the client's MAC verifies.
    pub closed spec fn session_key_view(self) -> Seq<u8> {
        self.session_key@
    }

    /// The MAC expected in the third message.
    pub closed spec fn expected_mac_view(self) -> Seq<u8> {
        self.expected_mac@
    }

    /// The ephemeral secret key drawn at `start`.
    pub closed spec fn ephemeral_sk(self) -> Seq<u8> {
        self.e_sk@
    }

    /// The client public key the server used: the record's, or the fake one.
    pub closed spec fn used_client_pk(self) -> Seq<u8> {
        self.used_c_pk@
    }

    /// Answers the first login message: evaluates the blinded element,
    /// retrieves the stored record or deterministically synthesizes a fake
    /// one for an unregistered identity, draws the server's ephemeral
    /// contribution, derives the keys from the transcript and the three
    /// Diffie-Hellman values, and returns the second message together with
    /// the in-flight state.
    pub fn start(
        server_setup: &ServerSetup,
        record: Option<ServerRegistration>,
        message: &CredentialRequest,
        credential_identifier: &Vec<u8>,
    ) -> (r: Result<(CredentialResponse, ServerLogin), ProtocolError>)
        ensures
            r matches Ok(t) ==> {
                let tr = transcript(
                    message.alpha@,
                    message.client_nonce@,
                    message.client_e_pk@,
                    t.0@,
                );
                let ikm = ikm_server(
                    t.1.ephemeral_sk(),
                    server_setup.private_key_view(),
                    t.1.used_client_pk(),
                    message.client_e_pk@,
                );
                &&& credential_response_wf(t.0@)
                &&& t.0@.beta == ristretto_mul_of(message.alpha@, server_setup.oprf_key_view())
                &&& t.0@.server_s_pk == server_setup.public_key_view()
                &&& t.0@.server_e_pk == x25519_base_of(t.1.ephemeral_sk())
                &&& (record matches Some(rec) ==> t.0@.envelope == rec.envelope@
                    && t.1.used_client_pk() == rec.client_s_pk@)
                &&& (record is None ==> (t.0@.envelope, t.1.used_client_pk())
                    == fake_credentials(server_setup.seed_view(), credential_identifier@))
                &&& t.0@.mac == ke2_mac_of(tr, ikm)
                &&& t.1.session_key_view() == session_key_of(tr, ikm)
                &&& t.1.session_key_view().len() == 64
                &&& t.1.expected_mac_view() == ke3_mac_of(tr, ikm)
                &&& (!is_zero_bytes(message.alpha@) ==> !is_zero_bytes(t.0@.beta))
            },
            message.alpha@.len() != 32 || message.client_nonce@.len() != 32
                || message.client_e_pk@.len() != 32 ==> (r matches Err(e) && e
                is SerializationError),
            message.alpha@.len() == 32 && message.client_nonce@.len() == 32
                && message.client_e_pk@.len() == 32 && !ristretto_valid(message.alpha@) ==> (
            r matches Err(e) && e matches ProtocolError::LibraryError(ie) && ie is PointError),
            message.alpha@.len() == 32 && message.client_nonce@.len() == 32
                && message.client_e_pk@.len() == 32 && ristretto_valid(message.alpha@) && (
            record matches Some(rec) ==> env_wf(rec.envelope@) && rec.client_s_pk@.len() == 32)
                ==> (r is Ok || (r matches Err(e) && e matches ProtocolError::LibraryError(ie)
                && ie is InvalidKeypairError)),
    {
        proof {
            use_type_invariant(server_setup);
        }
        if message.alpha.len() != 32 || message.client_nonce.len() != 32
            || message.client_e_pk.len() != 32 {
            return Err(ProtocolError::SerializationError);
        }
        let beta = match oprf::evaluate(&server_setup.oprf_key, &message.alpha) {
            Ok(beta) => beta,
            Err(e) => {
                return Err(ProtocolError::LibraryError(e));
            },
        };
        let (envelope, client_s_pk) = match record {
            Some(rec) => {
                if rec.envelope.nonce.len() != 32 || rec.envelope.ciphertext.len() != 32
                    || rec.envelope.tag.len() != 64 || rec.client_s_pk.len() != 32 {
                    return Err(ProtocolError::SerializationError);
                }
                (rec.envelope, rec.client_s_pk)
            },
            None => {
                let fake = hkdf_sha512(
                    &server_setup.fake_seed,
                    credential_identifier,
                    &fake_label_vec(),
                    192,
                );
                let nonce = sub_vec(fake.as_slice(), 0, 32);
                let ciphertext = sub_vec(fake.as_slice(), 32, 64);
                let tag = sub_vec(fake.as_slice(), 64, 128);
                let wide = sub_vec(fake.as_slice(), 128, 192);
                let fake_sk = scalar_reduce_wide(&wide);
                let fake_pk = x25519_public_key(&fake_sk);
                (Envelope { mode: EnvelopeMode::Base, nonce, ciphertext, tag }, fake_pk)
            },
        };
        let (server_e_sk, server_e_pk) = match generate_keypair() {
            Ok(t) => t,
            Err(e) => {
                return Err(ProtocolError::LibraryError(e));
            },
        };
        let server_nonce = random_bytes(32);
        let dh1 = x25519_diffie_hellman(&server_e_sk, &message.client_e_pk);
        let dh2 = x25519_diffie_hellman(&server_setup.private_key, &message.client_e_pk);
        let dh3 = x25519_diffie_hellman(&server_e_sk, &client_s_pk);
        let mut ikm: Vec<u8> = Vec::new();
        concat_into(&mut ikm, &dh1);
        concat_into(&mut ikm, &dh2);
        concat_into(&mut ikm, &dh3);
        let server_s_pk = clone_vec(&server_setup.public_key);
        let tr = build_transcript(
            &message.alpha,
            &message.client_nonce,
            &message.client_e_pk,
            &beta,
            &server_s_pk,
            &envelope,
            &server_nonce,
            &server_e_pk,
        );
        let th = sha512(&tr);
        let server_mac_key = hkdf_sha512(&th, &ikm, &server_mac_label_vec(), 64);
        let mac = hmac_sha512(&server_mac_key, &tr);
        let client_mac_key = hkdf_sha512(&th, &ikm, &client_mac_label_vec(), 64);
        let session_key = hkdf_sha512(&th, &ikm, &session_label_vec(), 64);
        let mut mac3_input: Vec<u8> = Vec::new();
        concat_into(&mut mac3_input, &tr);
        concat_into(&mut mac3_input, &mac);
        let expected_mac = hmac_sha512(&client_mac_key, &mac3_input);
        let ghost e_sk_ghost = server_e_sk@;
        let ghost c_pk_ghost = client_s_pk@;
        let state = ServerLogin {
            session_key,
            expected_mac,
            e_sk: Ghost(e_sk_ghost),
            used_c_pk: Ghost(c_pk_ghost),
        };
        let response = CredentialResponse {
            beta,
            server_s_pk,
            envelope,
            server_nonce,
            server_e_pk,
            mac,
        };
        proof {
            assert(tr@ =~= transcript(
                message.alpha@,
                message.client_nonce@,
                message.client_e_pk@,
                response@,
            ));
            assert(ikm@ =~= ikm_server(
                state.e_sk@,
                server_setup.private_key@,
                state.used_c_pk@,
                message.client_e_pk@,
            ));
        }
        Ok((response, state))
    }

    /// Finishes a login, consuming the state: checks the client's MAC in
    /// constant time and yields the session key exactly when it matches;
    /// otherwise the login is invalid.
    pub fn finish(self, message: &CredentialFinalization) -> (r: Result<Vec<u8>, ProtocolError>)
        ensures
            message.mac@ == self.expected_mac_view() ==> (r matches Ok(v) && v@
                == self.session_key_view()),
            message.mac@ != self.expected_mac_view() ==> (r matches Err(e) && e
                is InvalidLoginError),
    {
        if ct_equal(&message.mac, &self.expected_mac) {
            Ok(self.session_key)
        } else {
            Err(ProtocolError::InvalidLoginError)
        }
    }
}

// ---------------------------------------------------------------------------
// Agreement laws
// ---------------------------------------------------------------------------

/// Law: a registration record sealed for a randomized password opens at login
/// under the same randomized password, the same mode and the same associated
/// data, giving back the sealed secret key and the very export key that
/// registration returned.
pub proof fn lemma_registration_login_agreement(
    env: EnvelopeView,
    client_s_pk: Seq<u8>,
    export_key: Seq<u8>,
    rw: Seq<u8>,
    mode: EnvelopeMode,
    aad: Seq<u8>,
)
    requires
        registered_with(env, client_s_pk, export_key, rw, mode, aad),
    ensures
        open_spec(rw, env, mode, aad) == Ok::<(Seq<u8>, Seq<u8>), InternalError>(
            (sealed_sk(env, rw), export_key),
        ),
        client_s_pk == x25519_base_of(sealed_sk(env, rw)),
{
    crate::envelope::lemma_seal_open_agreement(env, rw, sealed_sk(env, rw), aad);
}

/// Law: registration followed by login with the same password agrees on the
/// keys. This function runs one full honest exchange — registration, then
/// login against the stored record — and returns
/// `(client_session_key, server_session_key, register_export_key,
/// login_export_key)`. Its contract states that the two session keys are the
/// same bytes and the two export keys are the same bytes, and the verifier
/// proves that from the contracts of the individual protocol steps.
pub fn run_registration_and_login(password: &Vec<u8>, credential_identifier: &Vec<u8>) -> (r:
    Result<(Vec<u8>, Vec<u8>, Vec<u8>, Vec<u8>), ProtocolError>)
    ensures
        r matches Ok(t) ==> t.0@ == t.1@ && t.2@ == t.3@,
{
    let setup = match ServerSetup::new() {
        Ok(s) => s,
        Err(e) => {
            return Err(e);
        },
    };
    let (request, reg_state) = match ClientRegistration::start(password) {
        Ok(t) => t,
        Err(e) => {
            return Err(e);
        },
    };
    let ghost reg_blind = reg_state.blind_factor();
    let response = match ServerRegistration::start(&setup, &request, credential_identifier) {
        Ok(resp) => resp,
        Err(e) => {
            return Err(e);
        },
    };
    let reg_params = ClientRegistrationFinishParameters {
        mode: EnvelopeMode::Base,
        id_client: Vec::new(),
        id_server: Vec::new(),
    };
    let (upload, register_export_key) = match reg_state.finish(&response, &reg_params) {
        Ok(t) => t,
        Err(e) => {
            return Err(e);
        },
    };
    let ghost up_env = upload.envelope@;
    let ghost up_pk = upload.client_s_pk@;
    let ghost oprf_key = setup.oprf_key_view();
    proof {
        assert(response.beta@ == ristretto_mul_of(
            ristretto_mul_of(password_point(password@), reg_blind),
            oprf_key,
        ));
        assert(registered_with(
            up_env,
            up_pk,
            register_export_key@,
            oprf_output(password@, oprf_key),
            EnvelopeMode::Base,
            aad_of(response.server_s_pk@, Seq::<u8>::empty(), Seq::<u8>::empty()),
        ));
    }
    let record = ServerRegistration::finish(upload);
    let (ke1, login_state) = match ClientLogin::start(password) {
        Ok(t) => t,
        Err(e) => {
            return Err(e);
        },
    };
    let ghost l_blind = login_state.blind_factor();
    let ghost l_epk = login_state.ephemeral_pk();
    let (ke2, server_state) = match ServerLogin::start(
        &setup,
        Some(record),
        &ke1,
        credential_identifier,
    ) {
        Ok(t) => t,
        Err(e) => {
            return Err(e);
        },
    };
    let ghost se = server_state.ephemeral_sk();
    let ghost ss = setup.private_key_view();
    let ghost server_session = server_state.session_key_view();
    let ghost server_expected_mac = server_state.expected_mac_view();
    let login_params = ClientLoginFinishParameters {
        mode: EnvelopeMode::Base,
        id_client: Vec::new(),
        id_server: Vec::new(),
    };
    let (ke3, client_session_key, login_export_key) = match login_state.finish(
        &ke2,
        &login_params,
    ) {
        Ok(t) => t,
        Err(e) => {
            return Err(e);
        },
    };
    proof {
        assert(ke2@.beta == ristretto_mul_of(
            ristretto_mul_of(password_point(password@), l_blind),
            oprf_key,
        ));
        assert(ke2@.server_e_pk == x25519_base_of(se));
        assert(ke2@.server_s_pk == x25519_base_of(ss));
        assert(x25519_base_of(sealed_sk(ke2@.envelope, oprf_output(password@, oprf_key)))
            == up_pk);
        assert(client_session_key@ == server_session);
        assert(ke3.mac@ == server_expected_mac);
        assert(login_export_key@ == register_export_key@);
    }
    let server_session_key = match server_state.finish(&ke3) {
        Ok(key) => key,
        Err(_) => {
            return vstd::pervasive::unreached();
        },
    };
    Ok((client_session_key, server_session_key, register_export_key, login_export_key))
}

} // verus!
