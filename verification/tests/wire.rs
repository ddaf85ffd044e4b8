//! Wire-format tests: serialization round trips for every message type, and
//! rejection of identity group elements and malformed bytes.

use opaque_ke::envelope::Envelope;
use opaque_ke::envelope::EnvelopeMode;
use opaque_ke::errors::InternalError;
use opaque_ke::errors::ProtocolError;
use opaque_ke::messages::CredentialFinalization;
use opaque_ke::messages::CredentialRequest;
use opaque_ke::messages::CredentialResponse;
use opaque_ke::messages::RegistrationRequest;
use opaque_ke::messages::RegistrationResponse;
use opaque_ke::messages::RegistrationUpload;
use opaque_ke::opaque::ClientLogin;
use opaque_ke::opaque::ClientLoginFinishParameters;
use opaque_ke::opaque::ClientRegistration;
use opaque_ke::opaque::ClientRegistrationFinishParameters;
use opaque_ke::opaque::ServerLogin;
use opaque_ke::opaque::ServerRegistration;
use opaque_ke::opaque::ServerSetup;

#[test]
fn registration_request_roundtrip() {
    let password = b"pw".to_vec();
    let (request, _) = ClientRegistration::start(&password).unwrap();
    let bytes = request.serialize();
    let parsed = RegistrationRequest::deserialize(&bytes).unwrap();
    assert_eq!(parsed.alpha, request.alpha);
    assert_eq!(parsed.serialize(), bytes);
}

#[test]
fn registration_response_roundtrip() {
    let password = b"pw".to_vec();
    let server_setup = ServerSetup::new().unwrap();
    let (request, _) = ClientRegistration::start(&password).unwrap();
    let response = ServerRegistration::start(&server_setup, &request, &Vec::new()).unwrap();
    let bytes = response.serialize();
    let parsed = RegistrationResponse::deserialize(&bytes).unwrap();
    assert_eq!(parsed.beta, response.beta);
    assert_eq!(parsed.server_s_pk, response.server_s_pk);
    assert_eq!(parsed.serialize(), bytes);
}

#[test]
fn registration_upload_roundtrip() {
    let password = b"pw".to_vec();
    let server_setup = ServerSetup::new().unwrap();
    let (request, client) = ClientRegistration::start(&password).unwrap();
    let response = ServerRegistration::start(&server_setup, &request, &Vec::new()).unwrap();
    let (upload, _) = client
        .finish(&response, &ClientRegistrationFinishParameters::default())
        .unwrap();
    let bytes = upload.serialize();
    let parsed = RegistrationUpload::deserialize(&bytes).unwrap();
    assert_eq!(parsed.client_s_pk, upload.client_s_pk);
    assert_eq!(parsed.envelope.mode, upload.envelope.mode);
    assert_eq!(parsed.envelope.nonce, upload.envelope.nonce);
    assert_eq!(parsed.envelope.ciphertext, upload.envelope.ciphertext);
    assert_eq!(parsed.envelope.tag, upload.envelope.tag);
    assert_eq!(parsed.serialize(), bytes);
}

#[test]
fn credential_request_roundtrip() {
    let password = b"pw".to_vec();
    let (ke1, _) = ClientLogin::start(&password).unwrap();
    let bytes = ke1.serialize();
    let parsed = CredentialRequest::deserialize(&bytes).unwrap();
    assert_eq!(parsed.alpha, ke1.alpha);
    assert_eq!(parsed.client_nonce, ke1.client_nonce);
    assert_eq!(parsed.client_e_pk, ke1.client_e_pk);
    assert_eq!(parsed.serialize(), bytes);
}

#[test]
fn credential_response_and_finalization_roundtrip() {
    let password = b"pw".to_vec();
    let server_setup = ServerSetup::new().unwrap();
    let (request, client) = ClientRegistration::start(&password).unwrap();
    let response = ServerRegistration::start(&server_setup, &request, &Vec::new()).unwrap();
    let (upload, _) = client
        .finish(&response, &ClientRegistrationFinishParameters::default())
        .unwrap();
    let record = ServerRegistration::finish(upload);

    let (ke1, client) = ClientLogin::start(&password).unwrap();
    let (ke2, _) = ServerLogin::start(&server_setup, Some(record), &ke1, &Vec::new()).unwrap();
    let bytes = ke2.serialize();
    let parsed = CredentialResponse::deserialize(&bytes).unwrap();
    assert_eq!(parsed.beta, ke2.beta);
    assert_eq!(parsed.server_s_pk, ke2.server_s_pk);
    assert_eq!(parsed.envelope.nonce, ke2.envelope.nonce);
    assert_eq!(parsed.server_nonce, ke2.server_nonce);
    assert_eq!(parsed.server_e_pk, ke2.server_e_pk);
    assert_eq!(parsed.mac, ke2.mac);
    assert_eq!(parsed.serialize(), bytes);

    let (ke3, _, _) = client
        .finish(&parsed, &ClientLoginFinishParameters::default())
        .unwrap();
    let ke3_bytes = ke3.serialize();
    let parsed_ke3 = CredentialFinalization::deserialize(&ke3_bytes).unwrap();
    assert_eq!(parsed_ke3.mac, ke3.mac);
    assert_eq!(parsed_ke3.serialize(), ke3_bytes);
}

#[test]
fn identity_element_is_rejected_in_oprf_positions() {
    // Registration request: the blinded OPRF element.
    let zeros = vec![0u8; 32];
    assert!(matches!(
        RegistrationRequest::deserialize(&zeros),
        Err(ProtocolError::IdentityGroupElementError)
    ));

    // Registration response: the evaluated OPRF element.
    let mut bytes = vec![0u8; 64];
    bytes[32] = 9;
    assert!(matches!(
        RegistrationResponse::deserialize(&bytes),
        Err(ProtocolError::IdentityGroupElementError)
    ));
}

#[test]
fn identity_element_is_rejected_in_key_exchange_positions() {
    // Credential request: the client's ephemeral public key.
    let mut ke1 = vec![9u8; 96];
    for byte in &mut ke1[64..96] {
        *byte = 0;
    }
    assert!(matches!(
        CredentialRequest::deserialize(&ke1),
        Err(ProtocolError::IdentityGroupElementError)
    ));

    // Credential response: the server's ephemeral public key.
    let mut ke2 = vec![9u8; 321];
    ke2[64] = 1; // a valid envelope mode byte
    for byte in &mut ke2[225..257] {
        *byte = 0;
    }
    assert!(matches!(
        CredentialResponse::deserialize(&ke2),
        Err(ProtocolError::IdentityGroupElementError)
    ));
}

#[test]
fn wrong_length_is_a_serialization_error() {
    assert!(matches!(
        RegistrationRequest::deserialize(&[1u8; 31]),
        Err(ProtocolError::SerializationError)
    ));
    assert!(matches!(
        RegistrationResponse::deserialize(&[1u8; 65]),
        Err(ProtocolError::SerializationError)
    ));
    assert!(matches!(
        RegistrationUpload::deserialize(&[1u8; 160]),
        Err(ProtocolError::SerializationError)
    ));
    assert!(matches!(
        CredentialRequest::deserialize(&[1u8; 95]),
        Err(ProtocolError::SerializationError)
    ));
    assert!(matches!(
        CredentialResponse::deserialize(&[1u8; 322]),
        Err(ProtocolError::SerializationError)
    ));
    assert!(matches!(
        CredentialFinalization::deserialize(&[1u8; 63]),
        Err(ProtocolError::SerializationError)
    ));
}

#[test]
fn unknown_envelope_mode_byte_is_rejected() {
    let mut bytes = vec![9u8; 129];
    bytes[0] = 77;
    assert!(matches!(
        Envelope::deserialize(&bytes),
        Err(InternalError::InvalidInnerEnvelopeError)
    ));

    // Inside a registration upload the same malformation surfaces as a
    // wrapped library error.
    let mut upload = vec![9u8; 161];
    upload[0] = 77;
    assert!(matches!(
        RegistrationUpload::deserialize(&upload),
        Err(ProtocolError::LibraryError(InternalError::InvalidInnerEnvelopeError))
    ));
}

#[test]
fn envelope_roundtrip_keeps_every_byte() {
    let envelope = Envelope {
        mode: EnvelopeMode::CustomIdentifier,
        nonce: (0..32).collect(),
        ciphertext: (32..64).collect(),
        tag: (0..64).map(|b| b ^ 0x5a).collect(),
    };
    let bytes = envelope.serialize();
    assert_eq!(bytes.len(), 129);
    let parsed = Envelope::deserialize(&bytes).unwrap();
    assert_eq!(parsed.mode, envelope.mode);
    assert_eq!(parsed.nonce, envelope.nonce);
    assert_eq!(parsed.ciphertext, envelope.ciphertext);
    assert_eq!(parsed.tag, envelope.tag);
}
