//! End-to-end protocol tests: registration followed by login, failure
//! indistinguishability, reflected-value detection.

use opaque_ke::envelope::EnvelopeMode;
use opaque_ke::errors::InternalError;
use opaque_ke::errors::ProtocolError;
use opaque_ke::messages::RegistrationRequest;
use opaque_ke::messages::CredentialResponse;
use opaque_ke::opaque::ClientLogin;
use opaque_ke::opaque::ClientLoginFinishParameters;
use opaque_ke::opaque::ClientRegistration;
use opaque_ke::opaque::ClientRegistrationFinishParameters;
use opaque_ke::opaque::ServerLogin;
use opaque_ke::opaque::ServerRegistration;
use opaque_ke::opaque::ServerSetup;

fn register(
    server_setup: &ServerSetup,
    password: &[u8],
) -> (ServerRegistration, Vec<u8>) {
    let password = password.to_vec();
    let (request, client) = ClientRegistration::start(&password).unwrap();
    let response = ServerRegistration::start(server_setup, &request, &Vec::new()).unwrap();
    let (upload, export_key) = client
        .finish(&response, &ClientRegistrationFinishParameters::default())
        .unwrap();
    (ServerRegistration::finish(upload), export_key)
}

#[test]
fn test_x25519() -> Result<(), ProtocolError> {
    const PASSWORD: &[u8] = b"1234";
    let password = PASSWORD.to_vec();

    let server_setup = ServerSetup::new()?;

    let (message, client) = ClientRegistration::start(&password)?;
    let message = ServerRegistration::start(&server_setup, &message, &Vec::new())?;
    let (message, register_export_key) =
        client.finish(&message, &ClientRegistrationFinishParameters::default())?;
    let server_registration = ServerRegistration::finish(message);

    let (message, client) = ClientLogin::start(&password)?;
    let (message, server) = ServerLogin::start(
        &server_setup,
        Some(server_registration),
        &message,
        &Vec::new(),
    )?;
    let (message, client_session_key, login_export_key) =
        client.finish(&message, &ClientLoginFinishParameters::default())?;
    let server_session_key = server.finish(&message)?;

    assert_eq!(register_export_key, login_export_key);
    assert_eq!(client_session_key, server_session_key);

    let (message, client) = ClientLogin::start(&password)?;
    let (message, _) = ServerLogin::start(&server_setup, None, &message, &Vec::new())?;

    assert!(matches!(
        client.finish(&message, &ClientLoginFinishParameters::default()),
        Err(ProtocolError::InvalidLoginError)
    ));

    Ok(())
}

#[test]
fn undecodable_group_element_is_a_point_error() {
    let server_setup = ServerSetup::new().unwrap();
    // All-ones bytes are a non-canonical field encoding: not decodable, yet
    // not the identity either.
    let request = RegistrationRequest { alpha: vec![0xffu8; 32] };
    assert!(matches!(
        ServerRegistration::start(&server_setup, &request, &Vec::new()),
        Err(ProtocolError::LibraryError(InternalError::PointError))
    ));
}

#[test]
fn login_with_wrong_password_fails_like_unknown_identity() {
    let server_setup = ServerSetup::new().unwrap();
    let (record, _) = register(&server_setup, b"correct horse");

    // Wrong password against the stored record.
    let wrong = b"battery staple".to_vec();
    let (ke1, client) = ClientLogin::start(&wrong).unwrap();
    let (ke2, _) = ServerLogin::start(&server_setup, Some(record), &ke1, &Vec::new()).unwrap();
    let wrong_password = client.finish(&ke2, &ClientLoginFinishParameters::default());
    assert!(matches!(wrong_password, Err(ProtocolError::InvalidLoginError)));

    // Right password against no record at all.
    let right = b"correct horse".to_vec();
    let (ke1, client) = ClientLogin::start(&right).unwrap();
    let (ke2, _) = ServerLogin::start(&server_setup, None, &ke1, &Vec::new()).unwrap();
    let unknown_identity = client.finish(&ke2, &ClientLoginFinishParameters::default());
    assert!(matches!(unknown_identity, Err(ProtocolError::InvalidLoginError)));
}

#[test]
fn server_rejects_wrong_client_mac() {
    let password = b"hunter2".to_vec();
    let server_setup = ServerSetup::new().unwrap();
    let (record, _) = register(&server_setup, b"hunter2");

    let (ke1, client) = ClientLogin::start(&password).unwrap();
    let (ke2, server) =
        ServerLogin::start(&server_setup, Some(record), &ke1, &Vec::new()).unwrap();
    let (mut ke3, _, _) = client
        .finish(&ke2, &ClientLoginFinishParameters::default())
        .unwrap();
    ke3.mac[0] ^= 1;
    assert!(matches!(
        server.finish(&ke3),
        Err(ProtocolError::InvalidLoginError)
    ));
}

#[test]
fn reflected_oprf_element_is_rejected() {
    let password = b"1234".to_vec();
    let (ke1, client) = ClientLogin::start(&password).unwrap();

    // A deliberately faulty server echoes the client's own blinded element
    // back as the evaluated element.
    let response = CredentialResponse {
        beta: ke1.alpha.clone(),
        server_s_pk: vec![7u8; 32],
        envelope: opaque_ke::envelope::Envelope {
            mode: EnvelopeMode::Base,
            nonce: vec![1u8; 32],
            ciphertext: vec![2u8; 32],
            tag: vec![3u8; 64],
        },
        server_nonce: vec![4u8; 32],
        server_e_pk: vec![5u8; 32],
        mac: vec![6u8; 64],
    };
    assert!(matches!(
        client.finish(&response, &ClientLoginFinishParameters::default()),
        Err(ProtocolError::ReflectedValueError)
    ));
}

#[test]
fn custom_identifier_registration_and_login_succeed() {
    let password = b"s3cret".to_vec();
    let server_setup = ServerSetup::new().unwrap();

    let params = ClientRegistrationFinishParameters {
        mode: EnvelopeMode::CustomIdentifier,
        id_client: b"alice".to_vec(),
        id_server: b"server.example".to_vec(),
    };
    let (request, client) = ClientRegistration::start(&password).unwrap();
    let response = ServerRegistration::start(&server_setup, &request, &Vec::new()).unwrap();
    let (upload, register_export_key) = client.finish(&response, &params).unwrap();
    let record = ServerRegistration::finish(upload);

    let login_params = ClientLoginFinishParameters {
        mode: EnvelopeMode::CustomIdentifier,
        id_client: b"alice".to_vec(),
        id_server: b"server.example".to_vec(),
    };
    let (ke1, client) = ClientLogin::start(&password).unwrap();
    let (ke2, server) =
        ServerLogin::start(&server_setup, Some(record), &ke1, &Vec::new()).unwrap();
    let (ke3, client_session_key, login_export_key) =
        client.finish(&ke2, &login_params).unwrap();
    let server_session_key = server.finish(&ke3).unwrap();

    assert_eq!(register_export_key, login_export_key);
    assert_eq!(client_session_key, server_session_key);
}

#[test]
fn login_with_wrong_custom_identifier_fails() {
    let password = b"s3cret".to_vec();
    let server_setup = ServerSetup::new().unwrap();

    let params = ClientRegistrationFinishParameters {
        mode: EnvelopeMode::CustomIdentifier,
        id_client: b"alice".to_vec(),
        id_server: b"server.example".to_vec(),
    };
    let (request, client) = ClientRegistration::start(&password).unwrap();
    let response = ServerRegistration::start(&server_setup, &request, &Vec::new()).unwrap();
    let (upload, _) = client.finish(&response, &params).unwrap();
    let record = ServerRegistration::finish(upload);

    let login_params = ClientLoginFinishParameters {
        mode: EnvelopeMode::CustomIdentifier,
        id_client: b"mallory".to_vec(),
        id_server: b"server.example".to_vec(),
    };
    let (ke1, client) = ClientLogin::start(&password).unwrap();
    let (ke2, _) = ServerLogin::start(&server_setup, Some(record), &ke1, &Vec::new()).unwrap();
    assert!(matches!(
        client.finish(&ke2, &login_params),
        Err(ProtocolError::InvalidLoginError)
    ));
}

#[test]
fn honest_exchange_agrees_on_all_keys() {
    let password = b"a modest password".to_vec();
    let id = b"user@example".to_vec();
    let (client_session_key, server_session_key, register_export_key, login_export_key) =
        opaque_ke::opaque::run_registration_and_login(&password, &id).unwrap();
    assert_eq!(client_session_key, server_session_key);
    assert_eq!(register_export_key, login_export_key);
    assert_eq!(client_session_key.len(), 64);
    assert_ne!(client_session_key, register_export_key);
}

#[test]
fn session_keys_differ_between_exchanges() {
    let password = b"1234".to_vec();
    let server_setup = ServerSetup::new().unwrap();
    let (record_a, _) = register(&server_setup, b"1234");
    let (record_b, _) = register(&server_setup, b"1234");

    let mut keys = Vec::new();
    for record in [record_a, record_b] {
        let (ke1, client) = ClientLogin::start(&password).unwrap();
        let (ke2, server) =
            ServerLogin::start(&server_setup, Some(record), &ke1, &Vec::new()).unwrap();
        let (ke3, client_session_key, _) = client
            .finish(&ke2, &ClientLoginFinishParameters::default())
            .unwrap();
        let server_session_key = server.finish(&ke3).unwrap();
        assert_eq!(client_session_key, server_session_key);
        keys.push(client_session_key);
    }
    assert_ne!(keys[0], keys[1]);
}
