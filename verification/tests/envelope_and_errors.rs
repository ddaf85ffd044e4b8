//! Tests of the envelope seal/open cycle and of the error taxonomy.

use opaque_ke::envelope::Envelope;
use opaque_ke::envelope::EnvelopeMode;
use opaque_ke::errors::check_slice_size;
use opaque_ke::errors::check_slice_size_atleast;
use opaque_ke::errors::InternalError;
use opaque_ke::errors::ProtocolError;

#[test]
fn seal_then_open_returns_the_sealed_key_and_export_key() {
    let rw = vec![0x11u8; 64];
    let sk = (0..32).collect::<Vec<u8>>();
    let aad = b"aad".to_vec();
    let (envelope, export_key) = Envelope::seal(&rw, EnvelopeMode::Base, &sk, &aad);
    let (opened_sk, opened_export) = envelope.open(&rw, EnvelopeMode::Base, &aad).unwrap();
    assert_eq!(opened_sk, sk);
    assert_eq!(opened_export, export_key);
    assert_eq!(export_key.len(), 64);
    // The ciphertext is masked: it is not the key itself.
    assert_ne!(envelope.ciphertext, sk);
}

#[test]
fn open_with_wrong_mode_fails_before_anything_else() {
    let rw = vec![0x11u8; 64];
    let sk = vec![0x22u8; 32];
    let aad = Vec::new();
    let (envelope, _) = Envelope::seal(&rw, EnvelopeMode::Base, &sk, &aad);
    // Even with a wrong randomized password, the mode mismatch is what is
    // reported: no tag comparison happens first.
    let wrong_rw = vec![0x33u8; 64];
    assert!(matches!(
        envelope.open(&wrong_rw, EnvelopeMode::CustomIdentifier, &aad),
        Err(InternalError::IncompatibleEnvelopeModeError)
    ));
}

#[test]
fn open_with_wrong_password_or_tampered_tag_fails_the_hmac_check() {
    let rw = vec![0x11u8; 64];
    let sk = vec![0x22u8; 32];
    let aad = b"binding".to_vec();
    let (mut envelope, _) = Envelope::seal(&rw, EnvelopeMode::Base, &sk, &aad);

    let wrong_rw = vec![0x33u8; 64];
    assert!(matches!(
        envelope.open(&wrong_rw, EnvelopeMode::Base, &aad),
        Err(InternalError::SealOpenHmacError)
    ));
    assert!(matches!(
        envelope.open(&rw, EnvelopeMode::Base, &b"other".to_vec()),
        Err(InternalError::SealOpenHmacError)
    ));

    envelope.tag[5] ^= 1;
    assert!(matches!(
        envelope.open(&rw, EnvelopeMode::Base, &aad),
        Err(InternalError::SealOpenHmacError)
    ));
}

#[test]
fn malformed_envelope_structure_is_rejected() {
    let rw = vec![0x11u8; 64];
    let sk = vec![0x22u8; 32];
    let (mut envelope, _) = Envelope::seal(&rw, EnvelopeMode::Base, &sk, &Vec::new());
    envelope.nonce.pop();
    assert!(matches!(
        envelope.open(&rw, EnvelopeMode::Base, &Vec::new()),
        Err(InternalError::InvalidInnerEnvelopeError)
    ));
}

#[test]
fn check_slice_size_reports_expected_and_actual_lengths() {
    let bytes = [0u8; 3];
    let ok: Result<&[u8], InternalError> = check_slice_size(&bytes, 3, "nonce");
    assert_eq!(ok.unwrap(), &bytes[..]);

    let err: Result<&[u8], InternalError> = check_slice_size(&bytes, 5, "nonce");
    assert_eq!(
        err.unwrap_err(),
        InternalError::SizeError { name: "nonce", len: 5, actual_len: 3 }
    );
}

#[test]
fn check_slice_size_atleast_accepts_longer_slices() {
    let bytes = [0u8; 8];
    assert!(check_slice_size_atleast(&bytes, 5, "tag").is_ok());
    assert_eq!(
        check_slice_size_atleast(&bytes, 9, "tag").unwrap_err(),
        InternalError::SizeError { name: "tag", len: 9, actual_len: 8 }
    );
}

#[derive(Debug, PartialEq, Eq, Clone)]
struct HostError(u32);

#[test]
fn into_custom_keeps_the_error_payloadless_variants() {
    let e: InternalError = InternalError::SealOpenHmacError;
    let c: InternalError<HostError> = e.into_custom();
    assert_eq!(c, InternalError::SealOpenHmacError);

    let e: InternalError = InternalError::SizeError { name: "alpha", len: 32, actual_len: 7 };
    let c: InternalError<HostError> = e.into_custom();
    assert_eq!(c, InternalError::SizeError { name: "alpha", len: 32, actual_len: 7 });

    let p: ProtocolError = ProtocolError::LibraryError(InternalError::PointError);
    let c: ProtocolError<HostError> = p.into_custom();
    assert_eq!(c, ProtocolError::LibraryError(InternalError::PointError));

    let p: ProtocolError = ProtocolError::ReflectedValueError;
    let c: ProtocolError<HostError> = p.into_custom();
    assert_eq!(c, ProtocolError::ReflectedValueError);
}

#[test]
fn voprf_errors_convert_into_both_tiers() {
    let internal: InternalError = voprf::errors::InternalError::PointError.into();
    assert_eq!(
        internal,
        InternalError::OprfError(voprf::errors::InternalError::PointError)
    );
    let protocol: ProtocolError = voprf::errors::InternalError::PointError.into();
    assert_eq!(
        protocol,
        ProtocolError::LibraryError(InternalError::OprfError(
            voprf::errors::InternalError::PointError
        ))
    );
    let wrapped: ProtocolError = ProtocolError::from(InternalError::HkdfError);
    assert_eq!(wrapped, ProtocolError::LibraryError(InternalError::HkdfError));
}
