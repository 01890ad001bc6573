use passkey_core::attestation::none_attestation_object;
use passkey_core::auth_data::{encode_auth_data, flags_byte, rp_id_hash, AttestedCredentialData};
use passkey_core::authenticator::{
    packed_self_attestation,
    select_algorithm, Authenticator, GetAssertionRequest, MakeCredentialRequest, NewCredentialKey,
    ES256,
};
use passkey_core::client::{
    uv_option, Client, CredentialCreationOptions, CredentialRequestOptions, RpOptions,
    UserVerificationRequirement,
};
use passkey_core::client_data::client_data_json;
use passkey_core::rp_id::{DefaultSuffixList, Origin, RpIdVerifier};
use passkey_core::store::MemoryStore;
use passkey_core::types::{
    Ctap2Error, Options, Passkey, PublicKeyCredentialRpEntity, PublicKeyCredentialUserEntity,
    WebauthnError,
};
use passkey_core::user_validation::{
    HintKind, MockUIHint, MockUserValidationMethod, UIHint, UserCheck, UserValidationMethod,
};
use passkey_crypto::coset::{iana, CborSerializable};
use passkey_crypto::rust_crypto::{RustCryptoBackend, RustCryptoSecretKey};
use passkey_crypto::{CryptoBackend, PublicKeyT, SecretKeyT};
use sha2::Digest;

fn sha256(data: &[u8]) -> Vec<u8> {
    sha2::Sha256::digest(data).to_vec()
}

fn key_from(secret: &RustCryptoSecretKey, credential_id: Vec<u8>) -> NewCredentialKey {
    NewCredentialKey {
        credential_id,
        private_key: secret.to_cose_key().to_vec().unwrap(),
        public_key: secret.public_key().to_cose_key().to_vec().unwrap(),
    }
}

fn es256() -> RustCryptoSecretKey {
    RustCryptoBackend.generate_key(iana::Algorithm::ES256).unwrap()
}

fn key(id: u8) -> NewCredentialKey {
    key_from(&es256(), vec![id; 16])
}

fn user() -> PublicKeyCredentialUserEntity {
    PublicKeyCredentialUserEntity {
        id: vec![9u8; 4],
        name: Some("wendy".into()),
        display_name: Some("wendy".into()),
    }
}

fn rp(id: &str) -> PublicKeyCredentialRpEntity {
    PublicKeyCredentialRpEntity { id: id.into(), name: None }
}

fn make_request(rp_id: &str, exclude: Option<Vec<Vec<u8>>>) -> MakeCredentialRequest {
    MakeCredentialRequest {
        client_data_hash: vec![1u8; 32],
        rp: rp(rp_id),
        user: user(),
        pub_key_cred_params: vec![ES256],
        exclude_list: exclude,
        options: Options { rk: true, up: true, uv: false },
    }
}

fn assertion_request(rp_id: &str, allow: Option<Vec<Vec<u8>>>) -> GetAssertionRequest {
    GetAssertionRequest {
        rp_id: rp_id.into(),
        client_data_hash: vec![2u8; 32],
        allow_list: allow,
        options: Options { rk: false, up: true, uv: false },
    }
}

fn present_user() -> MockUserValidationMethod {
    MockUserValidationMethod::with_outcome(
        None,
        true,
        UserCheck { presence: true, verification: false },
        usize::MAX,
    )
}

#[test]
fn flags_byte_sets_bits() {
    assert_eq!(flags_byte(true, false, false), 0x01);
    assert_eq!(flags_byte(true, true, false), 0x05);
    assert_eq!(flags_byte(true, true, true), 0x45);
    assert_eq!(flags_byte(false, false, false), 0x00);
}

#[test]
fn auth_data_layout_is_exact() {
    let hash = vec![0x11u8; 32];
    let attested = AttestedCredentialData {
        aaguid: vec![0x22u8; 16],
        credential_id: vec![0x33u8; 3],
        public_key: vec![0x44u8, 0x55],
    }
    .to_bytes();
    let mut expected_attested = vec![0x22u8; 16];
    expected_attested.extend_from_slice(&[0x00, 0x03, 0x33, 0x33, 0x33, 0x44, 0x55]);
    assert_eq!(attested, expected_attested);

    let data = encode_auth_data(&hash, 0x41, 0x01020304, Some(&attested));
    let mut expected = vec![0x11u8; 32];
    expected.extend_from_slice(&[0x41, 0x01, 0x02, 0x03, 0x04]);
    expected.extend_from_slice(&expected_attested);
    assert_eq!(data, expected);
    assert_eq!(rp_id_hash(&data), hash);

    let short = encode_auth_data(&hash, 0x01, 0, None);
    assert_eq!(short.len(), 37);
    assert_eq!(&short[32..], &[0x01, 0, 0, 0, 0]);
}

#[test]
fn select_algorithm_prefers_es256() {
    assert_eq!(select_algorithm(&vec![]), Some(ES256));
    assert_eq!(select_algorithm(&vec![-8, ES256]), Some(ES256));
    assert_eq!(select_algorithm(&vec![-8, -257]), None);
}

#[test]
fn uv_option_follows_policy_table() {
    assert_eq!(uv_option(UserVerificationRequirement::Required, Some(true)), Ok(true));
    assert_eq!(uv_option(UserVerificationRequirement::Required, Some(false)), Err(WebauthnError::NotSupported));
    assert_eq!(uv_option(UserVerificationRequirement::Required, None), Err(WebauthnError::NotSupported));
    assert_eq!(uv_option(UserVerificationRequirement::Preferred, Some(true)), Ok(true));
    assert_eq!(uv_option(UserVerificationRequirement::Preferred, Some(false)), Ok(false));
    assert_eq!(uv_option(UserVerificationRequirement::Preferred, None), Ok(false));
    assert_eq!(uv_option(UserVerificationRequirement::Discouraged, Some(true)), Ok(false));
}

#[test]
fn client_data_json_is_exact_and_escaped() {
    let extra = vec![("k".to_string(), "a\"b\\c\nd".to_string())];
    let json = client_data_json("webauthn.create", "AAEC", "https://example.com", &extra);
    assert_eq!(
        String::from_utf8(json).unwrap(),
        "{\"type\":\"webauthn.create\",\"challenge\":\"AAEC\",\"origin\":\"https://example.com\",\"crossOrigin\":false,\"k\":\"a\\\"b\\\\c\\nd\"}"
    );
    let plain = client_data_json("webauthn.get", "", "o", &Vec::new());
    assert_eq!(
        String::from_utf8(plain).unwrap(),
        "{\"type\":\"webauthn.get\",\"challenge\":\"\",\"origin\":\"o\",\"crossOrigin\":false}"
    );
}

#[test]
fn store_rejects_duplicate_credentials() {
    let mut store = MemoryStore::new();
    let p = Passkey {
        key: vec![1],
        rp_id: "example.com".into(),
        credential_id: vec![1, 2, 3],
        user_handle: None,
        counter: None,
    };
    assert_eq!(store.save_credential(p.copy()), Ok(()));
    assert_eq!(store.save_credential(p.copy()), Err(Ctap2Error::Other));
    let mut other_rp = p.copy();
    other_rp.rp_id = "example.org".into();
    assert_eq!(store.save_credential(other_rp), Ok(()));
    assert_eq!(store.len(), 2);
    assert!(store.contains("example.com", &vec![1, 2, 3]));
    assert!(!store.contains("example.net", &vec![1, 2, 3]));
}

#[test]
fn excluded_credential_is_not_created_and_is_shown() {
    let mut auth = Authenticator::new(vec![0u8; 16], MemoryStore::new(), present_user());
    auth.make_credential(&make_request("example.com", None), key(1)).unwrap();
    let res = auth.make_credential(&make_request("example.com", Some(vec![vec![1u8; 16]])), key(2));
    assert!(matches!(res, Err(Ctap2Error::CredentialExcluded)));
    assert_eq!(auth.store.len(), 1);
    assert_eq!(
        auth.user.shown(),
        vec![HintKind::RequestNewCredential, HintKind::InformExcludedCredentialFound]
    );
    // The same credential ID under another RP ID does not exclude.
    let ok = auth.make_credential(&make_request("example.org", Some(vec![vec![1u8; 16]])), key(3));
    assert!(ok.is_ok());
    assert_eq!(auth.store.len(), 2);
}

#[test]
fn empty_candidate_set_reports_no_credentials() {
    let mut auth = Authenticator::new(vec![0u8; 16], MemoryStore::new(), present_user());
    let res = auth.get_assertion(&assertion_request("example.com", None));
    assert!(matches!(res, Err(Ctap2Error::NoCredentials)));
    assert_eq!(auth.user.shown(), vec![HintKind::InformNoCredentialsFound]);

    auth.make_credential(&make_request("example.com", None), key(1)).unwrap();
    let res = auth.get_assertion(&assertion_request("example.com", Some(vec![vec![9u8; 16]])));
    assert!(matches!(res, Err(Ctap2Error::NoCredentials)));
}

#[test]
fn counter_grows_across_assertions() {
    let mut auth = Authenticator::new_with_counter(vec![0u8; 16], MemoryStore::new(), present_user(), true);
    auth.make_credential(&make_request("example.com", None), key(1)).unwrap();
    let first = auth.get_assertion(&assertion_request("example.com", None)).unwrap();
    let second = auth.get_assertion(&assertion_request("example.com", None)).unwrap();
    assert_eq!(&first.auth_data[33..37], &[0, 0, 0, 1]);
    assert_eq!(&second.auth_data[33..37], &[0, 0, 0, 2]);
    assert_eq!(second.credential_id, vec![1u8; 16]);
    // A single discoverable candidate: no user handle.
    assert_eq!(second.user_handle, None);
    let mut signed = second.auth_data.clone();
    signed.extend_from_slice(&[2u8; 32]);
    assert_eq!(second.signed_data, signed);
    assert_eq!(&second.auth_data[..32], &sha256(b"example.com")[..]);
}

#[test]
fn counter_absent_sends_zero() {
    let mut auth = Authenticator::new(vec![0u8; 16], MemoryStore::new(), present_user());
    auth.make_credential(&make_request("example.com", None), key(1)).unwrap();
    let a = auth.get_assertion(&assertion_request("example.com", Some(vec![vec![1u8; 16]]))).unwrap();
    let b = auth.get_assertion(&assertion_request("example.com", Some(vec![vec![1u8; 16]]))).unwrap();
    assert_eq!(&a.auth_data[33..37], &[0, 0, 0, 0]);
    assert_eq!(&b.auth_data[33..37], &[0, 0, 0, 0]);
    assert_eq!(b.user_handle, None);
}

#[test]
fn uv_request_without_uv_capability_is_invalid_option() {
    let mut auth = Authenticator::new(vec![0u8; 16], MemoryStore::new(), present_user());
    let mut req = make_request("example.com", None);
    req.options.uv = true;
    assert!(matches!(auth.make_credential(&req, key(1)), Err(Ctap2Error::InvalidOption)));
    assert!(auth.user.shown().is_empty());
}

#[test]
fn missing_rp_id_and_unsupported_algorithm() {
    let mut auth = Authenticator::new(vec![0u8; 16], MemoryStore::new(), present_user());
    assert!(matches!(
        auth.make_credential(&make_request("", None), key(1)),
        Err(Ctap2Error::MissingParameter)
    ));
    let mut req = make_request("example.com", None);
    req.pub_key_cred_params = vec![-257];
    assert!(matches!(auth.make_credential(&req, key(1)), Err(Ctap2Error::UnsupportedAlgorithm)));
}

#[test]
fn denied_presence_is_operation_denied() {
    let absent = MockUserValidationMethod::with_outcome(
        Some(true),
        true,
        UserCheck { presence: false, verification: false },
        usize::MAX,
    );
    let mut auth = Authenticator::new(vec![0u8; 16], MemoryStore::new(), absent);
    assert!(matches!(
        auth.make_credential(&make_request("example.com", None), key(1)),
        Err(Ctap2Error::OperationDenied)
    ));
    assert_eq!(auth.store.len(), 0);
}

#[test]
fn make_credential_auth_data_carries_key() {
    let mut auth = Authenticator::new(vec![0x5Au8; 16], MemoryStore::new(), present_user());
    let k = key(4);
    let public_key = k.public_key.clone();
    let resp = auth.make_credential(&make_request("example.com", None), k).unwrap();
    assert_eq!(&resp.auth_data[..32], &sha256(b"example.com")[..]);
    assert_eq!(resp.auth_data[32], 0x41);
    assert_eq!(&resp.auth_data[33..37], &[0, 0, 0, 0]);
    assert_eq!(&resp.auth_data[37..53], &[0x5Au8; 16]);
    assert_eq!(&resp.auth_data[53..55], &[0, 16]);
    assert_eq!(&resp.auth_data[55..71], &[4u8; 16]);
    assert_eq!(&resp.auth_data[71..], &public_key[..]);
}

#[test]
fn required_uv_without_capability_never_checks_user() {
    for enabled in [None, Some(false)] {
        let mock = MockUserValidationMethod::with_outcome(
            enabled,
            true,
            UserCheck { presence: true, verification: true },
            usize::MAX,
        );
        let mut client = Client::new(Authenticator::new(vec![0u8; 16], MemoryStore::new(), mock));
        let origin = Origin::parse("https://example.com").unwrap();
        let options = CredentialCreationOptions {
            rp: RpOptions { id: None, name: "example".into() },
            user: user(),
            challenge: vec![1, 2, 3],
            pub_key_cred_params: vec![],
            exclude_credentials: None,
            user_verification: UserVerificationRequirement::Required,
            resident_key: false,
        };
        let res = client.register(&origin, options, &Vec::new(), key(1));
        assert!(matches!(res, Err(WebauthnError::NotSupported)));
        let req = CredentialRequestOptions {
            challenge: vec![1],
            rp_id: None,
            allow_credentials: None,
            user_verification: UserVerificationRequirement::Required,
        };
        let res = client.authenticate(&origin, req, &Vec::new());
        assert!(matches!(res, Err(WebauthnError::NotSupported)));
        assert!(client.authenticator.user.shown().is_empty());
        assert_eq!(client.authenticator.store.len(), 0);
    }
}

#[test]
fn registration_id_is_base64url_of_credential_id() {
    let mut client = Client::new(Authenticator::new(vec![0u8; 16], MemoryStore::new(), present_user()));
    let origin = Origin::parse("https://future.1password.com").unwrap();
    let options = CredentialCreationOptions {
        rp: RpOptions { id: Some("future.1password.com".into()), name: "f".into() },
        user: user(),
        challenge: vec![3u8; 32],
        pub_key_cred_params: vec![ES256],
        exclude_credentials: None,
        user_verification: UserVerificationRequirement::Discouraged,
        resident_key: false,
    };
    let k = NewCredentialKey {
        credential_id: (1u8..=16).collect(),
        private_key: vec![1],
        public_key: vec![2],
    };
    let cred = client.register(&origin, options, &Vec::new(), k).unwrap();
    assert_eq!(cred.id, "AQIDBAUGBwgJCgsMDQ4PEA");
    let json = String::from_utf8(cred.client_data_json).unwrap();
    assert_eq!(
        json,
        "{\"type\":\"webauthn.create\",\"challenge\":\"AwMDAwMDAwMDAwMDAwMDAwMDAwMDAwMDAwMDAwMDAwM\",\"origin\":\"https://future.1password.com\",\"crossOrigin\":false}"
    );
}

#[test]
fn origin_parse_and_errors() {
    let o = Origin::parse("http://localhost:8080").unwrap();
    assert_eq!(o.scheme, "http");
    assert_eq!(o.host, "localhost");
    assert_eq!(o.serialization, "http://localhost:8080");
    assert!(matches!(Origin::parse("not a url"), Err(WebauthnError::InvalidOrigin)));
    let v = RpIdVerifier::new(DefaultSuffixList);
    let o = Origin::parse("https://Example.COM").unwrap();
    assert_eq!(v.assert_domain(&o, Some("EXAMPLE.com")), Ok("EXAMPLE.com".to_string()));
    let o = Origin::parse("https://notexample.com").unwrap();
    assert_eq!(v.assert_domain(&o, Some("example.com")), Err(WebauthnError::OriginRpMissmatch));
}

#[test]
fn mock_with_hint_answers_only_matching_hint() {
    let expected = MockUIHint::InformNoCredentialsFound;
    let mut mock = MockUserValidationMethod::verified_user_with_hint(1, expected);
    let p = Passkey {
        key: vec![1],
        rp_id: "example.com".into(),
        credential_id: vec![1],
        user_handle: None,
        counter: None,
    };
    assert_eq!(
        mock.check_user(UIHint::RequestExistingCredential(&p), true, true),
        Err(Ctap2Error::OperationDenied)
    );
    assert_eq!(
        mock.check_user(UIHint::InformNoCredentialsFound, true, true),
        Ok(UserCheck { presence: true, verification: true })
    );
    // Only one answer was scripted.
    assert_eq!(
        mock.check_user(UIHint::InformNoCredentialsFound, true, true),
        Err(Ctap2Error::OperationDenied)
    );
    assert_eq!(mock.is_verification_enabled(), Some(true));
    assert!(mock.is_presence_enabled());
}

#[test]
fn verified_user_requires_presence_and_verification() {
    let mut mock = MockUserValidationMethod::verified_user(5);
    assert_eq!(
        mock.check_user(UIHint::InformNoCredentialsFound, true, false),
        Err(Ctap2Error::OperationDenied)
    );
    assert_eq!(
        mock.check_user(UIHint::InformNoCredentialsFound, true, true),
        Ok(UserCheck { presence: true, verification: true })
    );
    assert_eq!(mock.shown().len(), 2);
}

#[test]
fn mock_hint_for_new_credential_compares_entities() {
    let options = Options { rk: false, up: true, uv: true };
    let expected = MockUIHint::RequestNewCredential(user(), rp("example.com"), options);
    let mut mock = MockUserValidationMethod::verified_user_with_hint(2, expected);
    let u = user();
    let r = rp("example.com");
    let other = rp("example.org");
    assert!(mock.check_user(UIHint::RequestNewCredential(&u, &r, &options), true, true).is_ok());
    assert!(mock.check_user(UIHint::RequestNewCredential(&u, &other, &options), true, true).is_err());
}

#[test]
fn none_attestation_object_is_canonical_cbor() {
    let mut expected = vec![0xA3u8, 0x63];
    expected.extend_from_slice(b"fmt");
    expected.push(0x64);
    expected.extend_from_slice(b"none");
    expected.push(0x67);
    expected.extend_from_slice(b"attStmt");
    expected.push(0xA0);
    expected.push(0x68);
    expected.extend_from_slice(b"authData");
    let short = vec![1u8, 2, 3];
    let mut want = expected.clone();
    want.push(0x43);
    want.extend_from_slice(&short);
    assert_eq!(none_attestation_object(&short), want);

    let long = vec![7u8; 37];
    let mut want = expected.clone();
    want.extend_from_slice(&[0x58, 37]);
    want.extend_from_slice(&long);
    assert_eq!(none_attestation_object(&long), want);

    let longer = vec![7u8; 300];
    let mut want = expected;
    want.extend_from_slice(&[0x59, 0x01, 0x2C]);
    want.extend_from_slice(&longer);
    assert_eq!(none_attestation_object(&longer), want);
}

#[test]
fn get_info_reports_capabilities() {
    let auth = Authenticator::new(vec![0x10u8; 16], MemoryStore::new(), present_user());
    let info = auth.get_info();
    assert_eq!(info.versions, vec!["FIDO_2_0".to_string(), "FIDO_2_1".to_string()]);
    assert_eq!(info.aaguid, vec![0x10u8; 16]);
    assert!(info.rk);
    assert!(info.up);
    assert_eq!(info.uv, None);
    assert_eq!(info.algorithms, vec![ES256]);
    assert_eq!(info.transports, vec!["internal".to_string()]);
    assert!(info.extensions.is_empty());
    let auth = Authenticator::new(vec![0u8; 16], MemoryStore::new(), MockUserValidationMethod::verified_user(0));
    assert_eq!(auth.get_info().uv, Some(true));
}

fn stored(rp_id: &str, id: u8) -> Passkey {
    Passkey {
        key: vec![id],
        rp_id: rp_id.into(),
        credential_id: vec![id],
        user_handle: None,
        counter: Some(0),
    }
}

#[test]
fn find_and_update_credentials() {
    let mut store = MemoryStore::new();
    store.save_credential(stored("a.com", 1)).unwrap();
    store.save_credential(stored("b.com", 2)).unwrap();
    store.save_credential(stored("a.com", 3)).unwrap();
    let all_a = store.find_credentials(None, "a.com");
    assert_eq!(all_a.iter().map(|p| p.credential_id[0]).collect::<Vec<_>>(), vec![1, 3]);
    let some = store.find_credentials(Some(&vec![vec![3u8], vec![2u8]]), "a.com");
    assert_eq!(some.iter().map(|p| p.credential_id[0]).collect::<Vec<_>>(), vec![3]);
    assert!(store.find_credentials(Some(&vec![]), "a.com").is_empty());

    let mut bumped = stored("a.com", 3);
    bumped.counter = Some(9);
    assert_eq!(store.update_credential(bumped), Ok(()));
    assert_eq!(store.get(2).counter, Some(9));
    assert_eq!(store.update_credential(stored("c.com", 3)), Err(Ctap2Error::Other));
}

#[test]
fn registration_returns_attestation_object() {
    let mut client = Client::new(Authenticator::new(vec![0u8; 16], MemoryStore::new(), present_user()));
    let origin = Origin::parse("https://example.com").unwrap();
    let options = CredentialCreationOptions {
        rp: RpOptions { id: Some("example.com".into()), name: "e".into() },
        user: user(),
        challenge: vec![1],
        pub_key_cred_params: vec![ES256],
        exclude_credentials: None,
        user_verification: UserVerificationRequirement::Preferred,
        resident_key: true,
    };
    let cred = client.register(&origin, options, &Vec::new(), key(8)).unwrap();
    assert_eq!(cred.attestation_object, none_attestation_object(&cred.authenticator_data));
    assert_eq!(cred.authenticator_data[32], 0x41);
}

#[test]
fn assertion_signature_verifies_under_stored_public_key() {
    let secret = es256();
    let mut auth = Authenticator::new(vec![0u8; 16], MemoryStore::new(), present_user());
    auth.make_credential(&make_request("example.com", None), key_from(&secret, vec![6u8; 16]))
        .unwrap();
    let res = auth.get_assertion(&assertion_request("example.com", None)).unwrap();
    assert!(secret.public_key().verify(&res.signed_data, &res.signature).is_ok());
    let mut tampered = res.signed_data.clone();
    tampered[0] ^= 1;
    assert!(secret.public_key().verify(&tampered, &res.signature).is_err());
}

#[test]
fn unusable_private_key_fails_assertion_with_other() {
    let mut auth = Authenticator::new(vec![0u8; 16], MemoryStore::new(), present_user());
    let junk = NewCredentialKey {
        credential_id: vec![1u8; 16],
        private_key: vec![0xAA; 4],
        public_key: vec![0xBB; 4],
    };
    auth.make_credential(&make_request("example.com", None), junk).unwrap();
    let res = auth.get_assertion(&assertion_request("example.com", None));
    assert!(matches!(res, Err(Ctap2Error::Other)));
}

#[test]
fn user_handle_returned_when_several_discoverable_candidates() {
    let mut auth = Authenticator::new(vec![0u8; 16], MemoryStore::new(), present_user());
    auth.make_credential(&make_request("example.com", None), key(1)).unwrap();
    auth.make_credential(&make_request("example.com", None), key(2)).unwrap();
    let res = auth.get_assertion(&assertion_request("example.com", None)).unwrap();
    assert_eq!(res.credential_id, vec![1u8; 16]);
    assert_eq!(res.user_handle, Some(vec![9u8; 4]));
    let listed = auth
        .get_assertion(&assertion_request("example.com", Some(vec![vec![2u8; 16]])))
        .unwrap();
    assert_eq!(listed.credential_id, vec![2u8; 16]);
    assert_eq!(listed.user_handle, None);
}

#[test]
fn counter_saturates_at_maximum() {
    let secret = es256();
    let mut store = MemoryStore::new();
    store
        .save_credential(Passkey {
            key: secret.to_cose_key().to_vec().unwrap(),
            rp_id: "example.com".into(),
            credential_id: vec![1u8; 16],
            user_handle: None,
            counter: Some(u32::MAX),
        })
        .unwrap();
    let mut auth = Authenticator::new(vec![0u8; 16], store, present_user());
    let res = auth.get_assertion(&assertion_request("example.com", None)).unwrap();
    assert_eq!(&res.auth_data[33..37], &[0xFF, 0xFF, 0xFF, 0xFF]);
    assert_eq!(auth.store.get(0).counter, Some(u32::MAX));
    assert!(secret.public_key().verify(&res.signed_data, &res.signature).is_ok());
}

#[test]
fn claimed_rp_id_is_judged_in_lower_case() {
    let v = RpIdVerifier::new(DefaultSuffixList);
    let o = Origin::parse("https://example.co.uk").unwrap();
    assert_eq!(v.assert_domain(&o, Some("CO.UK")), Err(WebauthnError::InvalidRpId));
    assert_eq!(v.assert_domain(&o, Some("co.uk")), Err(WebauthnError::InvalidRpId));
    assert_eq!(v.assert_domain(&o, Some("Example.CO.uk")), Ok("Example.CO.uk".to_string()));
}

#[test]
fn memory_store_is_always_discoverable() {
    use_store_info(MemoryStore::new().get_info());
}

fn use_store_info(info: passkey_core::store::StoreInfo) {
    assert_eq!(info.discoverability, passkey_core::store::Discoverability::Always);
}

#[test]
fn localhost_rule_reads_the_origin_host() {
    let v = RpIdVerifier::new(DefaultSuffixList).allows_insecure_localhost(true);
    let o = Origin::parse("https://foo.localhost").unwrap();
    // The host is not localhost, so the claimed RP ID goes through the suffix list.
    assert_eq!(v.assert_domain(&o, Some("localhost")), Err(WebauthnError::InvalidRpId));
    let strict = RpIdVerifier::new(DefaultSuffixList);
    assert_eq!(strict.assert_domain(&o, Some("localhost")), Err(WebauthnError::InvalidRpId));
}

#[test]
fn second_ceremony_is_denied_once_the_mock_budget_is_spent() {
    let mut client = Client::new(Authenticator::new(
        vec![0u8; 16],
        MemoryStore::new(),
        MockUserValidationMethod::verified_user(1),
    ));
    client.verifier = RpIdVerifier::new(DefaultSuffixList).allows_insecure_localhost(true);
    let origin = Origin::parse("http://localhost:8080").unwrap();
    let options = CredentialCreationOptions {
        rp: RpOptions { id: Some("localhost".into()), name: "l".into() },
        user: user(),
        challenge: vec![1],
        pub_key_cred_params: vec![],
        exclude_credentials: None,
        user_verification: UserVerificationRequirement::Preferred,
        resident_key: false,
    };
    let cred = client.register(&origin, options, &Vec::new(), key(1)).unwrap();
    assert_eq!(&cred.authenticator_data[..32], &sha256(b"localhost")[..]);
    let req = CredentialRequestOptions {
        challenge: vec![2],
        rp_id: None,
        allow_credentials: Some(vec![cred.raw_id]),
        user_verification: UserVerificationRequirement::Preferred,
    };
    let res = client.authenticate(&origin, req, &Vec::new());
    assert!(matches!(res, Err(WebauthnError::Authenticator(Ctap2Error::OperationDenied))));
    assert_eq!(client.authenticator.user.shown().len(), 2);
}

#[test]
fn fresh_credential_gets_random_id_and_working_key() {
    let mut auth = Authenticator::new(vec![0u8; 16], MemoryStore::new(), present_user());
    let a = auth.make_new_credential(&make_request("example.com", None)).unwrap();
    let b = auth.make_new_credential(&make_request("example.com", None)).unwrap();
    assert_eq!(a.credential_id.len(), 16);
    assert_eq!(b.credential_id.len(), 16);
    assert_ne!(a.credential_id, b.credential_id);
    assert_eq!(auth.store.len(), 2);
    assert_eq!(&a.auth_data[53..55], &[0, 16]);
    assert_eq!(&a.auth_data[55..71], &a.credential_id[..]);
    let res = auth
        .get_assertion(&assertion_request("example.com", Some(vec![a.credential_id.clone()])))
        .unwrap();
    assert_eq!(res.credential_id, a.credential_id);
    assert!(!res.signature.is_empty());
}

#[test]
fn packed_self_attestation_signs_auth_data_and_hash() {
    let secret = es256();
    let k = key_from(&secret, vec![3u8; 16]);
    let auth_data = vec![0x11u8; 37];
    let hash = vec![0x22u8; 32];
    let obj = packed_self_attestation(&k.private_key, &auth_data, &hash).unwrap();
    let mut prefix = vec![0xA3u8, 0x63];
    prefix.extend_from_slice(b"fmt");
    prefix.push(0x66);
    prefix.extend_from_slice(b"packed");
    prefix.push(0x67);
    prefix.extend_from_slice(b"attStmt");
    prefix.extend_from_slice(&[0xA2, 0x63]);
    prefix.extend_from_slice(b"alg");
    prefix.extend_from_slice(&[0x26, 0x63]);
    prefix.extend_from_slice(b"sig");
    assert_eq!(&obj[..prefix.len()], &prefix[..]);
    let sig_len = obj[prefix.len() + 1] as usize;
    assert_eq!(obj[prefix.len()], 0x58);
    let sig = &obj[prefix.len() + 2..prefix.len() + 2 + sig_len];
    let mut signed = auth_data.clone();
    signed.extend_from_slice(&hash);
    assert!(secret.public_key().verify(&signed, sig).is_ok());
    let rest = &obj[prefix.len() + 2 + sig_len..];
    let mut tail = vec![0x68u8];
    tail.extend_from_slice(b"authData");
    tail.extend_from_slice(&[0x58, 37]);
    tail.extend_from_slice(&auth_data);
    assert_eq!(rest, &tail[..]);
    assert!(packed_self_attestation(&vec![1, 2], &auth_data, &hash).is_none());
}
