use vstd::prelude::*;

use crate::attestation::{none_attestation_bytes, none_attestation_object};
use crate::auth_data::{attested_bytes, auth_data_bytes, has_flag, sha256, sha256_of, FLAG_UP};
use crate::authenticator::{
    assertion_auth_data, is_first_candidate, key_stored, opt_list_view, user_check_outcome,
    bump_counter, signature_of, is_excluded, select_algorithm_spec, sign_count, Authenticator, GetAssertionRequest,
    MakeCredentialRequest, NewCredentialKey,
};
use crate::client_data::{client_data_bytes, client_data_json, pairs_view, type_create, type_get};
use crate::rp_id::{domain_decision, DefaultSuffixList, Origin, RpIdVerifier};
use crate::store::{is_candidate, with_counter};
use crate::types::{
    opt_str_view, RpEntityView, Ctap2Error, Options, PasskeyView, PublicKeyCredentialRpEntity, PublicKeyCredentialUserEntity,
    WebauthnError,
};
use crate::user_validation::{one_more_check, same_script, MockUIHintView, UserValidationMethod};
use vstd::utf8::encode_utf8;

verus! {

/// The base64url digit for `n < 64`: `A`-`Z`, `a`-`z`, `0`-`9`, `-`, `_`.
pub open spec fn b64_digit(n: int) -> char {
    if n < 26 {
        (65 + n) as char
    } else if n < 52 {
        (97 + n - 26) as char
    } else if n < 62 {
        (48 + n - 52) as char
    } else if n == 62 {
        '-'
    } else {
        '_'
    }
}

/// Unpadded base64url: each group of three bytes becomes four digits; a final
/// group of one or two bytes becomes two or three digits.
pub open spec fn base64url_of(d: Seq<u8>) -> Seq<char>
    decreases d.len(),
{
    let a = d[0] as int;
    let b = if d.len() > 1 {
        d[1] as int
    } else {
        0
    };
    let c = if d.len() > 2 {
        d[2] as int
    } else {
        0
    };
    if d.len() == 0 {
        Seq::<char>::empty()
    } else if d.len() == 1 {
        seq![b64_digit(a / 4), b64_digit((a % 4) * 16)]
    } else if d.len() == 2 {
        seq![b64_digit(a / 4), b64_digit((a % 4) * 16 + b / 16), b64_digit((b % 16) * 4)]
    } else {
        seq![
            b64_digit(a / 4),
            b64_digit((a % 4) * 16 + b / 16),
            b64_digit((b % 16) * 4 + c / 64),
            b64_digit(c % 64),
        ] + base64url_of(d.subrange(3, d.len() as int))
    }
}

/// Relies on passkey_types's `encoding::base64url`: unpadded base64url of `data`
/// (data_encoding's `BASE64URL_NOPAD`).
#[verifier::external_body]
fn base64url(data: &[u8]) -> (r: String)
    ensures
        r@ == base64url_of(data@),
{
    passkey_types::encoding::base64url(data)
}

/// The relying party's user-verification requirement.
#[derive(Clone, Copy, PartialEq, Eq, Structural, Debug)]
pub enum UserVerificationRequirement {
    Required,
    Preferred,
    Discouraged,
}

/// The CTAP2 `uv` option for a requirement, given what the user-validation
/// method reports: `NotSupported` where verification is required and unavailable.
pub open spec fn uv_option_spec(req: UserVerificationRequirement, enabled: Option<bool>) -> Result<
    bool,
    WebauthnError,
> {
    match req {
        UserVerificationRequirement::Required => if enabled == Some(true) {
            Ok(true)
        } else {
            Err(WebauthnError::NotSupported)
        },
        UserVerificationRequirement::Preferred => Ok(enabled == Some(true)),
        UserVerificationRequirement::Discouraged => Ok(false),
    }
}

pub fn uv_option(req: UserVerificationRequirement, enabled: Option<bool>) -> (r: Result<bool, WebauthnError>)
    ensures
        r == uv_option_spec(req, enabled),
{
    let configured = match enabled {
        Some(true) => true,
        _ => false,
    };
    match req {
        UserVerificationRequirement::Required => if configured {
            Ok(true)
        } else {
            Err(WebauthnError::NotSupported)
        },
        UserVerificationRequirement::Preferred => Ok(configured),
        UserVerificationRequirement::Discouraged => Ok(false),
    }
}

/// The relying party as a WebAuthn request names it: the ID may be omitted.
pub struct RpOptions {
    pub id: Option<String>,
    pub name: String,
}

/// The options of a registration.
pub struct CredentialCreationOptions {
    pub rp: RpOptions,
    pub user: PublicKeyCredentialUserEntity,
    pub challenge: Vec<u8>,
    /// COSE algorithm identifiers, in order of preference.
    pub pub_key_cred_params: Vec<i64>,
    pub exclude_credentials: Option<Vec<Vec<u8>>>,
    pub user_verification: UserVerificationRequirement,
    pub resident_key: bool,
}

/// The options of an authentication.
pub struct CredentialRequestOptions {
    pub challenge: Vec<u8>,
    pub rp_id: Option<String>,
    pub allow_credentials: Option<Vec<Vec<u8>>>,
    pub user_verification: UserVerificationRequirement,
}

/// The result of a registration.
pub struct RegistrationResponse {
    /// The credential ID, base64url.
    pub id: String,
    pub raw_id: Vec<u8>,
    /// The exact bytes whose digest the authenticator received.
    pub client_data_json: Vec<u8>,
    pub authenticator_data: Vec<u8>,
    /// The CBOR attestation object, format "none".
    pub attestation_object: Vec<u8>,
    pub public_key_algorithm: i64,
}

/// The result of an authentication.
pub struct AuthenticationResponse {
    /// The credential ID, base64url.
    pub id: String,
    pub raw_id: Vec<u8>,
    /// The exact bytes whose digest the authenticator received.
    pub client_data_json: Vec<u8>,
    pub authenticator_data: Vec<u8>,
    /// The bytes the credential's key signs: authenticator data ‖ client data hash.
    pub signed_data: Vec<u8>,
    /// The signature over `signed_data`.
    pub signature: Vec<u8>,
    pub user_handle: Option<Vec<u8>>,
}

/// The effective RP ID decision the client's verifier takes for `origin` and `rp_id`.
pub open spec fn rp_decision(v: RpIdVerifier<DefaultSuffixList>, origin: Origin, rp_id: Option<Seq<char>>) -> Result<
    Seq<char>,
    WebauthnError,
> {
    domain_decision(v.allows_localhost(), origin.scheme@, origin.host@, rp_id, v.registrable(rp_id))
}

/// The WebAuthn client: derives the RP ID, builds client data and drives the authenticator.
pub struct Client<U: UserValidationMethod> {
    pub authenticator: Authenticator<U>,
    pub verifier: RpIdVerifier<DefaultSuffixList>,
}

impl<U: UserValidationMethod> Client<U> {
    /// A client over `authenticator`, with a verifier over the built-in public suffix
    /// list that does not allow insecure localhost.
    pub fn new(authenticator: Authenticator<U>) -> (r: Self)
        ensures
            r.authenticator == authenticator,
            !r.verifier.allows_localhost(),
    {
        Client { authenticator, verifier: RpIdVerifier::new(DefaultSuffixList) }
    }

    /// Registers a new credential for `origin`. `key` is fresh key material for it.
    pub fn register(
        &mut self,
        origin: &Origin,
        options: CredentialCreationOptions,
        extra: &Vec<(String, String)>,
        key: NewCredentialKey,
    ) -> (r: Result<RegistrationResponse, WebauthnError>)
        requires
            old(self).authenticator.wf(),
            key.credential_id@.len() < 0x10000,
        ensures
            final(self).authenticator.wf(),
            final(self).authenticator.user.verification_enabled() == old(self).authenticator.user.verification_enabled(),
            final(self).authenticator.user.presence_enabled() == old(self).authenticator.user.presence_enabled(),
            final(self).authenticator.aaguid@ == old(self).authenticator.aaguid@,
            final(self).authenticator.counter_enabled == old(self).authenticator.counter_enabled,
            same_script(final(self).authenticator.user, old(self).authenticator.user),
            final(self).verifier == old(self).verifier,
            rp_decision(old(self).verifier, *origin, opt_str_view(options.rp.id)) matches Err(e) ==> r
                == Err::<RegistrationResponse, WebauthnError>(e) && final(self).authenticator.user.checks()
                == old(self).authenticator.user.checks(),
            rp_decision(old(self).verifier, *origin, opt_str_view(options.rp.id)) is Ok && uv_option_spec(
                options.user_verification,
                old(self).authenticator.user.verification_enabled(),
            ) is Err ==> r == Err::<RegistrationResponse, WebauthnError>(WebauthnError::NotSupported)
                && final(self).authenticator.user.checks() == old(self).authenticator.user.checks(),
            r is Err ==> final(self).authenticator.store@ == old(self).authenticator.store@,
            r matches Ok(resp) ==> rp_decision(old(self).verifier, *origin, opt_str_view(options.rp.id)) matches Ok(
                rp_id,
            ) && {
                &&& uv_option_spec(
                    options.user_verification,
                    old(self).authenticator.user.verification_enabled(),
                ) is Ok
                &&& resp.client_data_json@ == client_data_bytes(
                    type_create(),
                    base64url_of(options.challenge@),
                    origin.serialization@,
                    pairs_view(extra@),
                )
                &&& resp.raw_id@ == key.credential_id@
                &&& resp.attestation_object@ == none_attestation_bytes(resp.authenticator_data@)
                &&& resp.id@ == base64url_of(key.credential_id@)
                &&& select_algorithm_spec(options.pub_key_cred_params@) == Some(resp.public_key_algorithm)
                &&& !is_excluded(old(self).authenticator.store@, rp_id, opt_list_view(options.exclude_credentials))
                &&& final(self).authenticator.store@ == old(self).authenticator.store@.push(
                    PasskeyView {
                        key: key.private_key@,
                        rp_id: rp_id,
                        credential_id: key.credential_id@,
                        user_handle: Some(options.user.id@),
                        counter: if old(self).authenticator.counter_enabled {
                            Some(0u32)
                        } else {
                            None
                        },
                    },
                )
                &&& exists|flags: u8|
                    #![trigger has_flag(flags, FLAG_UP)]
                    resp.authenticator_data@ == auth_data_bytes(
                        sha256_of(encode_utf8(rp_id)),
                        flags,
                        0,
                        Some(
                            attested_bytes(
                                old(self).authenticator.aaguid@,
                                key.credential_id@,
                                key.public_key@,
                            ),
                        ),
                    ) && has_flag(flags, FLAG_UP)
            },
            rp_decision(old(self).verifier, *origin, opt_str_view(options.rp.id)) matches Ok(rp_id)
                ==> (uv_option_spec(
                options.user_verification,
                old(self).authenticator.user.verification_enabled(),
            ) matches Ok(uv) ==> {
                let store = old(self).authenticator.store@;
                let exclude = opt_list_view(options.exclude_credentials);
                let gates = rp_id.len() > 0 && select_algorithm_spec(options.pub_key_cred_params@) is Some
                    && !is_excluded(store, rp_id, exclude);
                let answer = final(self).authenticator.user.checks().last().answer;
                &&& (rp_id.len() == 0 ==> r == Err::<RegistrationResponse, WebauthnError>(
                    WebauthnError::Authenticator(Ctap2Error::MissingParameter),
                ))
                &&& (rp_id.len() > 0 && select_algorithm_spec(options.pub_key_cred_params@) is None
                    ==> r == Err::<RegistrationResponse, WebauthnError>(
                    WebauthnError::Authenticator(Ctap2Error::UnsupportedAlgorithm),
                ))
                &&& (rp_id.len() > 0 && select_algorithm_spec(options.pub_key_cred_params@) is Some
                    && is_excluded(store, rp_id, exclude) ==> r == Err::<RegistrationResponse, WebauthnError>(
                    WebauthnError::Authenticator(Ctap2Error::CredentialExcluded),
                ))
                &&& (gates ==> one_more_check(
                    old(self).authenticator.user.checks(),
                    final(self).authenticator.user.checks(),
                    MockUIHintView::RequestNewCredential(
                        options.user@,
                        RpEntityView { id: rp_id, name: Some(options.rp.name@) },
                        Options { rk: options.resident_key, up: true, uv },
                    ),
                    true,
                    uv,
                ))
                &&& (gates ==> (old(self).authenticator.user.answer_after(
                    old(self).authenticator.user.checks(),
                    MockUIHintView::RequestNewCredential(
                        options.user@,
                        RpEntityView { id: rp_id, name: Some(options.rp.name@) },
                        Options { rk: options.resident_key, up: true, uv },
                    ),
                    true,
                    uv,
                ) matches Some(a) ==> answer == a))
                &&& (gates ==> (user_check_outcome(answer, true, uv) matches Err(e) ==> r == Err::<
                    RegistrationResponse,
                    WebauthnError,
                >(WebauthnError::Authenticator(e))))
                &&& (gates && user_check_outcome(answer, true, uv) is Ok && key_stored(
                    store,
                    rp_id,
                    key.credential_id@,
                ) ==> r == Err::<RegistrationResponse, WebauthnError>(
                    WebauthnError::Authenticator(Ctap2Error::Other),
                ))
                &&& (gates && user_check_outcome(answer, true, uv) is Ok && !key_stored(
                    store,
                    rp_id,
                    key.credential_id@,
                ) ==> r is Ok)
            }),
    {
        let ghost key_view = key;
        let rp_id = match self.verifier.assert_domain(
            origin,
            match &options.rp.id {
                Some(s) => Some(s.as_str()),
                None => None,
            },
        ) {
            Ok(s) => s,
            Err(e) => {
                return Err(e);
            },
        };
        let enabled = self.authenticator.user.is_verification_enabled();
        let uv = match uv_option(options.user_verification, enabled) {
            Ok(b) => b,
            Err(e) => {
                return Err(e);
            },
        };
        let challenge = base64url(options.challenge.as_slice());
        proof {
            reveal_strlit("webauthn.create");
            assert("webauthn.create"@ =~= type_create());
        }
        let client_data = client_data_json("webauthn.create", challenge.as_str(), origin.serialization.as_str(), extra);
        let client_data_hash = sha256(client_data.as_slice());
        let req = MakeCredentialRequest {
            client_data_hash,
            rp: PublicKeyCredentialRpEntity { id: rp_id, name: Some(options.rp.name) },
            user: options.user,
            pub_key_cred_params: options.pub_key_cred_params,
            exclude_list: options.exclude_credentials,
            options: Options { rk: options.resident_key, up: true, uv },
        };
        match self.authenticator.make_credential(&req, key) {
            Ok(resp) => {
                let id = base64url(resp.credential_id.as_slice());
                let attestation_object = none_attestation_object(&resp.auth_data);
                Ok(
                    RegistrationResponse {
                        id,
                        raw_id: resp.credential_id,
                        client_data_json: client_data,
                        attestation_object,
                        authenticator_data: resp.auth_data,
                        public_key_algorithm: resp.algorithm,
                    },
                )
            },
            Err(e) => Err(WebauthnError::Authenticator(e)),
        }
    }

    /// Authenticates with a stored credential for `origin`.
    pub fn authenticate(
        &mut self,
        origin: &Origin,
        options: CredentialRequestOptions,
        extra: &Vec<(String, String)>,
    ) -> (r: Result<AuthenticationResponse, WebauthnError>)
        requires
            old(self).authenticator.wf(),
        ensures
            final(self).authenticator.wf(),
            final(self).authenticator.user.verification_enabled() == old(self).authenticator.user.verification_enabled(),
            final(self).authenticator.user.presence_enabled() == old(self).authenticator.user.presence_enabled(),
            final(self).authenticator.aaguid@ == old(self).authenticator.aaguid@,
            final(self).authenticator.counter_enabled == old(self).authenticator.counter_enabled,
            same_script(final(self).authenticator.user, old(self).authenticator.user),
            final(self).verifier == old(self).verifier,
            rp_decision(old(self).verifier, *origin, opt_str_view(options.rp_id)) matches Err(e) ==> r
                == Err::<AuthenticationResponse, WebauthnError>(e) && final(self).authenticator.user.checks()
                == old(self).authenticator.user.checks(),
            rp_decision(old(self).verifier, *origin, opt_str_view(options.rp_id)) is Ok && uv_option_spec(
                options.user_verification,
                old(self).authenticator.user.verification_enabled(),
            ) is Err ==> r == Err::<AuthenticationResponse, WebauthnError>(WebauthnError::NotSupported)
                && final(self).authenticator.user.checks() == old(self).authenticator.user.checks(),
            r is Err && r != Err::<AuthenticationResponse, WebauthnError>(
                WebauthnError::Authenticator(Ctap2Error::Other),
            ) ==> final(self).authenticator.store@ == old(self).authenticator.store@,
            r matches Ok(resp) ==> rp_decision(old(self).verifier, *origin, opt_str_view(options.rp_id)) matches Ok(
                rp_id,
            ) && {
                &&& uv_option_spec(
                    options.user_verification,
                    old(self).authenticator.user.verification_enabled(),
                ) is Ok
                &&& resp.client_data_json@ == client_data_bytes(
                    type_get(),
                    base64url_of(options.challenge@),
                    origin.serialization@,
                    pairs_view(extra@),
                )
                &&& resp.signed_data@ == resp.authenticator_data@ + sha256_of(resp.client_data_json@)
                &&& resp.id@ == base64url_of(resp.raw_id@)
                &&& exists|i: int, flags: u8|
                    #![trigger old(self).authenticator.store@[i], has_flag(flags, FLAG_UP)]
                    0 <= i < old(self).authenticator.store@.len() && is_candidate(
                        old(self).authenticator.store@[i],
                        rp_id,
                        opt_list_view(options.allow_credentials),
                    ) && resp.raw_id@ == old(self).authenticator.store@[i].credential_id
                        && signature_of(old(self).authenticator.store@[i].key, resp.signed_data@) == Some(
                        resp.signature@,
                    ) && resp.authenticator_data@ == auth_data_bytes(
                        sha256_of(encode_utf8(rp_id)),
                        flags,
                        sign_count(final(self).authenticator.store@[i].counter),
                        None,
                    ) && has_flag(flags, FLAG_UP) && final(self).authenticator.store@ == old(self).authenticator.store@.update(
                        i,
                        with_counter(
                            old(self).authenticator.store@[i],
                            bump_counter(old(self).authenticator.store@[i].counter),
                        ),
                    )
            },
            rp_decision(old(self).verifier, *origin, opt_str_view(options.rp_id)) matches Ok(rp_id)
                ==> (uv_option_spec(
                options.user_verification,
                old(self).authenticator.user.verification_enabled(),
            ) matches Ok(uv) ==> {
                let store = old(self).authenticator.store@;
                let allow = opt_list_view(options.allow_credentials);
                let answer = final(self).authenticator.user.checks().last().answer;
                let hash = sha256_of(
                    client_data_bytes(
                        type_get(),
                        base64url_of(options.challenge@),
                        origin.serialization@,
                        pairs_view(extra@),
                    ),
                );
                &&& ((forall|j: int| 0 <= j < store.len() ==> !is_candidate(#[trigger] store[j], rp_id, allow))
                    ==> r == Err::<AuthenticationResponse, WebauthnError>(
                    WebauthnError::Authenticator(Ctap2Error::NoCredentials),
                ) && one_more_check(
                    old(self).authenticator.user.checks(),
                    final(self).authenticator.user.checks(),
                    MockUIHintView::InformNoCredentialsFound,
                    true,
                    uv,
                ))
                &&& forall|i: int| #[trigger] is_first_candidate(store, rp_id, allow, i) ==> {
                    let p = store[i];
                    &&& one_more_check(
                        old(self).authenticator.user.checks(),
                        final(self).authenticator.user.checks(),
                        MockUIHintView::RequestExistingCredential(p),
                        true,
                        uv,
                    )
                    &&& (old(self).authenticator.user.answer_after(
                    old(self).authenticator.user.checks(),
                        MockUIHintView::RequestExistingCredential(p),
                        true,
                        uv,
                    ) matches Some(a) ==> answer == a)
                    &&& (user_check_outcome(answer, true, uv) matches Err(e) ==> r == Err::<
                        AuthenticationResponse,
                        WebauthnError,
                    >(WebauthnError::Authenticator(e)))
                    &&& (user_check_outcome(answer, true, uv) matches Ok(c) ==> (final(self).authenticator.store@ == store.update(i, with_counter(p, bump_counter(p.counter)))
                        && (signature_of(p.key, assertion_auth_data(rp_id, c, p.counter) + hash) is Some
                        ==> r is Ok) && (signature_of(p.key, assertion_auth_data(rp_id, c, p.counter) + hash)
                        is None ==> r == Err::<AuthenticationResponse, WebauthnError>(
                        WebauthnError::Authenticator(Ctap2Error::Other),
                    ))))
                }
            }),
    {
        let rp_id = match self.verifier.assert_domain(
            origin,
            match &options.rp_id {
                Some(s) => Some(s.as_str()),
                None => None,
            },
        ) {
            Ok(s) => s,
            Err(e) => {
                return Err(e);
            },
        };
        let enabled = self.authenticator.user.is_verification_enabled();
        let uv = match uv_option(options.user_verification, enabled) {
            Ok(b) => b,
            Err(e) => {
                return Err(e);
            },
        };
        let challenge = base64url(options.challenge.as_slice());
        proof {
            reveal_strlit("webauthn.get");
            assert("webauthn.get"@ =~= type_get());
        }
        let client_data = client_data_json("webauthn.get", challenge.as_str(), origin.serialization.as_str(), extra);
        let client_data_hash = sha256(client_data.as_slice());
        let req = GetAssertionRequest {
            rp_id,
            client_data_hash,
            allow_list: options.allow_credentials,
            options: Options { rk: false, up: true, uv },
        };
        let ghost before = self.authenticator.store@;
        match self.authenticator.get_assertion(&req) {
            Ok(resp) => {
                let ghost flags = resp.flags;
                assert(before == old(self).authenticator.store@);
                let ghost i = choose|i: int|
                        0 <= i < before.len() && is_candidate(
                            before[i],
                            req.rp_id@,
                            opt_list_view(req.allow_list),
                        ) && self.authenticator.store@ == before.update(
                            i,
                            with_counter(before[i], bump_counter(before[i].counter)),
                        ) && resp.credential_id@ == before[i].credential_id && signature_of(
                            before[i].key,
                            resp.signed_data@,
                        ) == Some(resp.signature@) && resp.auth_data@
                            == auth_data_bytes(
                            sha256_of(encode_utf8(req.rp_id@)),
                            resp.flags,
                            sign_count(bump_counter(before[i].counter)),
                            None,
                        ) && has_flag(resp.flags, FLAG_UP);
                proof {
                    assert(self.authenticator.store@[i].counter == bump_counter(before[i].counter));
                }
                let id = base64url(resp.credential_id.as_slice());
                let out = AuthenticationResponse {
                    id,
                    raw_id: resp.credential_id,
                    client_data_json: client_data,
                    authenticator_data: resp.auth_data,
                    signed_data: resp.signed_data,
                    signature: resp.signature,
                    user_handle: resp.user_handle,
                };
                assert(0 <= i < before.len() && is_candidate(
                    before[i],
                    req.rp_id@,
                    opt_list_view(options.allow_credentials),
                ) && out.raw_id@ == before[i].credential_id && signature_of(before[i].key, out.signed_data@)
                    == Some(out.signature@) && out.authenticator_data@ == auth_data_bytes(
                    sha256_of(encode_utf8(req.rp_id@)),
                    flags,
                    sign_count(self.authenticator.store@[i].counter),
                    None,
                ) && has_flag(flags, FLAG_UP));
                Ok(out)
            },
            Err(e) => Err(WebauthnError::Authenticator(e)),
        }
    }
}

} // verus!
