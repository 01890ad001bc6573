use vstd::prelude::*;

use passkey_crypto::coset::CborSerializable;
use passkey_crypto::rng::RngBackend;
use passkey_crypto::{CryptoBackend, PublicKeyT, SecretKeyT};

use crate::auth_data::{
    attested_bytes, auth_data_bytes, encode_auth_data, flags_byte, flags_spec, has_flag, push_all, sha256, sha256_of,
    AttestedCredentialData, FLAG_AT, FLAG_UP, FLAG_UV,
};
use crate::attestation::{packed_attestation_bytes, packed_attestation_object};
use crate::store::{bytes_list, is_candidate, key_matches, with_counter, MemoryStore};
use crate::types::{
    copy_bytes, opt_bytes_view, Ctap2Error, Options, Passkey, PasskeyView, PublicKeyCredentialRpEntity,
    PublicKeyCredentialUserEntity,
};
use crate::user_validation::{one_more_check, same_script, MockUIHintView, UIHint, UserCheck, UserValidationMethod};
use vstd::utf8::encode_utf8;

verus! {

/// A name for the signature that the COSE private key `private_key` makes over
/// `message`, or `None` where the key does not parse or its algorithm is unsupported.
pub uninterp spec fn signature_of(private_key: Seq<u8>, message: Seq<u8>) -> Option<Seq<u8>>;

/// Relies on coset's `CoseKey::from_slice` and passkey_crypto's
/// `RustCryptoSecretKey::from_cose_key` and `sign`: the signature of `message` under
/// the COSE-encoded private key (ES256 with RFC 6979 nonces, EdDSA and ML-DSA all sign
/// deterministically), a function of its arguments alone.
#[verifier::external_body]
pub(crate) fn sign(private_key: &[u8], message: &[u8]) -> (r: Option<Vec<u8>>)
    ensures
        opt_bytes_view(r) == signature_of(private_key@, message@),
{
    let cose = passkey_crypto::CoseKey::from_slice(private_key).ok()?;
    let mut key = passkey_crypto::rust_crypto::RustCryptoSecretKey::from_cose_key(&cose).ok()?;
    Some(key.sign(message))
}

/// Relies on passkey_crypto's `RandRng::random_vec`: `len` random bytes.
#[verifier::external_body]
fn random_bytes(len: usize) -> (r: Vec<u8>)
    ensures
        r@.len() == len,
{
    passkey_crypto::rng::rand::RandRng::random_vec(len)
}

/// Relies on passkey_crypto's `RustCryptoBackend::generate_key` for ES256 and on
/// coset's `CborSerializable::to_vec`: a fresh private key and its public key, both
/// COSE encoded. The key is random, so nothing is promised of it.
#[verifier::external_body]
fn generate_es256_key() -> (r: Option<(Vec<u8>, Vec<u8>)>) {
    let secret = passkey_crypto::rust_crypto::RustCryptoBackend
        .generate_key(passkey_crypto::iana::Algorithm::ES256)
        .ok()?;
    let private_key = secret.to_cose_key().to_vec().ok()?;
    let public_key = secret.public_key().to_cose_key().to_vec().ok()?;
    Some((private_key, public_key))
}

/// The "packed" self-attestation object for a new credential: the credential's
/// own key signs authData ‖ clientDataHash. `None` where the key cannot sign.
pub fn packed_self_attestation(private_key: &Vec<u8>, auth_data: &Vec<u8>, client_data_hash: &Vec<u8>) -> (r:
    Option<Vec<u8>>)
    ensures
        match signature_of(private_key@, auth_data@ + client_data_hash@) {
            Some(sig) => r matches Some(v) && v@ == packed_attestation_bytes(sig, auth_data@),
            None => r is None,
        },
{
    let mut signed = copy_bytes(auth_data);
    push_all(&mut signed, client_data_hash);
    match sign(private_key.as_slice(), signed.as_slice()) {
        Some(sig) => Some(packed_attestation_object(&sig, auth_data)),
        None => None,
    }
}

/// COSE algorithm identifier of ES256 (ECDSA with P-256 and SHA-256).
pub const ES256: i64 = -7;

/// The algorithm chosen from a request's parameters: ES256 when the list is
/// empty or names it, otherwise none.
pub open spec fn select_algorithm_spec(params: Seq<i64>) -> Option<i64> {
    if params.len() == 0 || params.contains(ES256) {
        Some(ES256)
    } else {
        None
    }
}

/// Selects the credential algorithm from the requested COSE algorithm identifiers.
pub fn select_algorithm(params: &Vec<i64>) -> (r: Option<i64>)
    ensures
        r == select_algorithm_spec(params@),
{
    if params.len() == 0 {
        return Some(ES256);
    }
    let mut i: usize = 0;
    while i < params.len()
        invariant
            i <= params@.len(),
            forall|j: int| 0 <= j < i ==> params@[j] != ES256,
        decreases params.len() - i,
    {
        if params[i] == ES256 {
            return Some(ES256);
        }
        i = i + 1;
    }
    None
}

/// The exclude list names a credential stored for `rp_id`.
pub open spec fn is_excluded(store: Seq<PasskeyView>, rp_id: Seq<char>, exclude: Seq<Seq<u8>>) -> bool {
    exists|k: int, i: int|
        0 <= k < exclude.len() && 0 <= i < store.len() && key_matches(
            #[trigger] store[i],
            rp_id,
            #[trigger] exclude[k],
        )
}

/// The counter after one more assertion: one more, saturating at the top.
pub open spec fn bump_counter(c: Option<u32>) -> Option<u32> {
    match c {
        Some(n) => Some(if n == u32::MAX { n } else { (n + 1) as u32 }),
        None => None,
    }
}

/// An assertion never lowers a credential's counter: a counter stays present,
/// does not decrease, and grows by one unless it is already at its maximum.
pub proof fn lemma_counter_never_decreases(c: Option<u32>)
    ensures
        bump_counter(c) is Some <==> c is Some,
        c matches Some(n) ==> bump_counter(c)->0 >= n,
        c matches Some(n) ==> (n < u32::MAX ==> bump_counter(c)->0 == n + 1),
{
}

/// The signCount transmitted for a counter: zero where there is none.
pub open spec fn sign_count(c: Option<u32>) -> u32 {
    match c {
        Some(n) => n,
        None => 0,
    }
}

/// The user asked for verification, and the validation method cannot provide it.
pub open spec fn uv_unavailable(uv: bool, enabled: Option<bool>) -> bool {
    uv && enabled != Some(true)
}

/// What a command makes of the user-validation answer: the answer's error as is,
/// `OperationDenied` where a requested gesture was not gathered, else the check.
pub open spec fn user_check_outcome(answer: Result<UserCheck, Ctap2Error>, presence: bool, verification: bool) -> Result<
    UserCheck,
    Ctap2Error,
> {
    match answer {
        Err(e) => Err(e),
        Ok(c) => if c.satisfies_spec(presence, verification) {
            Ok(c)
        } else {
            Err(Ctap2Error::OperationDenied)
        },
    }
}

/// Enforces the requested gestures on the user-validation answer.
pub fn enforce_user_check(answer: Result<UserCheck, Ctap2Error>, presence: bool, verification: bool) -> (r: Result<
    UserCheck,
    Ctap2Error,
>)
    ensures
        r == user_check_outcome(answer, presence, verification),
{
    match answer {
        Err(e) => Err(e),
        Ok(c) => if c.satisfies(presence, verification) {
            Ok(c)
        } else {
            Err(Ctap2Error::OperationDenied)
        },
    }
}

/// The exclude list names the passkey stored at `i`.
pub open spec fn excluded_at(store: Seq<PasskeyView>, rp_id: Seq<char>, exclude: Seq<Seq<u8>>, i: int) -> bool {
    exists|k: int| 0 <= k < exclude.len() && key_matches(store[i], rp_id, #[trigger] exclude[k])
}

/// A passkey is stored under `rp_id` and `id`.
pub open spec fn key_stored(store: Seq<PasskeyView>, rp_id: Seq<char>, id: Seq<u8>) -> bool {
    exists|i: int| 0 <= i < store.len() && key_matches(#[trigger] store[i], rp_id, id)
}

/// The checks before the user is asked: an RP ID, a supported algorithm, no
/// excluded credential, and user verification available where requested.
pub open spec fn make_credential_gates(store: Seq<PasskeyView>, req: MakeCredentialRequest, enabled: Option<bool>) -> bool {
    &&& req.rp.id@.len() > 0
    &&& select_algorithm_spec(req.pub_key_cred_params@) is Some
    &&& !is_excluded(store, req.rp.id@, opt_list_view(req.exclude_list))
    &&& !uv_unavailable(req.options.uv, enabled)
}

/// The passkey at `i` is the first that answers an assertion for `rp_id` and `allow`.
pub open spec fn is_first_candidate(store: Seq<PasskeyView>, rp_id: Seq<char>, allow: Seq<Seq<u8>>, i: int) -> bool {
    &&& 0 <= i < store.len()
    &&& is_candidate(store[i], rp_id, allow)
    &&& forall|j: int| 0 <= j < i ==> !is_candidate(#[trigger] store[j], rp_id, allow)
}

/// The authenticator data of an assertion for `rp_id` after the check `c`, for a
/// credential whose counter was `counter`.
pub open spec fn assertion_auth_data(rp_id: Seq<char>, c: UserCheck, counter: Option<u32>) -> Seq<u8> {
    auth_data_bytes(
        sha256_of(encode_utf8(rp_id)),
        flags_spec(c.presence, c.verification, false),
        sign_count(bump_counter(counter)),
        None,
    )
}

/// A MakeCredential command.
pub struct MakeCredentialRequest {
    pub client_data_hash: Vec<u8>,
    pub rp: PublicKeyCredentialRpEntity,
    pub user: PublicKeyCredentialUserEntity,
    /// COSE algorithm identifiers, in order of preference.
    pub pub_key_cred_params: Vec<i64>,
    pub exclude_list: Option<Vec<Vec<u8>>>,
    pub options: Options,
}

/// Fresh key material for a new credential, drawn by the caller from a CSPRNG.
pub struct NewCredentialKey {
    /// The credential ID, 16 random bytes.
    pub credential_id: Vec<u8>,
    /// The private key, COSE encoded.
    pub private_key: Vec<u8>,
    /// The matching public key, COSE encoded.
    pub public_key: Vec<u8>,
}

/// The result of a successful MakeCredential.
pub struct MakeCredentialResponse {
    /// The encoded authenticator data, with attested credential data.
    pub auth_data: Vec<u8>,
    pub credential_id: Vec<u8>,
    /// The selected COSE algorithm.
    pub algorithm: i64,
    /// The flags byte of `auth_data`.
    pub flags: u8,
}

/// A GetAssertion command.
pub struct GetAssertionRequest {
    pub rp_id: String,
    pub client_data_hash: Vec<u8>,
    pub allow_list: Option<Vec<Vec<u8>>>,
    pub options: Options,
}

/// The result of a successful GetAssertion.
pub struct GetAssertionResponse {
    pub credential_id: Vec<u8>,
    /// The encoded authenticator data, without attested credential data.
    pub auth_data: Vec<u8>,
    /// The bytes the credential's private key signs: authenticator data ‖ client data hash.
    pub signed_data: Vec<u8>,
    /// The signature over `signed_data` with the credential's private key.
    pub signature: Vec<u8>,
    /// The user handle, returned for a discoverable lookup.
    pub user_handle: Option<Vec<u8>>,
    /// The flags byte of `auth_data`.
    pub flags: u8,
}

pub open spec fn opt_list_view(l: Option<Vec<Vec<u8>>>) -> Seq<Seq<u8>> {
    match l {
        Some(v) => bytes_list(v@),
        None => Seq::<Seq<u8>>::empty(),
    }
}

/// The passkey a MakeCredential stores.
pub open spec fn new_passkey(req: MakeCredentialRequest, key: NewCredentialKey, counter_enabled: bool) -> PasskeyView {
    PasskeyView {
        key: key.private_key@,
        rp_id: req.rp.id@,
        credential_id: key.credential_id@,
        user_handle: Some(req.user.id@),
        counter: if counter_enabled {
            Some(0u32)
        } else {
            None
        },
    }
}

/// What GetInfo reports.
pub struct AuthenticatorInfo {
    pub versions: Vec<String>,
    pub aaguid: Vec<u8>,
    /// Discoverable credentials: the in-memory store always keeps user handles.
    pub rk: bool,
    /// User presence can be tested.
    pub up: bool,
    /// Present iff the user-validation method can verify the user at all.
    pub uv: Option<bool>,
    /// Supported COSE algorithms.
    pub algorithms: Vec<i64>,
    /// Transports: the authenticator is driven in-process ("internal").
    pub transports: Vec<String>,
    /// Supported extensions: none are processed.
    pub extensions: Vec<String>,
}

/// A CTAP2 authenticator over an in-memory store and a user-validation method.
pub struct Authenticator<U: UserValidationMethod> {
    /// The authenticator's model identifier, 16 bytes.
    pub aaguid: Vec<u8>,
    pub store: MemoryStore,
    pub user: U,
    /// Whether new credentials carry a signature counter.
    pub counter_enabled: bool,
}

impl<U: UserValidationMethod> Authenticator<U> {
    pub open spec fn wf(&self) -> bool {
        self.store.wf()
    }

    /// An authenticator without signature counters.
    pub fn new(aaguid: Vec<u8>, store: MemoryStore, user: U) -> (r: Self)
        ensures
            r.aaguid@ == aaguid@,
            r.store@ == store@,
            r.user == user,
            !r.counter_enabled,
    {
        Authenticator { aaguid, store, user, counter_enabled: false }
    }

    /// An authenticator whose new credentials carry a signature counter or not.
    pub fn new_with_counter(aaguid: Vec<u8>, store: MemoryStore, user: U, counter_enabled: bool) -> (r: Self)
        ensures
            r.aaguid@ == aaguid@,
            r.store@ == store@,
            r.user == user,
            r.counter_enabled == counter_enabled,
    {
        Authenticator { aaguid, store, user, counter_enabled }
    }

    /// Runs the exclusion check: where the exclude list names a stored credential,
    /// shows it to the user and returns `true`.
    fn check_excluded(&mut self, req: &MakeCredentialRequest) -> (r: bool)
        requires
            old(self).wf(),
        ensures
            final(self).wf(),
            final(self).store@ == old(self).store@,
            final(self).aaguid@ == old(self).aaguid@,
            final(self).counter_enabled == old(self).counter_enabled,
            final(self).user.verification_enabled() == old(self).user.verification_enabled(),
            final(self).user.presence_enabled() == old(self).user.presence_enabled(),
            same_script(final(self).user, old(self).user),
            r == is_excluded(old(self).store@, req.rp.id@, opt_list_view(req.exclude_list)),
            r ==> exists|i: int|
                0 <= i < old(self).store@.len() && excluded_at(old(self).store@, req.rp.id@, opt_list_view(req.exclude_list), i)
                    && one_more_check(
                    old(self).user.checks(),
                    final(self).user.checks(),
                    MockUIHintView::InformExcludedCredentialFound(old(self).store@[i]),
                    req.options.up,
                    req.options.uv,
                ),
            !r ==> final(self).user == old(self).user,
    {
        match &req.exclude_list {
            None => {
                return false;
            },
            Some(list) => {
                let mut k: usize = 0;
                while k < list.len()
                    invariant
                        k <= list@.len(),
                        req.exclude_list == Some(*list),
                        self.wf(),
                        self.store@ == old(self).store@,
                        self.aaguid@ == old(self).aaguid@,
                        self.counter_enabled == old(self).counter_enabled,
                        self.user == old(self).user,
                        self.user.verification_enabled() == old(self).user.verification_enabled(),
                        self.user.presence_enabled() == old(self).user.presence_enabled(),
                        forall|kk: int, i: int|
                            0 <= kk < k && 0 <= i < self.store@.len() ==> !key_matches(
                                #[trigger] self.store@[i],
                                req.rp.id@,
                                #[trigger] bytes_list(list@)[kk],
                            ),
                    decreases list.len() - k,
                {
                    match self.store.find(req.rp.id.as_str(), &list[k]) {
                        Some(i) => {
                            let p = self.store.get(i);
                            let _ = self.user.check_user(
                                UIHint::InformExcludedCredentialFound(&p),
                                req.options.up,
                                req.options.uv,
                            );
                            assert(bytes_list(list@)[k as int] == list@[k as int]@);
                            assert(excluded_at(old(self).store@, req.rp.id@, opt_list_view(req.exclude_list), i as int));
                            assert(self.user.checks().drop_last() =~= old(self).user.checks());
                            return true;
                        },
                        None => {
                            assert forall|i: int| 0 <= i < self.store@.len() implies !key_matches(
                                #[trigger] self.store@[i],
                                req.rp.id@,
                                bytes_list(list@)[k as int],
                            ) by {
                                assert(bytes_list(list@)[k as int] == list@[k as int]@);
                            }
                        },
                    }
                    k = k + 1;
                }
                return false;
            },
        }
    }

    /// Creates a credential: checks the request, the exclude list and the user,
    /// stores the new passkey and returns its authenticator data.
    pub fn make_credential(&mut self, req: &MakeCredentialRequest, key: NewCredentialKey) -> (r: Result<
        MakeCredentialResponse,
        Ctap2Error,
    >)
        requires
            old(self).wf(),
            key.credential_id@.len() < 0x10000,
        ensures
            final(self).wf(),
            final(self).aaguid@ == old(self).aaguid@,
            final(self).counter_enabled == old(self).counter_enabled,
            final(self).user.verification_enabled() == old(self).user.verification_enabled(),
            final(self).user.presence_enabled() == old(self).user.presence_enabled(),
            same_script(final(self).user, old(self).user),
            req.rp.id@.len() == 0 ==> r == Err::<MakeCredentialResponse, Ctap2Error>(
                Ctap2Error::MissingParameter,
            ) && final(self).user.checks() == old(self).user.checks(),
            req.rp.id@.len() > 0 && select_algorithm_spec(req.pub_key_cred_params@) is None ==> r
                == Err::<MakeCredentialResponse, Ctap2Error>(Ctap2Error::UnsupportedAlgorithm)
                && final(self).user.checks() == old(self).user.checks(),
            req.rp.id@.len() > 0 && select_algorithm_spec(req.pub_key_cred_params@) is Some
                && is_excluded(old(self).store@, req.rp.id@, opt_list_view(req.exclude_list)) ==> r
                == Err::<MakeCredentialResponse, Ctap2Error>(Ctap2Error::CredentialExcluded)
                && exists|i: int|
                0 <= i < old(self).store@.len() && excluded_at(old(self).store@, req.rp.id@, opt_list_view(req.exclude_list), i)
                    && one_more_check(
                    old(self).user.checks(),
                    final(self).user.checks(),
                    MockUIHintView::InformExcludedCredentialFound(old(self).store@[i]),
                    req.options.up,
                    req.options.uv,
                ),
            req.rp.id@.len() > 0 && select_algorithm_spec(req.pub_key_cred_params@) is Some
                && !is_excluded(old(self).store@, req.rp.id@, opt_list_view(req.exclude_list))
                && uv_unavailable(req.options.uv, old(self).user.verification_enabled()) ==> r
                == Err::<MakeCredentialResponse, Ctap2Error>(Ctap2Error::InvalidOption)
                && final(self).user.checks() == old(self).user.checks(),
            r is Err ==> final(self).store@ == old(self).store@,
            make_credential_gates(old(self).store@, *req, old(self).user.verification_enabled()) ==> {
                let answer = final(self).user.checks().last().answer;
                &&& one_more_check(
                    old(self).user.checks(),
                    final(self).user.checks(),
                    MockUIHintView::RequestNewCredential(req.user@, req.rp@, req.options),
                    req.options.up,
                    req.options.uv,
                )
                &&& (old(self).user.answer_after(
                    old(self).user.checks(),
                    MockUIHintView::RequestNewCredential(req.user@, req.rp@, req.options),
                    req.options.up,
                    req.options.uv,
                ) matches Some(a) ==> answer == a)
                &&& (user_check_outcome(answer, req.options.up, req.options.uv) matches Err(e) ==> r
                    == Err::<MakeCredentialResponse, Ctap2Error>(e))
                &&& (user_check_outcome(answer, req.options.up, req.options.uv) is Ok && key_stored(
                    old(self).store@,
                    req.rp.id@,
                    key.credential_id@,
                ) ==> r == Err::<MakeCredentialResponse, Ctap2Error>(Ctap2Error::Other))
                &&& (user_check_outcome(answer, req.options.up, req.options.uv) matches Ok(c) ==> (
                !key_stored(old(self).store@, req.rp.id@, key.credential_id@) ==> (r matches Ok(resp)
                    && resp.flags == flags_spec(c.presence, c.verification, true))))
            },
            r matches Ok(resp) ==> {
                &&& make_credential_gates(old(self).store@, *req, old(self).user.verification_enabled())
                &&& select_algorithm_spec(req.pub_key_cred_params@) == Some(resp.algorithm)
                &&& final(self).store@ == old(self).store@.push(
                    new_passkey(*req, key, old(self).counter_enabled),
                )
                &&& resp.credential_id@ == key.credential_id@
                &&& resp.auth_data@ == auth_data_bytes(
                    sha256_of(encode_utf8(req.rp.id@)),
                    resp.flags,
                    0,
                    Some(attested_bytes(old(self).aaguid@, key.credential_id@, key.public_key@)),
                )
                &&& has_flag(resp.flags, FLAG_AT)
                &&& (req.options.up ==> has_flag(resp.flags, FLAG_UP))
                &&& (req.options.uv ==> has_flag(resp.flags, FLAG_UV))
            },
    {
        if req.rp.id.unicode_len() == 0 {
            return Err(Ctap2Error::MissingParameter);
        }
        let algorithm = match select_algorithm(&req.pub_key_cred_params) {
            Some(a) => a,
            None => {
                return Err(Ctap2Error::UnsupportedAlgorithm);
            },
        };
        if self.check_excluded(req) {
            return Err(Ctap2Error::CredentialExcluded);
        }
        if req.options.uv {
            match self.user.is_verification_enabled() {
                Some(true) => {},
                _ => {
                    return Err(Ctap2Error::InvalidOption);
                },
            }
        }
        let ghost before = self.user.checks();
        let answer = self.user.check_user(
            UIHint::RequestNewCredential(&req.user, &req.rp, &req.options),
            req.options.up,
            req.options.uv,
        );
        assert(self.user.checks().drop_last() =~= before);
        let check = match enforce_user_check(answer, req.options.up, req.options.uv) {
            Ok(c) => c,
            Err(e) => {
                return Err(e);
            },
        };
        let ghost key_view = key;
        let passkey = Passkey {
            key: key.private_key,
            rp_id: req.rp.id.clone(),
            credential_id: copy_bytes(&key.credential_id),
            user_handle: Some(copy_bytes(&req.user.id)),
            counter: if self.counter_enabled {
                Some(0u32)
            } else {
                None
            },
        };
        assert(passkey@ == new_passkey(*req, key_view, self.counter_enabled));
        match self.store.save_credential(passkey) {
            Ok(()) => {},
            Err(_) => {
                return Err(Ctap2Error::Other);
            },
        }
        let attested = AttestedCredentialData {
            aaguid: copy_bytes(&self.aaguid),
            credential_id: copy_bytes(&key.credential_id),
            public_key: key.public_key,
        };
        let attested_data = attested.to_bytes();
        let rp_hash = sha256(req.rp.id.as_str().as_bytes());
        let flags = flags_byte(check.presence, check.verification, true);
        let auth_data = encode_auth_data(&rp_hash, flags, 0, Some(&attested_data));
        Ok(MakeCredentialResponse { auth_data, credential_id: key.credential_id, algorithm, flags })
    }

    /// Produces an assertion: checks the user-verification option, picks the first
    /// stored candidate, checks the user, bumps the counter and returns the
    /// authenticator data and the bytes to sign.
    pub fn get_assertion(&mut self, req: &GetAssertionRequest) -> (r: Result<
        GetAssertionResponse,
        Ctap2Error,
    >)
        requires
            old(self).wf(),
        ensures
            final(self).wf(),
            final(self).aaguid@ == old(self).aaguid@,
            final(self).user.verification_enabled() == old(self).user.verification_enabled(),
            final(self).user.presence_enabled() == old(self).user.presence_enabled(),
            same_script(final(self).user, old(self).user),
            final(self).counter_enabled == old(self).counter_enabled,
            uv_unavailable(req.options.uv, old(self).user.verification_enabled()) ==> r == Err::<
                GetAssertionResponse,
                Ctap2Error,
            >(Ctap2Error::InvalidOption) && final(self).user.checks() == old(self).user.checks(),
            !uv_unavailable(req.options.uv, old(self).user.verification_enabled()) && (forall|i: int|
                0 <= i < old(self).store@.len() ==> !is_candidate(
                    #[trigger] old(self).store@[i],
                    req.rp_id@,
                    opt_list_view(req.allow_list),
                )) ==> r == Err::<GetAssertionResponse, Ctap2Error>(Ctap2Error::NoCredentials)
                && one_more_check(
                old(self).user.checks(),
                final(self).user.checks(),
                MockUIHintView::InformNoCredentialsFound,
                req.options.up,
                req.options.uv,
            ),
            forall|i: int|
                #[trigger] is_first_candidate(old(self).store@, req.rp_id@, opt_list_view(req.allow_list), i)
                    && !uv_unavailable(req.options.uv, old(self).user.verification_enabled()) ==> {
                    let answer = final(self).user.checks().last().answer;
                    let p = old(self).store@[i];
                    &&& one_more_check(
                        old(self).user.checks(),
                        final(self).user.checks(),
                        MockUIHintView::RequestExistingCredential(p),
                        req.options.up,
                        req.options.uv,
                    )
                    &&& (old(self).user.answer_after(
                    old(self).user.checks(),
                        MockUIHintView::RequestExistingCredential(p),
                        req.options.up,
                        req.options.uv,
                    ) matches Some(a) ==> answer == a)
                    &&& (user_check_outcome(answer, req.options.up, req.options.uv) matches Err(e) ==> r
                        == Err::<GetAssertionResponse, Ctap2Error>(e) && final(self).store@ == old(self).store@)
                    &&& (user_check_outcome(answer, req.options.up, req.options.uv) matches Ok(c) ==> {
                        let data = assertion_auth_data(req.rp_id@, c, p.counter);
                        &&& final(self).store@ == old(self).store@.update(
                            i,
                            with_counter(p, bump_counter(p.counter)),
                        )
                        &&& (signature_of(p.key, data + req.client_data_hash@) is None ==> r == Err::<
                            GetAssertionResponse,
                            Ctap2Error,
                        >(Ctap2Error::Other))
                        &&& (signature_of(p.key, data + req.client_data_hash@) is Some ==> (r matches Ok(
                            resp,
                        ) && resp.auth_data@ == data && resp.flags == flags_spec(
                            c.presence,
                            c.verification,
                            false,
                        )))
                    })
                },
            r is Err && r != Err::<GetAssertionResponse, Ctap2Error>(Ctap2Error::Other) ==> final(self).store@ == old(self).store@,
            forall|i: int|
                0 <= i < final(self).store@.len() ==> (#[trigger] final(self).store@[i]).counter
                    == old(self).store@[i].counter || final(self).store@[i].counter == bump_counter(
                    old(self).store@[i].counter,
                ),
            r matches Ok(resp) ==> exists|i: int|
                {
                    &&& 0 <= i < old(self).store@.len()
                    &&& is_candidate(old(self).store@[i], req.rp_id@, opt_list_view(req.allow_list))
                    &&& forall|j: int|
                        0 <= j < i ==> !is_candidate(
                            #[trigger] old(self).store@[j],
                            req.rp_id@,
                            opt_list_view(req.allow_list),
                        )
                    &&& !uv_unavailable(req.options.uv, old(self).user.verification_enabled())
                    &&& one_more_check(
                        old(self).user.checks(),
                        final(self).user.checks(),
                        MockUIHintView::RequestExistingCredential(old(self).store@[i]),
                        req.options.up,
                        req.options.uv,
                    )
                    &&& final(self).store@ == old(self).store@.update(
                        i,
                        with_counter(old(self).store@[i], bump_counter(old(self).store@[i].counter)),
                    )
                    &&& resp.credential_id@ == old(self).store@[i].credential_id
                    &&& resp.auth_data@ == auth_data_bytes(
                        sha256_of(encode_utf8(req.rp_id@)),
                        resp.flags,
                        sign_count(bump_counter(old(self).store@[i].counter)),
                        None,
                    )
                    &&& resp.signed_data@ == resp.auth_data@ + req.client_data_hash@
                    &&& signature_of(old(self).store@[i].key, resp.signed_data@) == Some(resp.signature@)
                    &&& opt_bytes_view(resp.user_handle) == if opt_list_view(req.allow_list).len()
                        == 0 && exists|j: int|
                        i < j < old(self).store@.len() && is_candidate(
                            #[trigger] old(self).store@[j],
                            req.rp_id@,
                            opt_list_view(req.allow_list),
                        ) {
                        old(self).store@[i].user_handle
                    } else {
                        None
                    }
                    &&& !has_flag(resp.flags, FLAG_AT)
                    &&& (req.options.up ==> has_flag(resp.flags, FLAG_UP))
                    &&& (req.options.uv ==> has_flag(resp.flags, FLAG_UV))
                },
    {
        if req.options.uv {
            match self.user.is_verification_enabled() {
                Some(true) => {},
                _ => {
                    return Err(Ctap2Error::InvalidOption);
                },
            }
        }
        let empty: Vec<Vec<u8>> = Vec::new();
        let allow: &Vec<Vec<u8>> = match &req.allow_list {
            Some(l) => l,
            None => &empty,
        };
        proof {
            assert(bytes_list(empty@) =~= Seq::<Seq<u8>>::empty());
        }
        let i = match self.store.first_candidate(req.rp_id.as_str(), allow, 0) {
            Some(i) => i,
            None => {
                let ghost before = self.user.checks();
                let _ = self.user.check_user(
                    UIHint::InformNoCredentialsFound,
                    req.options.up,
                    req.options.uv,
                );
                assert(self.user.checks().drop_last() =~= before);
                return Err(Ctap2Error::NoCredentials);
            },
        };
        proof {
            assert(is_first_candidate(self.store@, req.rp_id@, opt_list_view(req.allow_list), i as int));
            assert forall|k: int|
                is_first_candidate(self.store@, req.rp_id@, opt_list_view(req.allow_list), k) implies k
                == i by {
                if k < i {
                    assert(!is_candidate(self.store@[k], req.rp_id@, opt_list_view(req.allow_list)));
                } else if k > i {
                    assert(!is_candidate(self.store@[i as int], req.rp_id@, opt_list_view(req.allow_list)));
                }
            }
        }
        let passkey = self.store.get(i);
        let n = self.store.len();
        let others = self.store.first_candidate(req.rp_id.as_str(), allow, i + 1);
        let ghost before = self.user.checks();
        let answer = self.user.check_user(
            UIHint::RequestExistingCredential(&passkey),
            req.options.up,
            req.options.uv,
        );
        assert(self.user.checks().drop_last() =~= before);
        let check = match enforce_user_check(answer, req.options.up, req.options.uv) {
            Ok(c) => c,
            Err(e) => {
                return Err(e);
            },
        };
        let counter = match passkey.counter {
            Some(n) => Some(n.saturating_add(1)),
            None => None,
        };
        let ghost before = self.store@;
        self.store.set_counter(i, counter);
        let count: u32 = match counter {
            Some(n) => n,
            None => 0,
        };
        let rp_hash = sha256(req.rp_id.as_str().as_bytes());
        let flags = flags_byte(check.presence, check.verification, false);
        let auth_data = encode_auth_data(&rp_hash, flags, count, None);
        let mut signed_data = copy_bytes(&auth_data);
        push_all(&mut signed_data, &req.client_data_hash);
        let user_handle = if allow.len() == 0 && others.is_some() {
            match &passkey.user_handle {
                Some(h) => Some(copy_bytes(h)),
                None => None,
            }
        } else {
            None
        };
        let signature = match sign(passkey.key.as_slice(), signed_data.as_slice()) {
            Some(sig) => sig,
            None => {
                return Err(Ctap2Error::Other);
            },
        };
        let resp = GetAssertionResponse {
            credential_id: passkey.credential_id,
            auth_data,
            signed_data,
            signature,
            user_handle,
            flags,
        };
        assert(forall|j: int| 0 <= j < self.store@.len() && j != i ==> #[trigger] self.store@[j] == before[j]);
        Ok(resp)
    }

    /// Creates a credential with a fresh 16-byte credential ID and a fresh ES256
    /// key, drawn from the system's random source, then as `make_credential` does.
    pub fn make_new_credential(&mut self, req: &MakeCredentialRequest) -> (r: Result<
        MakeCredentialResponse,
        Ctap2Error,
    >)
        requires
            old(self).wf(),
        ensures
            final(self).wf(),
            final(self).aaguid@ == old(self).aaguid@,
            final(self).counter_enabled == old(self).counter_enabled,
            r is Err ==> final(self).store@ == old(self).store@,
            is_excluded(old(self).store@, req.rp.id@, opt_list_view(req.exclude_list)) ==> r is Err,
            req.rp.id@.len() == 0 || select_algorithm_spec(req.pub_key_cred_params@) is None ==> r is Err,
            r matches Ok(resp) ==> {
                &&& make_credential_gates(old(self).store@, *req, old(self).user.verification_enabled())
                &&& resp.credential_id@.len() == 16
                &&& final(self).store@.len() == old(self).store@.len() + 1
                &&& final(self).store@.drop_last() == old(self).store@
                &&& final(self).store@.last().rp_id == req.rp.id@
                &&& final(self).store@.last().credential_id == resp.credential_id@
                &&& exists|public_key: Seq<u8>|
                    resp.auth_data@ == auth_data_bytes(
                        sha256_of(encode_utf8(req.rp.id@)),
                        resp.flags,
                        0,
                        Some(attested_bytes(old(self).aaguid@, resp.credential_id@, public_key)),
                    )
            },
    {
        let credential_id = random_bytes(16);
        let (private_key, public_key) = match generate_es256_key() {
            Some(k) => k,
            None => {
                return Err(Ctap2Error::Other);
            },
        };
        let ghost pk = public_key@;
        let r = self.make_credential(req, NewCredentialKey { credential_id, private_key, public_key });
        proof {
            if r is Ok {
                assert(self.store@.drop_last() =~= old(self).store@);
                assert(r->Ok_0.auth_data@ == auth_data_bytes(
                    sha256_of(encode_utf8(req.rp.id@)),
                    r->Ok_0.flags,
                    0,
                    Some(attested_bytes(old(self).aaguid@, r->Ok_0.credential_id@, pk)),
                ));
            }
        }
        r
    }

    /// Reports versions, AAGUID, options and algorithms.
    pub fn get_info(&self) -> (r: AuthenticatorInfo)
        ensures
            r.versions@.len() == 2,
            r.versions@[0]@ == seq!['F', 'I', 'D', 'O', '_', '2', '_', '0'],
            r.versions@[1]@ == seq!['F', 'I', 'D', 'O', '_', '2', '_', '1'],
            r.aaguid@ == self.aaguid@,
            r.rk,
            r.up == self.user.presence_enabled(),
            r.uv == self.user.verification_enabled(),
            r.algorithms@ == seq![ES256],
            r.transports@.len() == 1,
            r.transports@[0]@ == seq!['i', 'n', 't', 'e', 'r', 'n', 'a', 'l'],
            r.extensions@.len() == 0,
    {
        proof {
            reveal_strlit("FIDO_2_0");
            reveal_strlit("FIDO_2_1");
            reveal_strlit("internal");
        }
        let mut transports: Vec<String> = Vec::new();
        transports.push("internal".to_string());
        let mut versions: Vec<String> = Vec::new();
        versions.push("FIDO_2_0".to_string());
        versions.push("FIDO_2_1".to_string());
        let mut algorithms: Vec<i64> = Vec::new();
        algorithms.push(ES256);
        assert(algorithms@ =~= seq![ES256]);
        AuthenticatorInfo {
            versions,
            aaguid: copy_bytes(&self.aaguid),
            rk: true,
            up: self.user.is_presence_enabled(),
            uv: self.user.is_verification_enabled(),
            algorithms,
            transports,
            extensions: Vec::new(),
        }
    }
}

} // verus!
