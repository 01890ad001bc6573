use vstd::prelude::*;

verus! {

/// Errors an authenticator reports for a CTAP2 command.
#[derive(Clone, Copy, PartialEq, Eq, Structural, Debug)]
pub enum Ctap2Error {
    /// The request's exclude list names a credential that is already stored.
    CredentialExcluded,
    /// No stored credential matches the request.
    NoCredentials,
    /// The user declined, or presence or verification was not gathered as required.
    OperationDenied,
    /// None of the requested algorithms is supported.
    UnsupportedAlgorithm,
    /// The requested option combination cannot be honoured by this authenticator.
    InvalidOption,
    /// A required parameter is missing or empty.
    MissingParameter,
    /// The credential store failed, or an internal invariant broke.
    Other,
}

/// The CTAP2 `up` / `uv` / `rk` options of a request.
#[derive(Clone, Copy, PartialEq, Eq, Structural, Debug)]
pub struct Options {
    /// Whether a discoverable (resident) credential is requested.
    pub rk: bool,
    /// Whether user presence is requested.
    pub up: bool,
    /// Whether user verification is requested.
    pub uv: bool,
}

pub open spec fn opt_str_view(o: Option<String>) -> Option<Seq<char>> {
    match o {
        Some(s) => Some(s@),
        None => None,
    }
}

pub open spec fn opt_bytes_view(o: Option<Vec<u8>>) -> Option<Seq<u8>> {
    match o {
        Some(v) => Some(v@),
        None => None,
    }
}

/// The relying party a credential is scoped to.
#[derive(Debug)]
pub struct PublicKeyCredentialRpEntity {
    /// The RP ID: a domain.
    pub id: String,
    /// A human-readable name.
    pub name: Option<String>,
}

pub struct RpEntityView {
    pub id: Seq<char>,
    pub name: Option<Seq<char>>,
}

impl View for PublicKeyCredentialRpEntity {
    type V = RpEntityView;

    open spec fn view(&self) -> RpEntityView {
        RpEntityView { id: self.id@, name: opt_str_view(self.name) }
    }
}

/// The user account a credential belongs to.
#[derive(Debug)]
pub struct PublicKeyCredentialUserEntity {
    /// The opaque user handle.
    pub id: Vec<u8>,
    /// The account name.
    pub name: Option<String>,
    /// The name shown to the user.
    pub display_name: Option<String>,
}

pub struct UserEntityView {
    pub id: Seq<u8>,
    pub name: Option<Seq<char>>,
    pub display_name: Option<Seq<char>>,
}

impl View for PublicKeyCredentialUserEntity {
    type V = UserEntityView;

    open spec fn view(&self) -> UserEntityView {
        UserEntityView {
            id: self.id@,
            name: opt_str_view(self.name),
            display_name: opt_str_view(self.display_name),
        }
    }
}

/// A stored credential: private key plus metadata.
#[derive(Debug)]
pub struct Passkey {
    /// The private key material, as encoded COSE key bytes.
    pub key: Vec<u8>,
    /// The RP ID the credential is scoped to.
    pub rp_id: String,
    /// The credential ID.
    pub credential_id: Vec<u8>,
    /// The user handle, present for discoverable credentials.
    pub user_handle: Option<Vec<u8>>,
    /// The signature counter, when counting is enabled.
    pub counter: Option<u32>,
}

pub struct PasskeyView {
    pub key: Seq<u8>,
    pub rp_id: Seq<char>,
    pub credential_id: Seq<u8>,
    pub user_handle: Option<Seq<u8>>,
    pub counter: Option<u32>,
}

impl View for Passkey {
    type V = PasskeyView;

    open spec fn view(&self) -> PasskeyView {
        PasskeyView {
            key: self.key@,
            rp_id: self.rp_id@,
            credential_id: self.credential_id@,
            user_handle: opt_bytes_view(self.user_handle),
            counter: self.counter,
        }
    }
}

/// A copy of a byte vector.
pub fn copy_bytes(v: &Vec<u8>) -> (r: Vec<u8>)
    ensures
        r@ == v@,
{
    let mut r: Vec<u8> = Vec::new();
    let mut i: usize = 0;
    while i < v.len()
        invariant
            i <= v.len(),
            r@ == v@.subrange(0, i as int),
        decreases v.len() - i,
    {
        r.push(v[i]);
        i = i + 1;
    }
    assert(r@ =~= v@);
    r
}

/// Whether two strings hold the same characters.
pub fn str_eq(a: &str, b: &str) -> (r: bool)
    ensures
        r == (a@ == b@),
{
    let n = a.unicode_len();
    if n != b.unicode_len() {
        return false;
    }
    let mut i: usize = 0;
    while i < n
        invariant
            i <= n,
            n == a@.len(),
            n == b@.len(),
            forall|j: int| 0 <= j < i ==> a@[j] == b@[j],
        decreases n - i,
    {
        if a.get_char(i) != b.get_char(i) {
            return false;
        }
        i = i + 1;
    }
    assert(a@ =~= b@);
    true
}

/// Whether two byte vectors hold the same bytes.
pub fn bytes_eq(a: &Vec<u8>, b: &Vec<u8>) -> (r: bool)
    ensures
        r == (a@ == b@),
{
    if a.len() != b.len() {
        return false;
    }
    let mut i: usize = 0;
    while i < a.len()
        invariant
            i <= a.len(),
            a.len() == b.len(),
            forall|j: int| 0 <= j < i ==> a@[j] == b@[j],
        decreases a.len() - i,
    {
        if a[i] != b[i] {
            return false;
        }
        i = i + 1;
    }
    assert(a@ =~= b@);
    true
}

fn opt_bytes_eq(a: &Option<Vec<u8>>, b: &Option<Vec<u8>>) -> (r: bool)
    ensures
        r == (opt_bytes_view(*a) == opt_bytes_view(*b)),
{
    match (a, b) {
        (Some(x), Some(y)) => bytes_eq(x, y),
        (None, None) => true,
        _ => false,
    }
}

fn opt_str_eq(a: &Option<String>, b: &Option<String>) -> (r: bool)
    ensures
        r == (opt_str_view(*a) == opt_str_view(*b)),
{
    match (a, b) {
        (Some(x), Some(y)) => *x == *y,
        (None, None) => true,
        _ => false,
    }
}

fn opt_bytes_copy(a: &Option<Vec<u8>>) -> (r: Option<Vec<u8>>)
    ensures
        opt_bytes_view(r) == opt_bytes_view(*a),
{
    match a {
        Some(x) => Some(copy_bytes(x)),
        None => None,
    }
}

fn opt_str_copy(a: &Option<String>) -> (r: Option<String>)
    ensures
        opt_str_view(r) == opt_str_view(*a),
{
    match a {
        Some(x) => Some(x.clone()),
        None => None,
    }
}

impl PublicKeyCredentialRpEntity {
    /// Whether both entities hold the same values.
    pub fn same_as(&self, other: &Self) -> (r: bool)
        ensures
            r == (self@ == other@),
    {
        self.id == other.id && opt_str_eq(&self.name, &other.name)
    }

    /// A copy holding the same values.
    pub fn copy(&self) -> (r: Self)
        ensures
            r@ == self@,
    {
        PublicKeyCredentialRpEntity { id: self.id.clone(), name: opt_str_copy(&self.name) }
    }
}

impl PublicKeyCredentialUserEntity {
    /// Whether both entities hold the same values.
    pub fn same_as(&self, other: &Self) -> (r: bool)
        ensures
            r == (self@ == other@),
    {
        bytes_eq(&self.id, &other.id) && opt_str_eq(&self.name, &other.name) && opt_str_eq(
            &self.display_name,
            &other.display_name,
        )
    }

    /// A copy holding the same values.
    pub fn copy(&self) -> (r: Self)
        ensures
            r@ == self@,
    {
        PublicKeyCredentialUserEntity {
            id: copy_bytes(&self.id),
            name: opt_str_copy(&self.name),
            display_name: opt_str_copy(&self.display_name),
        }
    }
}

impl Passkey {
    /// Whether both passkeys hold the same values.
    pub fn same_as(&self, other: &Self) -> (r: bool)
        ensures
            r == (self@ == other@),
    {
        bytes_eq(&self.key, &other.key) && self.rp_id == other.rp_id && bytes_eq(
            &self.credential_id,
            &other.credential_id,
        ) && opt_bytes_eq(&self.user_handle, &other.user_handle) && match (
            self.counter,
            other.counter,
        ) {
            (Some(x), Some(y)) => x == y,
            (None, None) => true,
            _ => false,
        }
    }

    /// A copy holding the same values.
    pub fn copy(&self) -> (r: Self)
        ensures
            r@ == self@,
    {
        Passkey {
            key: copy_bytes(&self.key),
            rp_id: self.rp_id.clone(),
            credential_id: copy_bytes(&self.credential_id),
            user_handle: opt_bytes_copy(&self.user_handle),
            counter: self.counter,
        }
    }
}

} // verus!

verus! {

/// Errors of a WebAuthn ceremony, as the client reports them.
#[derive(Clone, Copy, PartialEq, Eq, Structural, Debug)]
pub enum WebauthnError {
    /// The claimed RP ID is malformed or is a public suffix, or the suffix lookup failed.
    InvalidRpId,
    /// The origin is unrelated to the claimed RP ID.
    OriginRpMissmatch,
    /// The origin is neither HTTPS nor an allowed localhost.
    UnprotectedOrigin,
    /// The origin is localhost, and localhost is not allowed.
    InsecureLocalhostNotAllowed,
    /// The origin string could not be parsed, or has no host.
    InvalidOrigin,
    /// User verification is required and this authenticator cannot provide it.
    NotSupported,
    /// The authenticator failed the command.
    Authenticator(Ctap2Error),
}

pub open spec fn opt_result_view(r: Result<String, WebauthnError>) -> Result<Seq<char>, WebauthnError> {
    match r {
        Ok(s) => Ok(s@),
        Err(e) => Err(e),
    }
}

} // verus!
