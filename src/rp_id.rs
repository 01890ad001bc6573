use vstd::prelude::*;

use crate::types::{opt_result_view, opt_str_view, str_eq, WebauthnError};
use public_suffix::EffectiveTLDProvider;

verus! {

/// A name for what the public suffix list gives as the registrable domain
/// (eTLD+1) of `domain`, or `None` where it gives none.
pub uninterp spec fn etld_plus_one_of(domain: Seq<char>) -> Option<Seq<char>>;

/// A name for the scheme, host and serialized origin that URL parsing finds in
/// `s`, or `None` where `s` does not parse or has no host.
pub uninterp spec fn parsed_origin(s: Seq<char>) -> Option<(Seq<char>, Seq<char>, Seq<char>)>;

/// Relies on public_suffix's `DEFAULT_PROVIDER.effective_tld_plus_one`: the
/// registrable domain of `domain` under the built-in list, a function of `domain` alone.
#[verifier::external_body]
fn default_etld_plus_one(domain: &str) -> (r: Option<String>)
    ensures
        opt_str_view(r) == etld_plus_one_of(domain@),
{
    public_suffix::DEFAULT_PROVIDER.effective_tld_plus_one(domain).ok().map(|s| s.to_string())
}

/// Relies on url's `Url::parse`, `Url::scheme`, `Url::host_str` and
/// `Origin::ascii_serialization`: the scheme, host and origin of `s`, a function
/// of `s` alone.
#[verifier::external_body]
fn parse_url(s: &str) -> (r: Option<(String, String, String)>)
    ensures
        match r {
            Some((a, b, c)) => parsed_origin(s@) == Some((a@, b@, c@)),
            None => parsed_origin(s@).is_none(),
        },
{
    match url::Url::parse(s) {
        Ok(u) => u.host_str().map(|h| (u.scheme().to_string(), h.to_string(), u.origin().ascii_serialization())),
        Err(_) => None,
    }
}

pub open spec fn https() -> Seq<char> {
    seq!['h', 't', 't', 'p', 's']
}

pub open spec fn localhost() -> Seq<char> {
    seq!['l', 'o', 'c', 'a', 'l', 'h', 'o', 's', 't']
}

/// Two characters are equal up to ASCII case.
pub open spec fn char_eq_ci(a: char, b: char) -> bool {
    a == b || ('A' <= a <= 'Z' && a as u32 + 32 == b as u32) || ('A' <= b <= 'Z' && b as u32 + 32
        == a as u32)
}

/// Two strings are equal up to ASCII case.
pub open spec fn seq_eq_ci(a: Seq<char>, b: Seq<char>) -> bool {
    a.len() == b.len() && forall|i: int| 0 <= i < a.len() ==> char_eq_ci(#[trigger] a[i], b[i])
}

/// `d` has an empty label: it is empty, starts or ends with a dot, or holds two dots in a row.
pub open spec fn has_empty_label(d: Seq<char>) -> bool {
    d.len() == 0 || d[0] == '.' || d[d.len() - 1] == '.' || exists|i: int|
        0 <= i < d.len() - 1 && #[trigger] d[i] == '.' && d[i + 1] == '.'
}

/// `r` names the last labels of `host`, up to ASCII case: it equals `host` or is
/// preceded in it by a dot.
pub open spec fn is_label_suffix(r: Seq<char>, host: Seq<char>) -> bool {
    r.len() <= host.len() && seq_eq_ci(r, host.subrange(host.len() - r.len(), host.len() as int))
        && (r.len() == host.len() || host[host.len() - r.len() - 1] == '.')
}

/// An origin, as the scheme and host of its URL.
#[derive(Debug)]
pub struct Origin {
    /// The URL scheme, lower case (`https`).
    pub scheme: String,
    /// The host (the effective domain), lower case.
    pub host: String,
    /// The serialized origin (`https://example.com:8443`), as client data carries it.
    pub serialization: String,
}

/// Decides a claimed RP ID for an origin. `registrable` says whether the public
/// suffix list gives a registrable domain for the claimed RP ID; it is read only
/// when an RP ID is claimed.
pub open spec fn domain_decision(
    allows_insecure_localhost: bool,
    scheme: Seq<char>,
    host: Seq<char>,
    rp_id: Option<Seq<char>>,
    registrable: bool,
) -> Result<Seq<char>, WebauthnError> {
    let effective = match rp_id {
        Some(r) => r,
        None => host,
    };
    if rp_id matches Some(r) && has_empty_label(r) {
        Err(WebauthnError::InvalidRpId)
    } else if rp_id matches Some(r) && !is_label_suffix(r, host) {
        Err(WebauthnError::OriginRpMissmatch)
    } else if host == localhost() {
        if allows_insecure_localhost {
            Ok(effective)
        } else {
            Err(WebauthnError::InsecureLocalhostNotAllowed)
        }
    } else if scheme != https() {
        Err(WebauthnError::UnprotectedOrigin)
    } else if rp_id is Some && !registrable {
        Err(WebauthnError::InvalidRpId)
    } else {
        Ok(effective)
    }
}

fn char_eq_ci_exec(a: char, b: char) -> (r: bool)
    ensures
        r == char_eq_ci(a, b),
{
    a == b || ('A' <= a && a <= 'Z' && a as u32 + 32 == b as u32) || ('A' <= b && b <= 'Z' && b
        as u32 + 32 == a as u32)
}

fn has_empty_label_exec(d: &str) -> (r: bool)
    ensures
        r == has_empty_label(d@),
{
    let n = d.unicode_len();
    if n == 0 {
        return true;
    }
    if d.get_char(0) == '.' || d.get_char(n - 1) == '.' {
        return true;
    }
    let mut i: usize = 0;
    while i + 1 < n
        invariant
            n == d@.len(),
            n > 0,
            i < n,
            forall|j: int| 0 <= j < i ==> !(#[trigger] d@[j] == '.' && d@[j + 1] == '.'),
        decreases n - i,
    {
        if d.get_char(i) == '.' && d.get_char(i + 1) == '.' {
            return true;
        }
        i = i + 1;
    }
    false
}

fn is_label_suffix_exec(r: &str, host: &str) -> (b: bool)
    ensures
        b == is_label_suffix(r@, host@),
{
    let rn = r.unicode_len();
    let hn = host.unicode_len();
    if rn > hn {
        return false;
    }
    let off = hn - rn;
    let mut i: usize = 0;
    while i < rn
        invariant
            rn == r@.len(),
            hn == host@.len(),
            off + rn == hn,
            i <= rn,
            forall|j: int| 0 <= j < i ==> char_eq_ci(r@[j], host@[off + j]),
        decreases rn - i,
    {
        if !char_eq_ci_exec(r.get_char(i), host.get_char(off + i)) {
            assert(!char_eq_ci(r@[i as int], host@.subrange(off as int, hn as int)[i as int]));
            return false;
        }
        i = i + 1;
    }
    assert(seq_eq_ci(r@, host@.subrange(off as int, hn as int)));
    rn == hn || host.get_char(off - 1) == '.'
}

/// A character in ASCII lower case; other characters unchanged.
pub open spec fn lower_char(c: char) -> char {
    if 'A' <= c <= 'Z' {
        ((c as u32) + 32) as char
    } else {
        c
    }
}

/// `s` in ASCII lower case.
pub open spec fn ascii_lower(s: Seq<char>) -> Seq<char> {
    Seq::new(s.len(), |i: int| lower_char(s[i]))
}

/// Relies on std's `str::to_ascii_lowercase`: 'A' to 'Z' become 'a' to 'z', every
/// other character stays.
#[verifier::external_body]
fn to_ascii_lowercase(s: &str) -> (r: String)
    ensures
        r@ == ascii_lower(s@),
{
    s.to_ascii_lowercase()
}

/// Gives the registrable domain (eTLD+1) of a domain, from a public suffix list.
pub trait EffectiveTldProvider {
    /// What `effective_tld_plus_one` returns for `domain`.
    spec fn etld_plus_one(&self, domain: Seq<char>) -> Option<Seq<char>>;

    /// The registrable domain of `domain`, or `None` where there is none.
    fn effective_tld_plus_one(&self, domain: &str) -> (r: Option<String>)
        ensures
            opt_str_view(r) == self.etld_plus_one(domain@),
    ;
}

/// The public suffix list built into the `public_suffix` crate.
pub struct DefaultSuffixList;

impl EffectiveTldProvider for DefaultSuffixList {
    open spec fn etld_plus_one(&self, domain: Seq<char>) -> Option<Seq<char>> {
        etld_plus_one_of(domain)
    }

    fn effective_tld_plus_one(&self, domain: &str) -> (r: Option<String>) {
        default_etld_plus_one(domain)
    }
}

/// Checks a claimed RP ID against an origin and gives the effective RP ID.
pub struct RpIdVerifier<P: EffectiveTldProvider> {
    /// The public suffix list consulted for claimed RP IDs.
    pub provider: P,
    /// Whether `http://localhost` is accepted.
    pub allows_insecure_localhost: bool,
}

impl<P: EffectiveTldProvider> RpIdVerifier<P> {
    pub open spec fn allows_localhost(&self) -> bool {
        self.allows_insecure_localhost
    }

    /// Whether `provider` gives a registrable domain for the claimed RP ID, in
    /// ASCII lower case; `false` where none is claimed.
    pub open spec fn registrable(&self, rp_id: Option<Seq<char>>) -> bool {
        match rp_id {
            Some(s) => self.provider.etld_plus_one(ascii_lower(s)) is Some,
            None => false,
        }
    }

    /// A verifier over `provider` that does not allow insecure localhost.
    pub fn new(provider: P) -> (r: Self)
        ensures
            !r.allows_localhost(),
            r.provider == provider,
    {
        RpIdVerifier { provider, allows_insecure_localhost: false }
    }

    /// The same verifier, allowing `http://localhost` or not.
    pub fn allows_insecure_localhost(self, is_allowed: bool) -> (r: Self)
        ensures
            r.allows_localhost() == is_allowed,
            r.provider == self.provider,
    {
        RpIdVerifier { provider: self.provider, allows_insecure_localhost: is_allowed }
    }

    /// Decides `rp_id` for `origin`, given whether the public suffix list has a
    /// registrable domain for `rp_id`.
    pub fn check_domain(&self, origin: &Origin, rp_id: Option<&str>, registrable: bool) -> (r: Result<
        String,
        WebauthnError,
    >)
        ensures
            opt_result_view(r) == domain_decision(
                self.allows_localhost(),
                origin.scheme@,
                origin.host@,
                match rp_id {
                    Some(s) => Some(s@),
                    None => None,
                },
                registrable,
            ),
    {
        proof {
            reveal_strlit("localhost");
            reveal_strlit("https");
            assert("localhost"@ =~= localhost());
            assert("https"@ =~= https());
        }
        let effective: &str = match rp_id {
            Some(r) => {
                if has_empty_label_exec(r) {
                    return Err(WebauthnError::InvalidRpId);
                }
                if !is_label_suffix_exec(r, origin.host.as_str()) {
                    return Err(WebauthnError::OriginRpMissmatch);
                }
                r
            },
            None => origin.host.as_str(),
        };
        if str_eq(origin.host.as_str(), "localhost") {
            if self.allows_insecure_localhost {
                return Ok(effective.to_string());
            } else {
                return Err(WebauthnError::InsecureLocalhostNotAllowed);
            }
        }
        if !str_eq(origin.scheme.as_str(), "https") {
            return Err(WebauthnError::UnprotectedOrigin);
        }
        if rp_id.is_some() && !registrable {
            return Err(WebauthnError::InvalidRpId);
        }
        Ok(effective.to_string())
    }

    /// Checks `rp_id` against `origin` and returns the effective RP ID: `rp_id` when
    /// given, else the origin's host. A claimed RP ID must be registrable under the
    /// verifier's public suffix list, judged in ASCII lower case.
    pub fn assert_domain(&self, origin: &Origin, rp_id: Option<&str>) -> (r: Result<String, WebauthnError>)
        ensures
            opt_result_view(r) == domain_decision(
                self.allows_localhost(),
                origin.scheme@,
                origin.host@,
                match rp_id {
                    Some(s) => Some(s@),
                    None => None,
                },
                self.registrable(
                    match rp_id {
                        Some(s) => Some(s@),
                        None => None,
                    },
                ),
            ),
    {
        let registrable = match rp_id {
            Some(s) => {
                let lower = to_ascii_lowercase(s);
                self.provider.effective_tld_plus_one(lower.as_str()).is_some()
            },
            None => false,
        };
        self.check_domain(origin, rp_id, registrable)
    }
}

impl Origin {
    /// The scheme and host of the URL `s`, or `InvalidOrigin` where it does not parse
    /// or has no host.
    pub fn parse(s: &str) -> (r: Result<Origin, WebauthnError>)
        ensures
            match r {
                Ok(o) => parsed_origin(s@) == Some((o.scheme@, o.host@, o.serialization@)),
                Err(e) => parsed_origin(s@).is_none() && e == WebauthnError::InvalidOrigin,
            },
    {
        match parse_url(s) {
            Some((scheme, host, serialization)) => Ok(Origin { scheme, host, serialization }),
            None => Err(WebauthnError::InvalidOrigin),
        }
    }
}

} // verus!
