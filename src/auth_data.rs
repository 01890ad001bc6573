use vstd::prelude::*;

use sha2::Digest;
use vstd::utf8::encode_utf8;

verus! {

/// A name for the SHA-256 digest of `data`.
pub uninterp spec fn sha256_of(data: Seq<u8>) -> Seq<u8>;

/// Relies on sha2's `Sha256::digest`: the 32-byte SHA-256 digest of `data`.
#[verifier::external_body]
pub(crate) fn sha256(data: &[u8]) -> (r: Vec<u8>)
    ensures
        r@ == sha256_of(data@),
        r@.len() == 32,
{
    sha2::Sha256::digest(data).to_vec()
}

/// User present.
pub const FLAG_UP: u8 = 0x01;
/// User verified.
pub const FLAG_UV: u8 = 0x04;
/// Attested credential data included.
pub const FLAG_AT: u8 = 0x40;

/// The flags byte for the gathered gestures and whether credential data is attached.
pub open spec fn flags_spec(up: bool, uv: bool, at: bool) -> u8 {
    ((if up { 1int } else { 0 }) + (if uv { 4int } else { 0 }) + (if at { 64int } else { 0 })) as u8
}

/// Whether the bit `bit` (a power of two below 256) is set in `flags`.
pub open spec fn has_flag(flags: u8, bit: u8) -> bool {
    (flags as int / bit as int) % 2 == 1
}

pub fn flags_byte(up: bool, uv: bool, at: bool) -> (r: u8)
    ensures
        r == flags_spec(up, uv, at),
        has_flag(r, FLAG_UP) == up,
        has_flag(r, FLAG_UV) == uv,
        has_flag(r, FLAG_AT) == at,
{
    let mut f: u8 = 0;
    if up {
        f = f + FLAG_UP;
    }
    if uv {
        f = f + FLAG_UV;
    }
    if at {
        f = f + FLAG_AT;
    }
    f
}

/// `n` as four bytes, most significant first.
pub open spec fn u32_be(n: u32) -> Seq<u8> {
    seq![
        (n as int / 0x1000000) as u8,
        (n as int / 0x10000 % 0x100) as u8,
        (n as int / 0x100 % 0x100) as u8,
        (n as int % 0x100) as u8,
    ]
}

/// `n` as two bytes, most significant first.
pub open spec fn u16_be(n: nat) -> Seq<u8> {
    seq![(n / 0x100 % 0x100) as u8, (n % 0x100) as u8]
}

/// The credential data attached to the authenticator data of a new credential.
#[derive(Debug)]
pub struct AttestedCredentialData {
    /// The authenticator's model identifier, 16 bytes.
    pub aaguid: Vec<u8>,
    /// The new credential's ID.
    pub credential_id: Vec<u8>,
    /// The new credential's public key, COSE encoded.
    pub public_key: Vec<u8>,
}

pub open spec fn attested_bytes(aaguid: Seq<u8>, credential_id: Seq<u8>, public_key: Seq<u8>) -> Seq<u8> {
    aaguid + u16_be(credential_id.len()) + credential_id + public_key
}

/// The authenticator data: rpIdHash ‖ flags ‖ signCount (big-endian) ‖ the
/// attested credential data, if any.
pub open spec fn auth_data_bytes(
    rp_id_hash: Seq<u8>,
    flags: u8,
    sign_count: u32,
    attested: Option<Seq<u8>>,
) -> Seq<u8> {
    rp_id_hash + seq![flags] + u32_be(sign_count) + match attested {
        Some(a) => a,
        None => Seq::<u8>::empty(),
    }
}

pub(crate) fn push_all(out: &mut Vec<u8>, data: &Vec<u8>)
    ensures
        final(out)@ == old(out)@ + data@,
{
    let mut i: usize = 0;
    while i < data.len()
        invariant
            i <= data.len(),
            out@ == old(out)@ + data@.subrange(0, i as int),
        decreases data.len() - i,
    {
        out.push(data[i]);
        i = i + 1;
        proof {
            assert(data@.subrange(0, i as int) =~= data@.subrange(0, i - 1) + seq![data@[i - 1]]);
        }
    }
    assert(data@.subrange(0, data.len() as int) =~= data@);
}

impl AttestedCredentialData {
    /// The encoded credential data: AAGUID ‖ credential ID length (u16 BE) ‖ credential ID ‖ public key.
    pub fn to_bytes(&self) -> (r: Vec<u8>)
        requires
            self.credential_id@.len() < 0x10000,
        ensures
            r@ == attested_bytes(self.aaguid@, self.credential_id@, self.public_key@),
    {
        let mut out: Vec<u8> = Vec::new();
        push_all(&mut out, &self.aaguid);
        let n = self.credential_id.len();
        out.push((n / 256) as u8);
        out.push((n % 256) as u8);
        push_all(&mut out, &self.credential_id);
        push_all(&mut out, &self.public_key);
        assert(out@ =~= attested_bytes(self.aaguid@, self.credential_id@, self.public_key@));
        out
    }
}

/// Encodes authenticator data from its parts.
pub fn encode_auth_data(rp_id_hash: &Vec<u8>, flags: u8, sign_count: u32, attested: Option<&Vec<u8>>) -> (r: Vec<u8>)
    ensures
        r@ == auth_data_bytes(
            rp_id_hash@,
            flags,
            sign_count,
            match attested {
                Some(a) => Some(a@),
                None => None,
            },
        ),
{
    let mut out: Vec<u8> = Vec::new();
    push_all(&mut out, rp_id_hash);
    out.push(flags);
    out.push((sign_count / 0x1000000) as u8);
    out.push((sign_count / 0x10000 % 0x100) as u8);
    out.push((sign_count / 0x100 % 0x100) as u8);
    out.push((sign_count % 0x100) as u8);
    match attested {
        Some(a) => push_all(&mut out, a),
        None => {},
    }
    assert(out@ =~= auth_data_bytes(
        rp_id_hash@,
        flags,
        sign_count,
        match attested {
            Some(a) => Some(a@),
            None => None,
        },
    ));
    out
}

/// The rpIdHash field of encoded authenticator data: its first 32 bytes.
pub fn rp_id_hash(auth_data: &Vec<u8>) -> (r: Vec<u8>)
    requires
        auth_data@.len() >= 32,
    ensures
        r@ == auth_data@.subrange(0, 32),
{
    let mut r: Vec<u8> = Vec::new();
    let mut i: usize = 0;
    while i < 32
        invariant
            i <= 32,
            auth_data@.len() >= 32,
            r@ == auth_data@.subrange(0, i as int),
        decreases 32 - i,
    {
        r.push(auth_data[i]);
        i = i + 1;
    }
    r
}

/// Authenticator data built for an RP ID starts with the SHA-256 digest of that
/// RP ID: reading the rpIdHash field back gives the digest.
pub proof fn lemma_rp_id_hash_of_auth_data(rp_id: Seq<char>, flags: u8, sign_count: u32, attested: Option<Seq<u8>>)
    ensures
        ({
            let h = sha256_of(encode_utf8(rp_id));
            let d = auth_data_bytes(h, flags, sign_count, attested);
            d.len() >= h.len() && d.subrange(0, h.len() as int) == h
        }),
{
    let h = sha256_of(encode_utf8(rp_id));
    assert(auth_data_bytes(h, flags, sign_count, attested).subrange(0, h.len() as int) =~= h);
}

} // verus!
