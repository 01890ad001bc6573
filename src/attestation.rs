use vstd::prelude::*;

verus! {

/// `n` as `k` bytes, most significant first.
pub open spec fn be_bytes(n: nat, k: nat) -> Seq<u8>
    decreases k,
{
    if k == 0 {
        Seq::<u8>::empty()
    } else {
        be_bytes(n / 256, (k - 1) as nat) + seq![(n % 256) as u8]
    }
}

/// The head of a CBOR item of major type `major` with argument `n`, in the
/// shortest form.
pub open spec fn cbor_head(major: u8, n: nat) -> Seq<u8> {
    let m = major as nat * 32;
    if n < 24 {
        seq![(m + n) as u8]
    } else if n < 0x100 {
        seq![(m + 24) as u8] + be_bytes(n, 1)
    } else if n < 0x10000 {
        seq![(m + 25) as u8] + be_bytes(n, 2)
    } else if n < 0x1_0000_0000 {
        seq![(m + 26) as u8] + be_bytes(n, 4)
    } else {
        seq![(m + 27) as u8] + be_bytes(n, 8)
    }
}

/// The canonical CBOR of the map head and the first keys of a "none" attestation
/// object: a map of three, `"fmt": "none"`, `"attStmt": {}`, then the key
/// `"authData"`. Keys stand in canonical order (shorter first).
pub open spec fn none_prefix() -> Seq<u8> {
    seq![
        0xA3u8, 0x63, 0x66, 0x6D, 0x74, 0x64, 0x6E, 0x6F, 0x6E, 0x65, 0x67, 0x61, 0x74, 0x74,
        0x53, 0x74, 0x6D, 0x74, 0xA0, 0x68, 0x61, 0x75, 0x74, 0x68, 0x44, 0x61, 0x74, 0x61,
    ]
}

/// The attestation object `{"fmt": "none", "attStmt": {}, "authData": auth_data}`.
pub open spec fn none_attestation_bytes(auth_data: Seq<u8>) -> Seq<u8> {
    none_prefix() + cbor_head(2, auth_data.len()) + auth_data
}

fn push_be(out: &mut Vec<u8>, n: u64, k: usize)
    requires
        k <= 8,
    ensures
        final(out)@ == old(out)@ + be_bytes(n as nat, k as nat),
    decreases k,
{
    if k == 0 {
        assert(be_bytes(n as nat, 0) =~= Seq::<u8>::empty());
        return;
    }
    push_be(out, n / 256, k - 1);
    out.push((n % 256) as u8);
    assert(be_bytes(n as nat, k as nat) == be_bytes((n / 256) as nat, (k - 1) as nat) + seq![
        (n % 256) as u8,
    ]);
    assert(final(out)@ =~= old(out)@ + be_bytes(n as nat, k as nat)) by {
        assert(out@ =~= old(out)@ + be_bytes((n / 256) as nat, (k - 1) as nat) + seq![(n % 256) as u8]);
    }
}

/// Appends the CBOR head of major type `major` with argument `n`.
fn push_cbor_head(out: &mut Vec<u8>, major: u8, n: u64)
    requires
        major < 8,
    ensures
        final(out)@ == old(out)@ + cbor_head(major, n as nat),
{
    let m: u8 = major * 32;
    if n < 24 {
        out.push(m + n as u8);
        assert(out@ =~= old(out)@ + cbor_head(major, n as nat));
    } else {
        let (tag, k): (u8, usize) = if n < 0x100 {
            (24, 1)
        } else if n < 0x10000 {
            (25, 2)
        } else if n < 0x1_0000_0000 {
            (26, 4)
        } else {
            (27, 8)
        };
        out.push(m + tag);
        push_be(out, n, k);
        assert(out@ =~= old(out)@ + cbor_head(major, n as nat));
    }
}

/// Encodes the "none" attestation object for `auth_data`.
pub fn none_attestation_object(auth_data: &Vec<u8>) -> (r: Vec<u8>)
    ensures
        r@ == none_attestation_bytes(auth_data@),
{
    let prefix: [u8; 28] = [
        0xA3, 0x63, 0x66, 0x6D, 0x74, 0x64, 0x6E, 0x6F, 0x6E, 0x65, 0x67, 0x61, 0x74, 0x74, 0x53,
        0x74, 0x6D, 0x74, 0xA0, 0x68, 0x61, 0x75, 0x74, 0x68, 0x44, 0x61, 0x74, 0x61,
    ];
    let mut out: Vec<u8> = Vec::new();
    let mut i: usize = 0;
    while i < 28
        invariant
            i <= 28,
            prefix@ == none_prefix(),
            out@ == none_prefix().subrange(0, i as int),
        decreases 28 - i,
    {
        out.push(prefix[i]);
        i = i + 1;
        proof {
            assert(out@ =~= none_prefix().subrange(0, i as int));
        }
    }
    assert(out@ =~= none_prefix());
    push_cbor_head(&mut out, 2, auth_data.len() as u64);
    let mut j: usize = 0;
    let ghost head = out@;
    while j < auth_data.len()
        invariant
            j <= auth_data@.len(),
            out@ == head + auth_data@.subrange(0, j as int),
        decreases auth_data.len() - j,
    {
        out.push(auth_data[j]);
        j = j + 1;
        proof {
            assert(out@ =~= head + auth_data@.subrange(0, j as int));
        }
    }
    assert(auth_data@.subrange(0, auth_data@.len() as int) =~= auth_data@);
    out
}

/// The canonical CBOR up to the signature of a "packed" self-attestation object
/// for ES256: a map of three, `"fmt": "packed"`, then the key `"attStmt"` with a
/// map of two, `"alg": -7` and the key `"sig"`.
pub open spec fn packed_prefix() -> Seq<u8> {
    seq![
        0xA3u8, 0x63, 0x66, 0x6D, 0x74, 0x66, 0x70, 0x61, 0x63, 0x6B, 0x65, 0x64, 0x67, 0x61, 0x74,
        0x74, 0x53, 0x74, 0x6D, 0x74, 0xA2, 0x63, 0x61, 0x6C, 0x67, 0x26, 0x63, 0x73, 0x69, 0x67,
    ]
}

/// The key `"authData"` in CBOR.
pub open spec fn auth_data_key() -> Seq<u8> {
    seq![0x68u8, 0x61, 0x75, 0x74, 0x68, 0x44, 0x61, 0x74, 0x61]
}

/// The attestation object `{"fmt": "packed", "attStmt": {"alg": -7, "sig": sig},
/// "authData": auth_data}`.
pub open spec fn packed_attestation_bytes(sig: Seq<u8>, auth_data: Seq<u8>) -> Seq<u8> {
    packed_prefix() + cbor_head(2, sig.len()) + sig + auth_data_key() + cbor_head(2, auth_data.len())
        + auth_data
}

fn push_bytes(out: &mut Vec<u8>, data: &[u8])
    ensures
        final(out)@ == old(out)@ + data@,
{
    let mut i: usize = 0;
    while i < data.len()
        invariant
            i <= data@.len(),
            out@ == old(out)@ + data@.subrange(0, i as int),
        decreases data.len() - i,
    {
        out.push(data[i]);
        i = i + 1;
        proof {
            assert(data@.subrange(0, i as int) =~= data@.subrange(0, i - 1) + seq![data@[i - 1]]);
        }
    }
    assert(data@.subrange(0, data@.len() as int) =~= data@);
}

/// Encodes the "packed" self-attestation object for `auth_data` and the ES256
/// signature `sig` that the new credential's key made over authData ‖ clientDataHash.
pub fn packed_attestation_object(sig: &Vec<u8>, auth_data: &Vec<u8>) -> (r: Vec<u8>)
    ensures
        r@ == packed_attestation_bytes(sig@, auth_data@),
{
    let prefix: [u8; 30] = [
        0xA3, 0x63, 0x66, 0x6D, 0x74, 0x66, 0x70, 0x61, 0x63, 0x6B, 0x65, 0x64, 0x67, 0x61, 0x74,
        0x74, 0x53, 0x74, 0x6D, 0x74, 0xA2, 0x63, 0x61, 0x6C, 0x67, 0x26, 0x63, 0x73, 0x69, 0x67,
    ];
    let key: [u8; 9] = [0x68, 0x61, 0x75, 0x74, 0x68, 0x44, 0x61, 0x74, 0x61];
    proof {
        assert(prefix@ =~= packed_prefix());
        assert(key@ =~= auth_data_key());
    }
    let mut out: Vec<u8> = Vec::new();
    push_bytes(&mut out, prefix.as_slice());
    push_cbor_head(&mut out, 2, sig.len() as u64);
    push_bytes(&mut out, sig.as_slice());
    push_bytes(&mut out, key.as_slice());
    push_cbor_head(&mut out, 2, auth_data.len() as u64);
    push_bytes(&mut out, auth_data.as_slice());
    assert(out@ =~= packed_attestation_bytes(sig@, auth_data@));
    out
}

} // verus!
