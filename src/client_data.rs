use vstd::prelude::*;

use vstd::utf8::encode_utf8;

verus! {

/// A lower-case hexadecimal digit for `n < 16`.
pub open spec fn hex_lower(n: int) -> char {
    if n < 10 {
        (48 + n) as char
    } else {
        (87 + n) as char
    }
}

/// A character as it stands inside a JSON string: quote and backslash escaped,
/// the controls U+0008, U+0009, U+000A, U+000C, U+000D in their short forms,
/// the other controls below U+0020 as `\u00xx`, every other character as is.
pub open spec fn json_escape_char(c: char) -> Seq<char> {
    let n = (c as u32) as int;
    if c == '"' {
        seq!['\\', '"']
    } else if c == '\\' {
        seq!['\\', '\\']
    } else if n == 8 {
        seq!['\\', 'b']
    } else if n == 9 {
        seq!['\\', 't']
    } else if n == 10 {
        seq!['\\', 'n']
    } else if n == 12 {
        seq!['\\', 'f']
    } else if n == 13 {
        seq!['\\', 'r']
    } else if n < 32 {
        seq!['\\', 'u', '0', '0', hex_lower(n / 16), hex_lower(n % 16)]
    } else {
        seq![c]
    }
}

pub open spec fn json_escape(s: Seq<char>) -> Seq<char>
    decreases s.len(),
{
    if s.len() == 0 {
        Seq::<char>::empty()
    } else {
        json_escape(s.drop_last()) + json_escape_char(s.last())
    }
}

/// The JSON string literal of the text `s`, quotes included.
pub open spec fn json_quoted(s: Seq<char>) -> Seq<char> {
    seq!['"'] + json_escape(s) + seq!['"']
}

/// Relies on serde_json's `to_string` on a `str`: the JSON string literal of `s`,
/// escaped by serde_json's `ESCAPE` table and `write_char_escape` (serialising a
/// string does not fail).
#[verifier::external_body]
fn json_quote(s: &str) -> (r: String)
    ensures
        r@ == json_quoted(s@),
{
    match serde_json::to_string(s) {
        Ok(q) => q,
        Err(_) => String::new(),
    }
}

/// The UTF-8 text `s` as a JSON string literal.
pub open spec fn json_string(s: Seq<char>) -> Seq<u8> {
    encode_utf8(json_quoted(s))
}

/// A JSON object member: the key as a string, a colon, and the encoded value.
pub open spec fn member(key: Seq<char>, value: Seq<u8>) -> Seq<u8> {
    json_string(key) + seq![58u8] + value
}

/// The extra members, each preceded by a comma, values as strings.
pub open spec fn extra_members(extra: Seq<(Seq<char>, Seq<char>)>) -> Seq<u8>
    decreases extra.len(),
{
    if extra.len() == 0 {
        Seq::<u8>::empty()
    } else {
        extra_members(extra.drop_last()) + seq![44u8] + member(extra.last().0, json_string(extra.last().1))
    }
}

pub open spec fn key_type() -> Seq<char> {
    seq!['t', 'y', 'p', 'e']
}

pub open spec fn key_challenge() -> Seq<char> {
    seq!['c', 'h', 'a', 'l', 'l', 'e', 'n', 'g', 'e']
}

pub open spec fn key_origin() -> Seq<char> {
    seq!['o', 'r', 'i', 'g', 'i', 'n']
}

pub open spec fn key_cross_origin() -> Seq<char> {
    seq!['c', 'r', 'o', 's', 's', 'O', 'r', 'i', 'g', 'i', 'n']
}

pub open spec fn json_false() -> Seq<char> {
    seq!['f', 'a', 'l', 's', 'e']
}

pub open spec fn type_create() -> Seq<char> {
    seq!['w', 'e', 'b', 'a', 'u', 't', 'h', 'n', '.', 'c', 'r', 'e', 'a', 't', 'e']
}

pub open spec fn type_get() -> Seq<char> {
    seq!['w', 'e', 'b', 'a', 'u', 't', 'h', 'n', '.', 'g', 'e', 't']
}

/// The fixed members of CollectedClientData: `{` then type, challenge, origin and
/// crossOrigin (false).
pub open spec fn client_data_head(ty: Seq<char>, challenge: Seq<char>, origin: Seq<char>) -> Seq<u8> {
    seq![123u8] + member(key_type(), json_string(ty)) + seq![44u8] + member(
        key_challenge(),
        json_string(challenge),
    ) + seq![44u8] + member(key_origin(), json_string(origin)) + seq![44u8] + member(
        key_cross_origin(),
        encode_utf8(json_false()),
    )
}

/// The CollectedClientData JSON, keys in order: type, challenge, origin,
/// crossOrigin (false), then the extra members.
pub open spec fn client_data_bytes(
    ty: Seq<char>,
    challenge: Seq<char>,
    origin: Seq<char>,
    extra: Seq<(Seq<char>, Seq<char>)>,
) -> Seq<u8> {
    client_data_head(ty, challenge, origin) + extra_members(extra) + seq![125u8]
}

pub open spec fn pairs_view(v: Seq<(String, String)>) -> Seq<(Seq<char>, Seq<char>)> {
    v.map_values(|p: (String, String)| (p.0@, p.1@))
}

fn push_raw(out: &mut Vec<u8>, s: &str)
    ensures
        final(out)@ == old(out)@ + encode_utf8(s@),
{
    let b = s.as_bytes();
    let mut i: usize = 0;
    while i < b.len()
        invariant
            i <= b@.len(),
            b@ == encode_utf8(s@),
            out@ == old(out)@ + b@.subrange(0, i as int),
        decreases b.len() - i,
    {
        out.push(b[i]);
        i = i + 1;
        proof {
            assert(b@.subrange(0, i as int) =~= b@.subrange(0, i - 1) + seq![b@[i - 1]]);
        }
    }
    assert(b@.subrange(0, b@.len() as int) =~= b@);
}

fn push_json_string(out: &mut Vec<u8>, s: &str)
    ensures
        final(out)@ == old(out)@ + json_string(s@),
{
    let q = json_quote(s);
    push_raw(out, q.as_str());
}

fn push_member(out: &mut Vec<u8>, key: &str, value: &str)
    ensures
        final(out)@ == old(out)@ + member(key@, json_string(value@)),
{
    push_json_string(out, key);
    out.push(58u8);
    push_json_string(out, value);
    assert(out@ =~= old(out)@ + member(key@, json_string(value@)));
}

fn push_cross_origin(out: &mut Vec<u8>)
    ensures
        final(out)@ == old(out)@ + member(key_cross_origin(), encode_utf8(json_false())),
{
    proof {
        reveal_strlit("crossOrigin");
        reveal_strlit("false");
        assert("crossOrigin"@ =~= key_cross_origin());
        assert("false"@ =~= json_false());
    }
    push_json_string(out, "crossOrigin");
    out.push(58u8);
    push_raw(out, "false");
    assert(out@ =~= old(out)@ + member(key_cross_origin(), encode_utf8(json_false())));
}

fn client_data_head_exec(ty: &str, challenge: &str, origin: &str) -> (r: Vec<u8>)
    ensures
        r@ == client_data_head(ty@, challenge@, origin@),
{
    proof {
        reveal_strlit("type");
        reveal_strlit("challenge");
        reveal_strlit("origin");
        assert("type"@ =~= key_type());
        assert("challenge"@ =~= key_challenge());
        assert("origin"@ =~= key_origin());
    }
    let mut out: Vec<u8> = Vec::new();
    out.push(123u8);
    assert(out@ =~= seq![123u8]);
    push_member(&mut out, "type", ty);
    out.push(44u8);
    assert(out@ =~= seq![123u8] + member(key_type(), json_string(ty@)) + seq![44u8]);
    push_member(&mut out, "challenge", challenge);
    out.push(44u8);
    push_member(&mut out, "origin", origin);
    out.push(44u8);
    push_cross_origin(&mut out);
    assert(out@ =~= client_data_head(ty@, challenge@, origin@));
    out
}

/// The CollectedClientData JSON bytes for a ceremony of type `ty`.
pub fn client_data_json(ty: &str, challenge: &str, origin: &str, extra: &Vec<(String, String)>) -> (r: Vec<u8>)
    ensures
        r@ == client_data_bytes(ty@, challenge@, origin@, pairs_view(extra@)),
{
    let mut out = client_data_head_exec(ty, challenge, origin);
    let ghost head = out@;
    let mut i: usize = 0;
    while i < extra.len()
        invariant
            i <= extra@.len(),
            out@ == head + extra_members(pairs_view(extra@).subrange(0, i as int)),
        decreases extra.len() - i,
    {
        proof {
            assert(pairs_view(extra@).subrange(0, i + 1).drop_last() =~= pairs_view(extra@).subrange(0, i as int));
        }
        out.push(44u8);
        push_member(&mut out, extra[i].0.as_str(), extra[i].1.as_str());
        i = i + 1;
        proof {
            assert(out@ =~= head + extra_members(pairs_view(extra@).subrange(0, i as int)));
        }
    }
    assert(pairs_view(extra@).subrange(0, extra@.len() as int) =~= pairs_view(extra@));
    out.push(125u8);
    assert(out@ =~= client_data_bytes(ty@, challenge@, origin@, pairs_view(extra@)));
    out
}

} // verus!
