//! JWT bearer construction: decoding the hex-encoded secret file and
//! minting the HS256 token each outbound call carries.

use vstd::prelude::*;
use vstd::string::StringExecFns;

verus! {

/// The HS256 JWT over header `{alg: HS256, typ: JWT}` and claim
/// `{iat: <iat>}`, signed with `secret`: a function of the two alone.
pub uninterp spec fn jwt_of(secret: Seq<u8>, iat: u64) -> Seq<char>;

/// Whether `c` is an ASCII hex digit.
pub open spec fn spec_is_hex_digit(c: u8) -> bool {
    (0x30 <= c <= 0x39) || (0x41 <= c <= 0x46) || (0x61 <= c <= 0x66)
}

/// The value of an ASCII hex digit.
pub open spec fn spec_hex_val(c: u8) -> u8 {
    if 0x30 <= c <= 0x39 {
        (c - 0x30) as u8
    } else if 0x41 <= c <= 0x46 {
        (c - 0x41 + 10) as u8
    } else {
        (c - 0x61 + 10) as u8
    }
}

/// Whether `c` is ASCII whitespace (space, tab, line feed, carriage return).
pub open spec fn spec_is_ws(c: u8) -> bool {
    c == 0x20 || c == 0x09 || c == 0x0a || c == 0x0d
}

/// `s` with all whitespace removed.
pub open spec fn spec_strip_ws(s: Seq<u8>) -> Seq<u8>
    decreases s.len(),
{
    if s.len() == 0 {
        s
    } else if spec_is_ws(s[0]) {
        spec_strip_ws(s.skip(1))
    } else {
        seq![s[0]] + spec_strip_ws(s.skip(1))
    }
}

/// `s` with one leading `0x` prefix removed, if present.
pub open spec fn spec_strip_0x(s: Seq<u8>) -> Seq<u8> {
    if s.len() >= 2 && s[0] == 0x30 && (s[1] == 0x78 || s[1] == 0x58) {
        s.skip(2)
    } else {
        s
    }
}

/// Whether `s` is a well-formed hex string: even length, hex digits only.
pub open spec fn spec_is_hex(s: Seq<u8>) -> bool {
    s.len() % 2 == 0 && (forall|i: int| 0 <= i < s.len() ==> spec_is_hex_digit(#[trigger] s[i]))
}

/// The bytes a hex string denotes, two digits each.
pub open spec fn spec_hex_decode(s: Seq<u8>) -> Seq<u8>
    decreases s.len(),
{
    if s.len() < 2 {
        Seq::empty()
    } else {
        seq![(spec_hex_val(s[0]) * 16 + spec_hex_val(s[1])) as u8] + spec_hex_decode(s.skip(2))
    }
}

/// The signing key a secret file's contents denote: its hex decoding after
/// whitespace and an optional `0x` prefix are stripped, or the raw contents
/// where they are not hex.
pub open spec fn spec_jwt_secret(contents: Seq<u8>) -> Seq<u8> {
    let cleaned = spec_strip_0x(spec_strip_ws(contents));
    if cleaned.len() > 0 && spec_is_hex(cleaned) {
        spec_hex_decode(cleaned)
    } else {
        contents
    }
}

/// Removes all ASCII whitespace from `s`.
fn strip_ws(s: &Vec<u8>) -> (r: Vec<u8>)
    ensures
        r@ == spec_strip_ws(s@),
{
    let mut r: Vec<u8> = Vec::new();
    let mut k: usize = 0;
    assert(s@.skip(0) =~= s@);
    while k < s.len()
        invariant
            k <= s@.len(),
            spec_strip_ws(s@) == r@ + spec_strip_ws(s@.skip(k as int)),
        decreases s@.len() - k,
    {
        proof {
            assert(s@.skip(k as int)[0] == s@[k as int]);
            assert(s@.skip(k as int).skip(1) =~= s@.skip(k as int + 1));
        }
        let c = s[k];
        if !(c == 0x20 || c == 0x09 || c == 0x0a || c == 0x0d) {
            let ghost pre = r@;
            r.push(c);
            proof {
                assert(r@ + spec_strip_ws(s@.skip(k as int + 1)) =~= pre + (seq![s@[k as int]]
                    + spec_strip_ws(s@.skip(k as int + 1))));
            }
        }
        k += 1;
    }
    proof {
        assert(s@.skip(s@.len() as int) =~= Seq::<u8>::empty());
        assert(r@ + Seq::<u8>::empty() =~= r@);
    }
    r
}

/// Decodes the contents of a JWT secret file: hex (with optional `0x`
/// prefix, whitespace ignored) gives the decoded bytes; anything else is
/// taken as the raw key.
pub fn decode_jwt_secret(contents: &Vec<u8>) -> (r: Vec<u8>)
    ensures
        r@ == spec_jwt_secret(contents@),
{
    let stripped = strip_ws(contents);
    let cleaned = if stripped.len() >= 2 && stripped[0] == 0x30 && (stripped[1] == 0x78
        || stripped[1] == 0x58) {
        let mut c: Vec<u8> = Vec::new();
        let mut k: usize = 2;
        while k < stripped.len()
            invariant
                2 <= k <= stripped@.len(),
                c@ =~= stripped@.subrange(2, k as int),
            decreases stripped@.len() - k,
        {
            c.push(stripped[k]);
            k += 1;
        }
        assert(c@ =~= stripped@.skip(2));
        c
    } else {
        stripped
    };
    let n = cleaned.len();
    let mut all_hex = true;
    let mut k: usize = 0;
    while k < n
        invariant
            k <= n,
            n == cleaned@.len(),
            all_hex == (forall|i: int| 0 <= i < k ==> spec_is_hex_digit(#[trigger] cleaned@[i])),
        decreases n - k,
    {
        let c = cleaned[k];
        let is_digit = (0x30 <= c && c <= 0x39) || (0x41 <= c && c <= 0x46) || (0x61 <= c && c
            <= 0x66);
        all_hex = all_hex && is_digit;
        k += 1;
    }
    if n > 0 && n % 2 == 0 && all_hex {
        let mut out: Vec<u8> = Vec::new();
        let mut k: usize = 0;
        assert(cleaned@.skip(0) =~= cleaned@);
        while k < n
            invariant
                k <= n,
                k % 2 == 0,
                n == cleaned@.len(),
                n % 2 == 0,
                forall|i: int| 0 <= i < n ==> spec_is_hex_digit(#[trigger] cleaned@[i]),
                spec_hex_decode(cleaned@) == out@ + spec_hex_decode(cleaned@.skip(k as int)),
            decreases n - k,
        {
            proof {
                assert(cleaned@.skip(k as int)[0] == cleaned@[k as int]);
                assert(cleaned@.skip(k as int)[1] == cleaned@[k as int + 1]);
                assert(cleaned@.skip(k as int).skip(2) =~= cleaned@.skip(k as int + 2));
            }
            let hi = hex_val(cleaned[k]);
            let lo = hex_val(cleaned[k + 1]);
            let ghost pre = out@;
            out.push(hi * 16 + lo);
            proof {
                assert(out@ + spec_hex_decode(cleaned@.skip(k as int + 2)) =~= pre + (seq![
                    (spec_hex_val(cleaned@[k as int]) * 16 + spec_hex_val(
                        cleaned@[k as int + 1],
                    )) as u8,
                ] + spec_hex_decode(cleaned@.skip(k as int + 2))));
            }
            k += 2;
        }
        proof {
            assert(cleaned@.skip(n as int) =~= Seq::<u8>::empty());
            assert(out@ + Seq::<u8>::empty() =~= out@);
        }
        out
    } else {
        let mut raw: Vec<u8> = Vec::new();
        let mut k: usize = 0;
        while k < contents.len()
            invariant
                k <= contents@.len(),
                raw@ =~= contents@.subrange(0, k as int),
            decreases contents@.len() - k,
        {
            raw.push(contents[k]);
            k += 1;
        }
        assert(raw@ =~= contents@);
        raw
    }
}

/// The value of one ASCII hex digit.
fn hex_val(c: u8) -> (v: u8)
    requires
        spec_is_hex_digit(c),
    ensures
        v == spec_hex_val(c),
        v < 16,
{
    if 0x30 <= c && c <= 0x39 {
        c - 0x30
    } else if 0x41 <= c && c <= 0x46 {
        c - 0x41 + 10
    } else {
        c - 0x61 + 10
    }
}

/// Relies on `jsonwebtoken::encode` with the default HS256 header and an
/// `iat`-only claim set: the token is a function of the secret and the
/// issue time alone. On this path the call always succeeds — the key
/// family matches the HS256 header, the fixed header and the one-entry
/// integer claim map cannot fail to serialize, and HMAC signing accepts
/// every key — so a token is always returned.
#[verifier::external_body]
fn encode_jwt(secret: &Vec<u8>, iat: u64) -> (r: String)
    ensures
        r@ == jwt_of(secret@, iat),
{
    let mut claims = std::collections::HashMap::new();
    claims.insert("iat", iat);
    let key = jsonwebtoken::EncodingKey::from_secret(secret.as_slice());
    jsonwebtoken::encode(&jsonwebtoken::Header::default(), &claims, &key).unwrap()
}

/// Mints the Authorization header value for one outbound call: `Bearer `
/// followed by a fresh HS256 token with the given issue time.
pub fn make_bearer(secret: &Vec<u8>, now_unix: u64) -> (r: String)
    ensures
        r@ == "Bearer "@ + jwt_of(secret@, now_unix),
{
    let token = encode_jwt(secret, now_unix);
    String::from_str("Bearer ").concat(token.as_str())
}

} // verus!
