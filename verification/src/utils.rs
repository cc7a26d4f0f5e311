//! Small verified helpers: time conversion, byte/string comparison, hex
//! decoding and principal encoding.

use vstd::prelude::*;
use base64::Engine;
use vstd::slice::slice_index_get;
use vstd::string::StringSliceAdditionalSpecFns;
use vstd::utf8::*;

verus! {

/// Nanoseconds in one second; token claims carry seconds, the platform
/// carries nanoseconds.
pub const NANOS_IN_SECONDS: u64 = 1_000_000_000;

/// Converts a platform timestamp in nanoseconds to whole unix seconds.
pub fn unix_timestamp(now_ns: u64) -> (s: u64)
    ensures
        s == now_ns / NANOS_IN_SECONDS,
{
    now_ns / NANOS_IN_SECONDS
}

/// Byte-for-byte equality of two byte vectors.
pub fn bytes_eq(a: &Vec<u8>, b: &Vec<u8>) -> (r: bool)
    ensures
        r <==> a@ == b@,
{
    if a.len() != b.len() {
        proof {
            assert(a@ != b@);
        }
        return false;
    }
    let n = a.len();
    for i in 0..n
        invariant
            n == a@.len(),
            n == b@.len(),
            forall|j: int| 0 <= j < i ==> a@[j] == b@[j],
    {
        if a[i] != b[i] {
            proof {
                assert(a@[i as int] != b@[i as int]);
            }
            return false;
        }
    }
    proof {
        assert(a@ =~= b@);
    }
    true
}

/// Equality of two string slices, decided on their UTF-8 bytes.
pub fn str_eq(a: &str, b: &str) -> (r: bool)
    ensures
        r <==> a@ == b@,
{
    broadcast use encode_utf8_decode_utf8;

    let ab = a.as_bytes();
    let bb = b.as_bytes();
    if ab.len() != bb.len() {
        proof {
            assert(a@ != b@);
        }
        return false;
    }
    let n = ab.len();
    for i in 0..n
        invariant
            n == ab@.len(),
            n == bb@.len(),
            ab@ == a.spec_bytes(),
            bb@ == b.spec_bytes(),
            forall|j: int| 0 <= j < i ==> ab@[j] == bb@[j],
    {
        if *slice_index_get(ab, i) != *slice_index_get(bb, i) {
            proof {
                assert(a.spec_bytes()[i as int] != b.spec_bytes()[i as int]);
            }
            return false;
        }
    }
    proof {
        assert(a.spec_bytes() =~= b.spec_bytes());
        assert(decode_utf8(encode_utf8(a@)) == a@);
        assert(decode_utf8(encode_utf8(b@)) == b@);
    }
    true
}

/// Whether `c` is an ASCII hexadecimal digit, either case.
pub open spec fn is_hex_digit(c: char) -> bool {
    ('0' <= c && c <= '9') || ('a' <= c && c <= 'f') || ('A' <= c && c <= 'F')
}

/// The value of one hexadecimal digit.
pub open spec fn hex_val(c: char) -> u8
    recommends
        is_hex_digit(c),
{
    if '0' <= c && c <= '9' {
        (c as u8 - 48) as u8
    } else if 'a' <= c && c <= 'f' {
        (c as u8 - 87) as u8
    } else {
        (c as u8 - 55) as u8
    }
}

/// The bytes denoted by a sequence of hexadecimal digit pairs.
pub open spec fn spec_hex_decode(s: Seq<char>) -> Seq<u8>
    recommends
        s.len() % 2 == 0,
    decreases s.len(),
{
    if s.len() < 2 {
        seq![]
    } else {
        seq![(hex_val(s[0]) as u8 * 16 + hex_val(s[1])) as u8] + spec_hex_decode(s.skip(2))
    }
}

/// What URL-safe base64 decoding without padding yields on a string, if it
/// is well-formed.
pub uninterp spec fn b64url_of(s: Seq<char>) -> Option<Seq<u8>>;

/// Relies on base64's URL_SAFE_NO_PAD engine: decoding succeeds exactly on
/// well-formed input and the bytes depend on the input alone.
#[verifier::external_body]
pub fn base64_decode(s: &str) -> (r: Result<Vec<u8>, crate::id_token::DecodeError>)
    ensures
        r is Ok <==> b64url_of(s@) is Some,
        r matches Ok(v) ==> b64url_of(s@) == Some(v@),
        r matches Err(e) ==> e == crate::id_token::DecodeError::Base64,
{
    match base64::engine::general_purpose::URL_SAFE_NO_PAD.decode(s) {
        Ok(v) => Ok(v),
        Err(_) => Err(crate::id_token::DecodeError::Base64),
    }
}

/// Relies on hex::decode: two digits per byte, either case; an odd length or
/// a non-digit character is rejected.
#[verifier::external_body]
pub fn hex_decode(s: &str) -> (r: Option<Vec<u8>>)
    ensures
        r is Some <==> (s@.len() % 2 == 0 && forall|i: int|
            0 <= i < s@.len() ==> is_hex_digit(s@[i])),
        r matches Some(v) ==> v@ == spec_hex_decode(s@),
{
    hex::decode(s).ok()
}

/// Appends the bytes of `src` to `out`.
pub fn append_bytes(out: &mut Vec<u8>, src: &Vec<u8>)
    ensures
        final(out)@ == old(out)@ + src@,
{
    let n = src.len();
    for j in 0..n
        invariant
            n == src@.len(),
            out@ =~= old(out)@ + src@.take(j as int),
    {
        out.push(src[j]);
        proof {
            assert(out@ =~= old(out)@ + src@.take(j + 1));
        }
    }
    proof {
        assert(old(out)@ + src@.take(n as int) =~= old(out)@ + src@);
    }
}

/// Copies the bytes of `v` between `from` and `to` into a new vector.
pub fn vec_subrange(v: &Vec<u8>, from: usize, to: usize) -> (r: Vec<u8>)
    requires
        from <= to <= v@.len(),
    ensures
        r@ == v@.subrange(from as int, to as int),
{
    let mut out: Vec<u8> = Vec::new();
    for i in from..to
        invariant
            from <= to <= v@.len(),
            out@ =~= v@.subrange(from as int, i as int),
    {
        out.push(v[i]);
        proof {
            assert(out@ =~= v@.subrange(from as int, i + 1));
        }
    }
    out
}

/// The fixed-size caller-identity encoding kept in the registry: the first
/// 29 bytes of the principal's bytes.
pub fn principal_to_blob(principal: &Vec<u8>) -> (r: Vec<u8>)
    requires
        principal@.len() >= 29,
    ensures
        r@ == principal@.subrange(0, 29),
{
    let mut out: Vec<u8> = Vec::new();
    for i in 0..29usize
        invariant
            principal@.len() >= 29,
            out@ =~= principal@.subrange(0, i as int),
    {
        out.push(principal[i]);
        proof {
            assert(out@ =~= principal@.subrange(0, i + 1));
        }
    }
    out
}

} // verus!
