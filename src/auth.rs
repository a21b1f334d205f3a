use vstd::prelude::*;
use subtle::ConstantTimeEq;
use crate::error::PipelineError;
use crate::text::{has_prefix, strip_prefix};

verus! {

/// The prefix of the signature header, before the hex digest.
pub const SIGNATURE_PREFIX: &'static str = "sha256=";

/// The HMAC-SHA256 of `msg` under `key`.
pub uninterp spec fn hmac_sha256_of(key: Seq<u8>, msg: Seq<u8>) -> Seq<u8>;

pub open spec fn is_hex_digit(c: char) -> bool {
    ('0' <= c && c <= '9') || ('a' <= c && c <= 'f') || ('A' <= c && c <= 'F')
}

pub open spec fn hex_digit_value(c: char) -> int {
    if '0' <= c && c <= '9' {
        c as int - '0' as int
    } else if 'a' <= c && c <= 'f' {
        c as int - 'a' as int + 10
    } else {
        c as int - 'A' as int + 10
    }
}

/// The bytes that a hex string stands for: two digits per byte, high digit
/// first, either case; `None` for an odd length or a non-digit.
pub open spec fn hex_decoded(s: Seq<char>) -> Option<Seq<u8>> {
    if s.len() % 2 == 0 && forall|i: int| 0 <= i < s.len() ==> is_hex_digit(#[trigger] s[i]) {
        Some(
            Seq::new(
                s.len() / 2,
                |i: int| (hex_digit_value(s[2 * i]) * 16 + hex_digit_value(s[2 * i + 1])) as u8,
            ),
        )
    } else {
        None
    }
}

pub open spec fn lower_hex_digits() -> Seq<char> {
    seq!['0', '1', '2', '3', '4', '5', '6', '7', '8', '9', 'a', 'b', 'c', 'd', 'e', 'f']
}

/// Lower-case hex text of `b`, two digits per byte.
pub open spec fn hex_encoded(b: Seq<u8>) -> Seq<char> {
    Seq::new(
        2 * b.len(),
        |i: int|
            if i % 2 == 0 {
                lower_hex_digits()[b[i / 2] as int / 16]
            } else {
                lower_hex_digits()[b[i / 2] as int % 16]
            },
    )
}

/// The signature header value that signs a body whose MAC is `mac`.
pub open spec fn signature_header(mac: Seq<u8>) -> Seq<char> {
    SIGNATURE_PREFIX@ + hex_encoded(mac)
}

/// The verdict on a signature header, given the MAC of the body.
pub open spec fn signature_verdict(signature: Option<Seq<char>>, mac: Seq<u8>) -> Result<
    (),
    PipelineError,
> {
    match signature {
        None => Err(PipelineError::SignatureMissing),
        Some(s) => if !has_prefix(s, SIGNATURE_PREFIX@) {
            Err(PipelineError::SignatureMalformed)
        } else {
            match hex_decoded(s.subrange(SIGNATURE_PREFIX@.len() as int, s.len() as int)) {
                None => Err(PipelineError::SignatureMalformed),
                Some(d) => if d == mac {
                    Ok(())
                } else {
                    Err(PipelineError::SignatureMismatch)
                },
            }
        },
    }
}

pub open spec fn opt_str_view(s: Option<&str>) -> Option<Seq<char>> {
    match s {
        Some(t) => Some(t@),
        None => None,
    }
}

/// Relies on hmac_sha256::HMAC::mac: the 32-byte HMAC-SHA256 of `msg` under `key`.
#[verifier::external_body]
fn hmac_sha256(msg: &[u8], key: &[u8]) -> (r: Vec<u8>)
    ensures
        r@ == hmac_sha256_of(key@, msg@),
        r@.len() == 32,
{
    hmac_sha256::HMAC::mac(msg, key).to_vec()
}

/// Relies on hex::decode: pairs of hex digits of either case, high digit first,
/// to bytes; an error for an odd length or any other character.
#[verifier::external_body]
fn decode_hex(s: &str) -> (r: Option<Vec<u8>>)
    ensures
        match r {
            Some(v) => hex_decoded(s@) == Some(v@),
            None => hex_decoded(s@) is None,
        },
{
    hex::decode(s).ok()
}

/// Relies on subtle's ConstantTimeEq for slices: true exactly when the two
/// slices have the same length and the same bytes, in time independent of
/// the contents.
#[verifier::external_body]
fn constant_time_eq(a: &[u8], b: &[u8]) -> (r: bool)
    ensures
        r == (a@ == b@),
{
    a.ct_eq(b).into()
}

/// Checks a signature header against the MAC of the body.
pub fn check_signature(signature: Option<&str>, mac: &[u8]) -> (r: Result<(), PipelineError>)
    ensures
        r == signature_verdict(opt_str_view(signature), mac@),
{
    let header = match signature {
        None => {
            return Err(PipelineError::SignatureMissing);
        },
        Some(h) => h,
    };
    let digest = match strip_prefix(header, SIGNATURE_PREFIX) {
        None => {
            return Err(PipelineError::SignatureMalformed);
        },
        Some(d) => d,
    };
    let expected = match decode_hex(digest) {
        None => {
            return Err(PipelineError::SignatureMalformed);
        },
        Some(e) => e,
    };
    if constant_time_eq(mac, expected.as_slice()) {
        Ok(())
    } else {
        Err(PipelineError::SignatureMismatch)
    }
}

/// Authenticates a webhook body: the signature header must be `sha256=`
/// followed by the hex HMAC-SHA256 of the body under the shared secret.
pub fn authenticate(body: &[u8], signature: Option<&str>, secret: &[u8]) -> (r: Result<
    (),
    PipelineError,
>)
    ensures
        r == signature_verdict(opt_str_view(signature), hmac_sha256_of(secret@, body@)),
{
    if signature.is_none() {
        return Err(PipelineError::SignatureMissing);
    }
    let mac = hmac_sha256(body, secret);
    check_signature(signature, mac.as_slice())
}

proof fn lemma_hex_digit(n: int)
    requires
        0 <= n < 16,
    ensures
        is_hex_digit(lower_hex_digits()[n]),
        hex_digit_value(lower_hex_digits()[n]) == n,
{
}

proof fn lemma_hex_round_trip(b: Seq<u8>)
    ensures
        hex_decoded(hex_encoded(b)) == Some(b),
{
    let s = hex_encoded(b);
    assert forall|i: int| 0 <= i < s.len() implies is_hex_digit(#[trigger] s[i]) by {
        let x = b[i / 2] as int;
        if i % 2 == 0 {
            lemma_hex_digit(x / 16);
        } else {
            lemma_hex_digit(x % 16);
        }
    }
    let d = hex_decoded(s)->Some_0;
    assert forall|i: int| 0 <= i < b.len() implies #[trigger] d[i] == b[i] by {
        let x = b[i] as int;
        assert((2 * i) / 2 == i);
        assert((2 * i + 1) / 2 == i);
        assert((2 * i) % 2 == 0);
        assert((2 * i + 1) % 2 == 1);
        lemma_hex_digit(x / 16);
        lemma_hex_digit(x % 16);
        assert((x / 16) * 16 + x % 16 == x) by (nonlinear_arith);
    }
    assert(d =~= b);
}

/// A body signed with the shared secret is accepted: the header
/// `sha256=<hex of HMAC(secret, body)>` passes the check for that body.
pub proof fn lemma_own_signature_accepted(body: Seq<u8>, secret: Seq<u8>)
    ensures
        signature_verdict(
            Some(signature_header(hmac_sha256_of(secret, body))),
            hmac_sha256_of(secret, body),
        ) == Ok::<(), PipelineError>(()),
{
    let mac = hmac_sha256_of(secret, body);
    let s = signature_header(mac);
    lemma_hex_round_trip(mac);
    assert(s.subrange(0, SIGNATURE_PREFIX@.len() as int) =~= SIGNATURE_PREFIX@);
    assert(s.subrange(SIGNATURE_PREFIX@.len() as int, s.len() as int) =~= hex_encoded(mac));
}

/// A signature made over another body is refused as a mismatch, wherever
/// the two bodies' MACs under the secret differ.
pub proof fn lemma_foreign_signature_refused(body: Seq<u8>, other: Seq<u8>, secret: Seq<u8>)
    requires
        hmac_sha256_of(secret, body) != hmac_sha256_of(secret, other),
    ensures
        signature_verdict(
            Some(signature_header(hmac_sha256_of(secret, other))),
            hmac_sha256_of(secret, body),
        ) == Err::<(), PipelineError>(PipelineError::SignatureMismatch),
{
    let mac = hmac_sha256_of(secret, other);
    let s = signature_header(mac);
    lemma_hex_round_trip(mac);
    assert(s.subrange(0, SIGNATURE_PREFIX@.len() as int) =~= SIGNATURE_PREFIX@);
    assert(s.subrange(SIGNATURE_PREFIX@.len() as int, s.len() as int) =~= hex_encoded(mac));
}

} // verus!
