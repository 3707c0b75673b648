//! Signature verification.
//!
//! A webhook request carries a header of the form `<algorithm>=<hex-digest>`.
//! Verification parses the header at its first `=`, insists on the one
//! supported algorithm, decodes the digest from hexadecimal, and compares it
//! to the keyed hash of the request body.  The comparison is constant-time
//! with respect to digest content: its running time never depends on the
//! position of the first differing byte.

use vstd::prelude::*;

use crypto::mac::Mac;

verus! {

use crate::hex::DecodeError;
use crate::hex::hex_ok;
use crate::hex::hex_decode;
use crate::hex::hex_encode;
use crate::hex::lemma_hex_round_trip;
use crate::hex::hex_string_to_bytes;
use crate::hex::bytes_to_hex_string;
use crate::text::str_eq;

/// Error from checking a signature header against a request body.
#[derive(Clone, Copy, Debug, PartialEq, Eq, Structural)]
pub enum VerifyError {
    /// The header holds no `=`, so it cannot name an algorithm.
    MalformedSignature,
    /// The named algorithm is not the one supported algorithm.
    UnsupportedAlgorithm,
    /// The digest part of the header is not well-formed hexadecimal.
    BadDigest,
}

/// The HMAC-SHA1 digest of `msg` keyed with the UTF-8 bytes of `key`.
pub uninterp spec fn hmac_sha1_of(key: Seq<char>, msg: Seq<u8>) -> Seq<u8>;

/// Relies on `crypto::hmac::Hmac` over `crypto::sha1::Sha1` (and the
/// `crypto::mac::Mac` trait): computes the HMAC-SHA1 digest of `message`
/// keyed with the bytes of `secret`, a digest of exactly 20 bytes.
#[verifier::external_body]
fn hmac_sha1(secret: &str, message: &[u8]) -> (r: Vec<u8>)
    ensures
        r@ == hmac_sha1_of(secret@, message@),
        r@.len() == 20,
{
    let mut mac = crypto::hmac::Hmac::new(crypto::sha1::Sha1::new(), secret.as_bytes());
    mac.input(message);
    mac.result().code().to_vec()
}

/// The index of the first `=` in `s`, if any.
pub open spec fn find_eq(s: Seq<char>) -> Option<int>
    decreases s.len(),
{
    if s.len() == 0 {
        None
    } else if s[0] == '=' {
        Some(0int)
    } else {
        match find_eq(s.drop_first()) {
            None => None,
            Some(i) => Some(i + 1),
        }
    }
}

/// A scan that saw no `=` up to `i` pins `find_eq` down: exhausting the
/// string means there is none, and hitting one at `i` makes `i` the first.
pub proof fn lemma_find_eq(s: Seq<char>, i: int)
    requires
        0 <= i <= s.len(),
        forall|j: int| 0 <= j < i ==> s[j] != '=',
    ensures
        i == s.len() ==> find_eq(s) is None,
        i < s.len() && s[i] == '=' ==> find_eq(s) == Some(i),
    decreases s.len(),
{
    if s.len() == 0 {
    } else if s[0] == '=' {
    } else {
        if i > 0 {
            lemma_find_eq(s.drop_first(), i - 1);
        }
    }
}

/// What verification returns for a body, a signature header and a secret.
///
/// The header is split at its first `=` into an algorithm name and a hex
/// digest; no `=` is a malformed header, an algorithm other than `sha1` is
/// unsupported, a digest that is not well-formed hexadecimal is bad, and
/// otherwise the result tells whether the decoded digest equals the keyed
/// hash of the body.
pub open spec fn verify_spec(body: Seq<u8>, header: Seq<char>, secret: Seq<char>) -> Result<
    bool,
    VerifyError,
> {
    match find_eq(header) {
        None => Err(VerifyError::MalformedSignature),
        Some(i) => {
            let method = header.subrange(0, i);
            let digest_hex = header.subrange(i + 1, header.len() as int);
            if method != "sha1"@ {
                Err(VerifyError::UnsupportedAlgorithm)
            } else if !hex_ok(digest_hex) {
                Err(VerifyError::BadDigest)
            } else {
                Ok(hex_decode(digest_hex) == hmac_sha1_of(secret, body))
            }
        },
    }
}

/// Whether two byte slices hold the same bytes, in constant time: every
/// byte is inspected whatever the content, and no comparison short-circuits
/// on the first mismatch.
pub fn constant_time_eq(a: &[u8], b: &[u8]) -> (r: bool)
    ensures
        r == (a@ == b@),
{
    if a.len() != b.len() {
        proof {
            assert(a@ != b@);
        }
        return false;
    }
    let n = a.len();
    let mut diff: u8 = 0;
    let mut i: usize = 0;
    while i < n
        invariant
            n == a@.len(),
            n == b@.len(),
            i <= n,
            (diff == 0) <==> (forall|j: int| 0 <= j < i ==> a@[j] == b@[j]),
        decreases n - i,
    {
        let x = a[i];
        let y = b[i];
        let z = x ^ y;
        proof {
            assert((x ^ y) == 0 <==> x == y) by (bit_vector);
            assert(forall|d: u8, w: u8| (d | w) == 0 <==> d == 0 && w == 0) by (bit_vector);
        }
        diff = diff | z;
        i = i + 1;
    }
    if diff == 0 {
        proof {
            assert(a@ =~= b@);
        }
        true
    } else {
        proof {
            if a@ == b@ {
                assert(forall|j: int| 0 <= j < n ==> a@[j] == b@[j]);
            }
        }
        false
    }
}

/// Checks a signature header against a request body under a shared secret.
///
/// Returns `Ok(true)` exactly when the header names the supported
/// algorithm, carries a well-formed hex digest, and that digest equals the
/// keyed hash of `bytes` under `secret`; each malformation gets its own
/// error, as `verify_spec` lays out.
pub fn check_signature(bytes: &[u8], signature: &str, secret: &str) -> (r: Result<
    bool,
    VerifyError,
>)
    ensures
        r == verify_spec(bytes@, signature@, secret@),
{
    let n = signature.unicode_len();
    let mut i: usize = 0;
    while i < n
        invariant
            n == signature@.len(),
            i <= n,
            forall|j: int| 0 <= j < i ==> signature@[j] != '=',
        ensures
            n == signature@.len(),
            i <= n,
            forall|j: int| 0 <= j < i ==> signature@[j] != '=',
            i < n ==> signature@[i as int] == '=',
        decreases n - i,
    {
        if signature.get_char(i) == '=' {
            break ;
        }
        i = i + 1;
    }
    proof {
        lemma_find_eq(signature@, i as int);
    }
    if i == n {
        return Err(VerifyError::MalformedSignature);
    }
    let method = signature.substring_char(0, i);
    let digest_hex = signature.substring_char(i + 1, n);
    if !str_eq(method, "sha1") {
        return Err(VerifyError::UnsupportedAlgorithm);
    }
    let digest = match hex_string_to_bytes(digest_hex) {
        Ok(d) => d,
        Err(DecodeError::InvalidHex) => {
            return Err(VerifyError::BadDigest);
        },
    };
    let mac = hmac_sha1(secret, bytes);
    Ok(constant_time_eq(digest.as_slice(), mac.as_slice()))
}

/// The signature header that the holder of `secret` would attach to `body`:
/// the supported algorithm name, an `=`, and the keyed hash of the body in
/// canonical lowercase hexadecimal.
pub open spec fn signed_header(body: Seq<u8>, secret: Seq<char>) -> Seq<char> {
    "sha1="@ + hex_encode(hmac_sha1_of(secret, body))
}

/// Computes the signature header for a body under a secret.
pub fn sign_payload(body: &[u8], secret: &str) -> (r: String)
    ensures
        r@ == signed_header(body@, secret@),
{
    let mac = hmac_sha1(secret, body);
    let digest_hex = bytes_to_hex_string(mac.as_slice());
    let mut header = String::from_str("sha1=");
    header.append(digest_hex.as_str());
    header
}

/// A header signed with the right secret verifies: for every body and
/// secret, checking the body against its own signed header returns
/// `Ok(true)`.
pub proof fn lemma_signed_header_verifies(body: Seq<u8>, secret: Seq<char>)
    ensures
        verify_spec(body, signed_header(body, secret), secret) == Ok::<bool, VerifyError>(true),
{
    reveal_strlit("sha1=");
    reveal_strlit("sha1");
    let mac = hmac_sha1_of(secret, body);
    let enc = hex_encode(mac);
    let h = signed_header(body, secret);
    assert(h.len() == 5 + enc.len());
    assert forall|j: int| 0 <= j < 4 implies h[j] != '=' by {
        assert(h[j] == "sha1="@[j]);
    }
    assert(h[4] == '=');
    lemma_find_eq(h, 4);
    assert(find_eq(h) == Some(4int));
    assert(h.subrange(0, 4) =~= "sha1"@);
    assert(h.subrange(5, h.len() as int) =~= enc);
    lemma_hex_round_trip(mac);
}

/// A header signed over different content is rejected: whenever the keyed
/// hash of `body` differs from the keyed hash the header was signed over,
/// verification returns `Ok(false)` — it never errs, and never accepts.
pub proof fn lemma_foreign_header_rejected(
    body: Seq<u8>,
    signed_body: Seq<u8>,
    secret: Seq<char>,
)
    requires
        hmac_sha1_of(secret, body) != hmac_sha1_of(secret, signed_body),
    ensures
        verify_spec(body, signed_header(signed_body, secret), secret) == Ok::<
            bool,
            VerifyError,
        >(false),
{
    reveal_strlit("sha1=");
    reveal_strlit("sha1");
    let mac = hmac_sha1_of(secret, signed_body);
    let enc = hex_encode(mac);
    let h = signed_header(signed_body, secret);
    assert(h.len() == 5 + enc.len());
    assert forall|j: int| 0 <= j < 4 implies h[j] != '=' by {
        assert(h[j] == "sha1="@[j]);
    }
    assert(h[4] == '=');
    lemma_find_eq(h, 4);
    assert(find_eq(h) == Some(4int));
    assert(h.subrange(0, 4) =~= "sha1"@);
    assert(h.subrange(5, h.len() as int) =~= enc);
    lemma_hex_round_trip(mac);
}

} // verus!
