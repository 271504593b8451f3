//! Verification of the `x-hub-signature-256` header against an HMAC-SHA256
//! of the request body.

use hmac::Mac;
use vstd::prelude::*;

verus! {

/// The tag that introduces the hex digest in a signature header.
pub open spec fn signature_tag() -> Seq<char> {
    seq!['s', 'h', 'a', '2', '5', '6', '=']
}

pub open spec fn is_hex_char(c: char) -> bool {
    ('0' <= c && c <= '9') || ('a' <= c && c <= 'f') || ('A' <= c && c <= 'F')
}

/// A digest may start at `i`: the tag stands there, followed by at least one hex digit.
pub open spec fn digest_starts_at(s: Seq<char>, i: int) -> bool {
    &&& 0 <= i
    &&& i + 8 <= s.len()
    &&& s.subrange(i, i + 7) == signature_tag()
    &&& is_hex_char(s[i + 7])
}

/// The first position at or after `i` where a digest starts.
pub open spec fn first_digest_start(s: Seq<char>, i: int) -> Option<int>
    decreases s.len() - i,
{
    if i < 0 || i + 8 > s.len() {
        None
    } else if digest_starts_at(s, i) {
        Some(i)
    } else {
        first_digest_start(s, i + 1)
    }
}

/// The end of the run of hex digits that begins at `j`.
pub open spec fn hex_run_end(s: Seq<char>, j: int) -> int
    decreases s.len() - j,
{
    if 0 <= j < s.len() && is_hex_char(s[j]) {
        hex_run_end(s, j + 1)
    } else {
        j
    }
}

/// The digest carried by a header: the longest run of hex digits after the
/// first `sha256=` that is followed by one; `None` where there is none.
pub open spec fn digest_of(header: Seq<char>) -> Option<Seq<char>> {
    match first_digest_start(header, 0) {
        None => None,
        Some(i) => Some(header.subrange(i + 7, hex_run_end(header, i + 7))),
    }
}

/// The lowercase hex digit of a value below 16.
pub open spec fn hex_digit(n: u8) -> char {
    if n < 10 {
        (('0' as u8) + n) as char
    } else {
        (('a' as u8) + (n - 10)) as char
    }
}

/// Lowercase hex text of a byte string: two digits per byte, high nibble first.
pub open spec fn hex_text(bytes: Seq<u8>) -> Seq<char> {
    Seq::new(
        2 * bytes.len(),
        |j: int|
            if j % 2 == 0 {
                hex_digit(bytes[j / 2] / 16)
            } else {
                hex_digit(bytes[j / 2] % 16)
            },
    )
}

/// The HMAC-SHA256 tag of `message` under `key`.
pub uninterp spec fn hmac_sha256_of(key: Seq<u8>, message: Seq<u8>) -> Seq<u8>;

/// Relies on hmac's `Hmac<Sha256>` (sha2's `Sha256`): `new_from_slice` takes a
/// key of any length, and the finalized tag is the 32-byte HMAC-SHA256.
#[verifier::external_body]
fn hmac_sha256(key: &[u8], message: &[u8]) -> (tag: Vec<u8>)
    ensures
        tag@ == hmac_sha256_of(key@, message@),
        tag@.len() == 32,
{
    let mut mac = hmac::Hmac::<sha2::Sha256>::new_from_slice(key).expect("HMAC takes keys of any length");
    mac.update(message);
    mac.finalize().into_bytes().to_vec()
}

/// Relies on hex::encode: two lowercase hex digits per byte, high nibble first.
#[verifier::external_body]
fn encode_hex(bytes: &[u8]) -> (text: String)
    ensures
        text@ == hex_text(bytes@),
{
    hex::encode(bytes)
}


/// Why a signature header was refused before any digest was compared.
#[derive(Clone, Copy, Debug, PartialEq, Eq, Structural)]
pub enum SignatureError {
    /// The header carries no `sha256=<hex>` digest.
    MalformedHeader,
}

/// The outcome of checking a body against an optional secret and an optional
/// signature header.
pub open spec fn verification(body: Seq<u8>, secret: Option<Seq<u8>>, header: Option<Seq<char>>) -> Result<bool, SignatureError> {
    match secret {
        None => Ok(true),
        Some(key) => match header {
            None => Ok(false),
            Some(h) => match digest_of(h) {
                None => Err(SignatureError::MalformedHeader),
                Some(d) => Ok(hex_text(hmac_sha256_of(key, body)) == d),
            },
        },
    }
}

pub open spec fn secret_view(secret: Option<Vec<u8>>) -> Option<Seq<u8>> {
    match secret {
        None => None,
        Some(k) => Some(k@),
    }
}

pub open spec fn header_view(header: Option<&str>) -> Option<Seq<char>> {
    match header {
        None => None,
        Some(h) => Some(h@),
    }
}

fn hex_char(c: char) -> (r: bool)
    ensures
        r == is_hex_char(c),
{
    ('0' <= c && c <= '9') || ('a' <= c && c <= 'f') || ('A' <= c && c <= 'F')
}

/// Whether the signature tag stands at position `i` of `s`.
fn tag_at(s: &str, len: usize, i: usize) -> (r: bool)
    requires
        len == s@.len(),
        i + 7 <= len,
    ensures
        r == (s@.subrange(i as int, i + 7) == signature_tag()),
{
    let tag = "sha256=";
    proof {
        reveal_strlit("sha256=");
    }
    assert(tag@ =~= signature_tag());
    let mut k: usize = 0;
    while k < 7
        invariant
            k <= 7,
            i + 7 <= len,
            len == s@.len(),
            tag@ == signature_tag(),
            forall|m: int| 0 <= m < k ==> s@[i + m] == signature_tag()[m],
        decreases 7 - k,
    {
        if s.get_char(i + k) != tag.get_char(k) {
            assert(s@.subrange(i as int, i + 7)[k as int] != signature_tag()[k as int]);
            return false;
        }
        k += 1;
    }
    assert(s@.subrange(i as int, i + 7) =~= signature_tag());
    true
}

/// The end of the run of hex digits of `s` that begins at `j`.
fn hex_run(s: &str, len: usize, j: usize) -> (e: usize)
    requires
        len == s@.len(),
        j <= len,
    ensures
        e as int == hex_run_end(s@, j as int),
        j <= e <= len,
{
    let mut e: usize = j;
    while e < len
        invariant
            j <= e <= len,
            len == s@.len(),
            hex_run_end(s@, j as int) == hex_run_end(s@, e as int),
        decreases len - e,
    {
        if !hex_char(s.get_char(e)) {
            return e;
        }
        e += 1;
    }
    e
}

/// The hex digest that a signature header carries, if it carries one.
pub fn signature_digest(header: &str) -> (r: Option<String>)
    ensures
        match r {
            None => digest_of(header@) is None,
            Some(d) => digest_of(header@) == Some(d@),
        },
{
    let len = header.unicode_len();
    if len < 8 {
        return None;
    }
    let mut i: usize = 0;
    while i <= len - 8
        invariant
            len == header@.len(),
            len >= 8,
            i <= len - 7,
            first_digest_start(header@, 0) == first_digest_start(header@, i as int),
        decreases len - i,
    {
        if tag_at(header, len, i) && hex_char(header.get_char(i + 7)) {
            let e = hex_run(header, len, i + 7);
            return Some(String::from_str(header.substring_char(i + 7, e)));
        }
        i += 1;
    }
    None
}

/// Whether `digest` is, character for character, the lowercase hex text of `tag`.
/// Every character is compared, whatever the first difference, so that the
/// time taken does not tell where the digests part.
pub fn digest_matches(tag: &[u8], digest: &str) -> (r: bool)
    ensures
        r == (hex_text(tag@) == digest@),
{
    let encoded = encode_hex(tag);
    let expected = encoded.as_str();
    let n = expected.unicode_len();
    if n != digest.unicode_len() {
        return false;
    }
    let mut same = true;
    let mut i: usize = 0;
    while i < n
        invariant
            i <= n,
            n == expected@.len(),
            n == digest@.len(),
            same == (forall|k: int| 0 <= k < i ==> expected@[k] == digest@[k]),
        decreases n - i,
    {
        let equal = expected.get_char(i) == digest.get_char(i);
        same = same && equal;
        i += 1;
    }
    proof {
        if same {
            assert(expected@ =~= digest@);
        }
    }
    same
}

/// Checks `body` against the signature header, where a secret is configured.
/// No secret: always `Ok(true)`. A secret but no header: `Ok(false)`. A header
/// without a `sha256=<hex>` digest: an error. Otherwise whether the digest is
/// the lowercase hex HMAC-SHA256 of the body under the secret.
pub fn verify_secret(body: &[u8], secret: &Option<Vec<u8>>, header: Option<&str>) -> (r: Result<bool, SignatureError>)
    ensures
        r == verification(body@, secret_view(*secret), header_view(header)),
{
    let key = match secret {
        None => {
            return Ok(true);
        },
        Some(k) => k,
    };
    let h = match header {
        None => {
            return Ok(false);
        },
        Some(h) => h,
    };
    let digest = match signature_digest(h) {
        None => {
            return Err(SignatureError::MalformedHeader);
        },
        Some(d) => d,
    };
    let tag = hmac_sha256(key.as_slice(), body);
    Ok(digest_matches(tag.as_slice(), digest.as_str()))
}


proof fn lemma_hex_run_to_end(s: Seq<char>, j: int)
    requires
        0 <= j <= s.len(),
        forall|k: int| j <= k < s.len() ==> is_hex_char(s[k]),
    ensures
        hex_run_end(s, j) == s.len(),
    decreases s.len() - j,
{
    if j < s.len() {
        lemma_hex_run_to_end(s, j + 1);
    }
}

/// A header made of `sha256=` and a non-empty run of hex digits verifies
/// exactly when that run is the lowercase hex HMAC-SHA256 of the body under the
/// secret: the correctly signed header verifies, and any other hex digest (one
/// with a single digit changed among them) does not.
pub proof fn lemma_signed_header(key: Seq<u8>, body: Seq<u8>, digest: Seq<char>)
    requires
        digest.len() > 0,
        forall|k: int| 0 <= k < digest.len() ==> is_hex_char(digest[k]),
    ensures
        verification(body, Some(key), Some(signature_tag() + digest)) == Ok::<bool, SignatureError>(
            hex_text(hmac_sha256_of(key, body)) == digest,
        ),
{
    let h = signature_tag() + digest;
    assert(h.subrange(0, 7) =~= signature_tag());
    assert(h[7] == digest[0]);
    assert(digest_starts_at(h, 0));
    lemma_hex_run_to_end(h, 7);
    assert(h.subrange(7, h.len() as int) =~= digest);
}

/// Without a secret every request verifies; with a secret, a request without a
/// signature header does not.
pub proof fn lemma_unsigned_requests(key: Seq<u8>, body: Seq<u8>, header: Option<Seq<char>>)
    ensures
        verification(body, None, header) == Ok::<bool, SignatureError>(true),
        verification(body, Some(key), None) == Ok::<bool, SignatureError>(false),
{
}

} // verus!
