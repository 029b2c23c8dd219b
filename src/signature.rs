use openssl::error::ErrorStack;
use vstd::prelude::*;

verus! {

/// Why a request is refused before its payload is looked at.
#[derive(Debug, Clone, Copy, PartialEq, Eq, Structural)]
pub enum AuthError {
    /// The request carries no signature header.
    MissingCredential,
    /// The shared secret is absent or cannot be used as an HMAC key.
    ConfigurationError,
    /// The claimed signature differs from the computed one.
    InvalidSignature,
}

/// The longest secret that OpenSSL accepts as an HMAC key (a C `int` length).
pub const MAX_SECRET_LEN: usize = 2147483647;

/// The HMAC-SHA256 tag of `msg` under `key`, as OpenSSL computes it.
pub uninterp spec fn hmac_sha256(key: Seq<u8>, msg: Seq<u8>) -> Seq<u8>;

/// The ASCII lowercase hex digit of a nibble.
pub open spec fn hex_digit(n: u8) -> u8 {
    if n < 10 {
        (48 + n) as u8
    } else {
        (87 + n) as u8
    }
}

/// Lowercase hex of a byte string: two digits per byte, high nibble first.
pub open spec fn hex_lower(b: Seq<u8>) -> Seq<u8> {
    Seq::new(
        (2 * b.len()) as nat,
        |i: int|
            if i % 2 == 0 {
                hex_digit(b[i / 2] / 16)
            } else {
                hex_digit(b[i / 2] % 16)
            },
    )
}

/// The bytes of `sha256=`.
pub open spec fn signature_prefix() -> Seq<u8> {
    seq![115u8, 104u8, 97u8, 50u8, 53u8, 54u8, 61u8]
}

/// The header value that authenticates a body whose tag is `digest`.
pub open spec fn signature_text(digest: Seq<u8>) -> Seq<u8> {
    signature_prefix() + hex_lower(digest)
}

/// The verdict on a claimed header value once the tag of the body is known.
pub open spec fn signature_verdict(claimed: Seq<u8>, digest: Seq<u8>) -> Result<(), AuthError> {
    if claimed == signature_text(digest) {
        Ok(())
    } else {
        Err(AuthError::InvalidSignature)
    }
}

/// The contents of an optional byte string.
pub open spec fn view_of(b: Option<&[u8]>) -> Option<Seq<u8>> {
    match b {
        Some(s) => Some(s@),
        None => None,
    }
}

/// What `verify` may answer. A missing header comes first, then a missing or
/// overlong secret; otherwise the answer is the verdict on the tag of the raw
/// body, or a configuration error where OpenSSL could not compute that tag.
pub open spec fn verify_outcome(
    secret: Option<Seq<u8>>,
    body: Seq<u8>,
    header: Option<Seq<u8>>,
    r: Result<(), AuthError>,
) -> bool {
    match (header, secret) {
        (None, _) => r == Err::<(), AuthError>(AuthError::MissingCredential),
        (Some(_), None) => r == Err::<(), AuthError>(AuthError::ConfigurationError),
        (Some(h), Some(k)) => if k.len() > MAX_SECRET_LEN {
            r == Err::<(), AuthError>(AuthError::ConfigurationError)
        } else {
            r == signature_verdict(h, hmac_sha256(k, body)) || r == Err::<(), AuthError>(
                AuthError::ConfigurationError,
            )
        },
    }
}

/// Relies on openssl's `PKey::hmac`, `Signer::new` with `MessageDigest::sha256`,
/// `Signer::update` and `Signer::sign_to_vec`: on success the bytes are the
/// HMAC-SHA256 tag of `msg` under `key`. `PKey::hmac` asserts that the key
/// length fits a C `int`.
#[verifier::external_body]
fn hmac_sha256_tag(key: &[u8], msg: &[u8]) -> (r: Result<Vec<u8>, ErrorStack>)
    requires
        key@.len() <= MAX_SECRET_LEN,
    ensures
        r matches Ok(tag) ==> tag@ == hmac_sha256(key@, msg@),
{
    let pkey = openssl::pkey::PKey::hmac(key)?;
    let mut signer = openssl::sign::Signer::new(openssl::hash::MessageDigest::sha256(), &pkey)?;
    signer.update(msg)?;
    signer.sign_to_vec()
}

/// Relies on `hex::encode`: two lowercase digits per byte, high nibble first.
#[verifier::external_body]
fn hex_encode(b: &[u8]) -> (r: Vec<u8>)
    ensures
        r@ == hex_lower(b@),
{
    hex::encode(b).into_bytes()
}

/// Relies on `openssl::memcmp::eq`: a comparison of two equally long buffers
/// whose running time does not depend on their contents. It asserts that the
/// lengths are equal.
#[verifier::external_body]
fn constant_time_eq(a: &[u8], b: &[u8]) -> (r: bool)
    requires
        a@.len() == b@.len(),
    ensures
        r == (a@ == b@),
{
    openssl::memcmp::eq(a, b)
}

/// The error stack of a failed OpenSSL call.
#[verifier::external_type_specification]
#[verifier::external_body]
pub struct ExErrorStack(ErrorStack);

fn prefix_bytes() -> (r: Vec<u8>)
    ensures
        r@ == signature_prefix(),
{
    let mut r: Vec<u8> = Vec::new();
    r.push(115u8);
    r.push(104u8);
    r.push(97u8);
    r.push(50u8);
    r.push(53u8);
    r.push(54u8);
    r.push(61u8);
    assert(r@ =~= signature_prefix());
    r
}

/// Compares a claimed header value with the one that `digest` calls for.
///
/// Lengths are compared first; equally long values are compared in constant
/// time, so the position of the first differing byte is not observable.
pub fn check_signature(claimed: &[u8], digest: &[u8]) -> (r: Result<(), AuthError>)
    ensures
        r == signature_verdict(claimed@, digest@),
{
    let mut expected = prefix_bytes();
    let mut digits = hex_encode(digest);
    expected.append(&mut digits);
    assert(expected@ =~= signature_text(digest@));
    if claimed.len() != expected.len() {
        return Err(AuthError::InvalidSignature);
    }
    if constant_time_eq(claimed, expected.as_slice()) {
        Ok(())
    } else {
        Err(AuthError::InvalidSignature)
    }
}

/// Authenticates a request body.
///
/// `header` is the value of the signature header, if the request has one;
/// `secret` is the shared secret, if it is configured. A missing header is
/// reported first, then a missing or unusable secret. Otherwise the verdict
/// is that of `check_signature` on the HMAC-SHA256 tag of the raw body, unless
/// OpenSSL fails to compute the tag, which counts as a configuration error.
pub fn verify(secret: Option<&[u8]>, body: &[u8], header: Option<&[u8]>) -> (r: Result<
    (),
    AuthError,
>)
    ensures
        verify_outcome(view_of(secret), body@, view_of(header), r),
{
    let claimed = match header {
        None => return Err(AuthError::MissingCredential),
        Some(h) => h,
    };
    let key = match secret {
        None => return Err(AuthError::ConfigurationError),
        Some(k) => k,
    };
    if key.len() > MAX_SECRET_LEN {
        return Err(AuthError::ConfigurationError);
    }
    match hmac_sha256_tag(key, body) {
        Err(_) => Err(AuthError::ConfigurationError),
        Ok(tag) => check_signature(claimed, tag.as_slice()),
    }
}

proof fn lemma_byte_from_nibbles(x: u8, y: u8)
    requires
        hex_digit(x / 16) == hex_digit(y / 16),
        hex_digit(x % 16) == hex_digit(y % 16),
    ensures
        x == y,
{
    assert(x / 16 < 16 && y / 16 < 16);
    assert(x / 16 == y / 16 && x % 16 == y % 16);
    assert(x == 16 * (x / 16) + x % 16) by (nonlinear_arith);
    assert(y == 16 * (y / 16) + y % 16) by (nonlinear_arith);
}

/// Distinct byte strings have distinct lowercase hex encodings.
pub proof fn lemma_hex_lower_injective(a: Seq<u8>, b: Seq<u8>)
    requires
        hex_lower(a) == hex_lower(b),
    ensures
        a == b,
{
    assert(hex_lower(a).len() == hex_lower(b).len());
    assert(hex_lower(a).len() == 2 * a.len() && hex_lower(b).len() == 2 * b.len());
    assert(a.len() == b.len());
    assert forall|j: int| 0 <= j < a.len() implies a[j] == b[j] by {
        assert((2 * j) % 2 == 0 && (2 * j) / 2 == j);
        assert((2 * j + 1) % 2 == 1 && (2 * j + 1) / 2 == j);
        assert(hex_lower(a)[2 * j] == hex_digit(a[j] / 16));
        assert(hex_lower(b)[2 * j] == hex_digit(b[j] / 16));
        assert(hex_lower(a)[2 * j + 1] == hex_digit(a[j] % 16));
        assert(hex_lower(b)[2 * j + 1] == hex_digit(b[j] % 16));
        lemma_byte_from_nibbles(a[j], b[j]);
    }
    assert(a =~= b);
}

/// A header value accepts exactly one tag: two tags that are both matched by
/// the same header value are equal.
pub proof fn lemma_signature_text_injective(d1: Seq<u8>, d2: Seq<u8>)
    requires
        signature_text(d1) == signature_text(d2),
    ensures
        d1 == d2,
{
    let n = signature_prefix().len();
    assert(hex_lower(d1) =~= signature_text(d1).subrange(n as int, signature_text(d1).len() as int));
    assert(hex_lower(d2) =~= signature_text(d2).subrange(n as int, signature_text(d2).len() as int));
    lemma_hex_lower_injective(d1, d2);
}

} // verus!
