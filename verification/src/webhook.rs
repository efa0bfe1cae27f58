//! The signed-webhook transport: checking an incoming HTTP request — the
//! method, the signature headers and the Ed25519 signature over the body —
//! before its body may be parsed and processed as an interaction.

use vstd::prelude::*;

use ed25519_dalek::Verifier;

verus! {

/// The status answered when a webhook request uses any method but POST.
pub const STATUS_METHOD_NOT_ALLOWED: u16 = 405;

/// The status answered when a signature header is missing or malformed,
/// or the body cannot be read as an interaction.
pub const STATUS_BAD_REQUEST: u16 = 400;

/// The status answered when the signature does not check out.
pub const STATUS_UNAUTHORIZED: u16 = 401;

/// An incoming webhook request as the library reads it: the HTTP method's
/// name, the headers as name/value pairs with lower-case names, and the
/// request body.
#[derive(Debug, PartialEq)]
pub struct HttpRequest {
    pub method: String,
    pub headers: Vec<(String, Vec<u8>)>,
    pub body: Vec<u8>,
}

/// The value of the first header with the given (lower-case) name.
pub open spec fn spec_find_header(headers: Seq<(String, Vec<u8>)>, name: Seq<char>) -> Option<
    Vec<u8>,
>
    decreases headers.len(),
{
    if headers.len() == 0 {
        None
    } else if headers.first().0@ == name {
        Some(headers.first().1)
    } else {
        spec_find_header(headers.drop_first(), name)
    }
}

/// Look up the first header with the given name.
pub fn find_header<'a>(headers: &'a Vec<(String, Vec<u8>)>, name: &String) -> (r: Option<
    &'a Vec<u8>,
>)
    ensures
        match r {
            Some(v) => spec_find_header(headers@, name@) == Some(*v),
            None => spec_find_header(headers@, name@) is None,
        },
{
    let n: usize = headers.len();
    let mut i: usize = 0;
    proof {
        assert(headers@.skip(0) =~= headers@);
    }
    while i < n
        invariant
            0 <= i <= n,
            n == headers@.len(),
            spec_find_header(headers@, name@) == spec_find_header(headers@.skip(i as int), name@),
        decreases n - i,
    {
        if headers[i].0 == *name {
            proof {
                assert(headers@.skip(i as int).first() == headers@[i as int]);
            }
            return Some(&headers[i].1);
        }
        proof {
            assert(headers@.skip(i as int).drop_first() =~= headers@.skip(i + 1));
        }
        i = i + 1;
    }
    proof {
        assert(headers@.skip(n as int).len() == 0);
    }
    None
}

/// Whether `b` is an ASCII hex digit, in either case.
pub open spec fn spec_is_hex_digit(b: u8) -> bool {
    (48 <= b <= 57) || (97 <= b <= 102) || (65 <= b <= 70)
}

/// The value of the hex digit `b`.
pub open spec fn spec_hex_val(b: u8) -> int {
    if 48 <= b <= 57 {
        b - 48
    } else if 97 <= b <= 102 {
        b - 87
    } else {
        b - 55
    }
}

/// Whether every byte of `s` is an ASCII hex digit.
pub open spec fn spec_hex_all_digits(s: Seq<u8>) -> bool {
    forall|i: int| 0 <= i < s.len() ==> spec_is_hex_digit(#[trigger] s[i])
}

/// The bytes a hex string decodes to, two digits for each byte, the high
/// digit first.
pub open spec fn spec_hex_decode(s: Seq<u8>) -> Seq<u8> {
    Seq::new(
        (s.len() / 2) as nat,
        |i: int| (spec_hex_val(s[2 * i]) * 16 + spec_hex_val(s[2 * i + 1])) as u8,
    )
}

/// The value of one hex digit, or nothing for any other byte.
fn hex_val(b: u8) -> (r: Option<u8>)
    ensures
        r is Some <==> spec_is_hex_digit(b),
        r matches Some(v) ==> v == spec_hex_val(b),
{
    if 48 <= b && b <= 57 {
        Some(b - 48)
    } else if 97 <= b && b <= 102 {
        Some(b - 87)
    } else if 65 <= b && b <= 70 {
        Some(b - 55)
    } else {
        None
    }
}

/// Decode a 64-byte signature from its 128-digit hex spelling. Exactly the
/// strings of 128 hex digits decode; anything else is rejected.
pub fn decode_hex_signature(s: &[u8]) -> (r: Option<Vec<u8>>)
    ensures
        match r {
            Some(sig) => {
                &&& s@.len() == 128
                &&& spec_hex_all_digits(s@)
                &&& sig@ == spec_hex_decode(s@)
                &&& sig@.len() == 64
            },
            None => !(s@.len() == 128 && spec_hex_all_digits(s@)),
        },
{
    if s.len() != 128 {
        return None;
    }
    let mut out: Vec<u8> = Vec::new();
    let mut i: usize = 0;
    while i < 64
        invariant
            0 <= i <= 64,
            s@.len() == 128,
            out@.len() == i,
            forall|j: int| 0 <= j < 2 * i ==> spec_is_hex_digit(#[trigger] s@[j]),
            forall|j: int| 0 <= j < i ==> #[trigger] out@[j] == spec_hex_decode(s@)[j],
        decreases 64 - i,
    {
        let hi = match hex_val(s[2 * i]) {
            Some(v) => v,
            None => {
                return None;
            },
        };
        let lo = match hex_val(s[2 * i + 1]) {
            Some(v) => v,
            None => {
                return None;
            },
        };
        out.push(hi * 16 + lo);
        i = i + 1;
    }
    proof {
        assert(out@ =~= spec_hex_decode(s@));
    }
    Some(out)
}

/// Whether `signature` is a valid Ed25519 signature over `message` by the
/// public key whose encoding is `public_key`. What this means is fixed by
/// the Ed25519 scheme: the outcome depends on the three byte strings
/// alone.
pub uninterp spec fn spec_ed25519_verify(
    public_key: Seq<u8>,
    message: Seq<u8>,
    signature: Seq<u8>,
) -> bool;

/// Relies on ed25519_dalek: `PublicKey::from_bytes`, `Signature::try_from`
/// and `Verifier::verify`. Verification is deterministic in the key bytes,
/// the message and the signature; a key or signature encoding the scheme
/// rejects never verifies.
#[verifier::external_body]
fn ed25519_verify(public_key: &[u8], message: &[u8], signature: &[u8]) -> (r: bool)
    requires
        public_key@.len() == 32,
        signature@.len() == 64,
    ensures
        r == spec_ed25519_verify(public_key@, message@, signature@),
{
    match (
        ed25519_dalek::PublicKey::from_bytes(public_key),
        ed25519_dalek::Signature::try_from(signature),
    ) {
        (Ok(key), Ok(sig)) => key.verify(message, &sig).is_ok(),
        _ => false,
    }
}

/// The two byte strings joined, `a` first.
pub fn concat_bytes(a: &[u8], b: &[u8]) -> (r: Vec<u8>)
    ensures
        r@ == a@ + b@,
{
    let mut out: Vec<u8> = Vec::new();
    let an: usize = a.len();
    let mut i: usize = 0;
    while i < an
        invariant
            0 <= i <= an,
            an == a@.len(),
            out@ =~= a@.take(i as int),
        decreases an - i,
    {
        out.push(a[i]);
        i = i + 1;
    }
    let bn: usize = b.len();
    let mut j: usize = 0;
    while j < bn
        invariant
            0 <= j <= bn,
            bn == b@.len(),
            out@ =~= a@ + b@.take(j as int),
        decreases bn - j,
    {
        out.push(b[j]);
        j = j + 1;
    }
    proof {
        assert(out@ =~= a@ + b@);
    }
    out
}

/// Copy a byte string into a fresh vector.
pub fn clone_bytes(b: &[u8]) -> (r: Vec<u8>)
    ensures
        r@ == b@,
{
    let mut out: Vec<u8> = Vec::new();
    let n: usize = b.len();
    let mut i: usize = 0;
    while i < n
        invariant
            0 <= i <= n,
            n == b@.len(),
            out@ =~= b@.take(i as int),
        decreases n - i,
    {
        out.push(b[i]);
        i = i + 1;
    }
    proof {
        assert(out@ =~= b@);
    }
    out
}

/// What checking a webhook request must decide. Any method but POST is
/// turned away with 405. A missing `x-signature-timestamp` or
/// `x-signature-ed25519` header, or a signature header that is not 128 hex
/// digits, is a 400. A signature that does not verify over the timestamp
/// followed by the body is a 401. Otherwise the body is released for
/// parsing.
pub open spec fn spec_process(
    request: HttpRequest,
    public_key: Seq<u8>,
    r: Result<Vec<u8>, u16>,
) -> bool {
    if request.method@ != "POST"@ {
        r == Err::<Vec<u8>, u16>(STATUS_METHOD_NOT_ALLOWED)
    } else {
        match spec_find_header(request.headers@, "x-signature-timestamp"@) {
            None => r == Err::<Vec<u8>, u16>(STATUS_BAD_REQUEST),
            Some(ts) => match spec_find_header(request.headers@, "x-signature-ed25519"@) {
                None => r == Err::<Vec<u8>, u16>(STATUS_BAD_REQUEST),
                Some(sig) => if !(sig@.len() == 128 && spec_hex_all_digits(sig@)) {
                    r == Err::<Vec<u8>, u16>(STATUS_BAD_REQUEST)
                } else if !spec_ed25519_verify(
                    public_key,
                    ts@ + request.body@,
                    spec_hex_decode(sig@),
                ) {
                    r == Err::<Vec<u8>, u16>(STATUS_UNAUTHORIZED)
                } else {
                    r matches Ok(b) && b@ == request.body@
                },
            },
        }
    }
}

/// Check a webhook request: the method must be POST, both signature
/// headers must be present, and the hex-spelled Ed25519 signature must
/// verify over the timestamp header's value followed by the body. On
/// success the body is returned for parsing; otherwise the status code to
/// answer with.
pub fn process(request: &HttpRequest, public_key: &[u8]) -> (r: Result<Vec<u8>, u16>)
    requires
        public_key@.len() == 32,
    ensures
        spec_process(*request, public_key@, r),
{
    let post = String::from_str("POST");
    if !(request.method == post) {
        return Err(STATUS_METHOD_NOT_ALLOWED);
    }
    let ts_name = String::from_str("x-signature-timestamp");
    let timestamp = match find_header(&request.headers, &ts_name) {
        Some(v) => v,
        None => {
            return Err(STATUS_BAD_REQUEST);
        },
    };
    let sig_name = String::from_str("x-signature-ed25519");
    let sig_hex = match find_header(&request.headers, &sig_name) {
        Some(v) => v,
        None => {
            return Err(STATUS_BAD_REQUEST);
        },
    };
    let signature = match decode_hex_signature(sig_hex.as_slice()) {
        Some(v) => v,
        None => {
            return Err(STATUS_BAD_REQUEST);
        },
    };
    let message = concat_bytes(timestamp.as_slice(), request.body.as_slice());
    if !ed25519_verify(public_key, message.as_slice(), signature.as_slice()) {
        return Err(STATUS_UNAUTHORIZED);
    }
    Ok(clone_bytes(request.body.as_slice()))
}

} // verus!
