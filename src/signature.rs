//! HMAC-SHA256 signing and verification over ordered byte parts.
use hmac::Mac;
use vstd::prelude::*;
use vstd::utf8::encode_utf8;

verus! {

/// The HMAC-SHA256 tag of `msg` under `key`.
pub uninterp spec fn hmac_sha256_tag(key: Seq<u8>, msg: Seq<u8>) -> Seq<u8>;

/// The one signature scheme this codec accepts.
pub open spec fn supported_scheme() -> Seq<char> {
    "hmac-sha256"@
}

/// Lower-case hexadecimal digit of a value below 16.
pub open spec fn hex_digit(v: u8) -> char {
    if v < 10 {
        (('0' as u8) + v) as char
    } else {
        (('a' as u8) + (v - 10)) as char
    }
}

/// Lower-case hexadecimal text of a byte sequence, two digits per byte.
pub open spec fn hex_lower(b: Seq<u8>) -> Seq<char>
    decreases b.len(),
{
    if b.len() == 0 {
        Seq::empty()
    } else {
        seq![hex_digit(b[0] / 16), hex_digit(b[0] % 16)] + hex_lower(b.drop_first())
    }
}

/// The parts as byte sequences.
pub open spec fn parts_view(parts: Seq<&[u8]>) -> Seq<Seq<u8>> {
    parts.map_values(|p: &[u8]| p@)
}

/// The bytes that are authenticated: all parts, in order, with no separator.
pub open spec fn signed_bytes(parts: Seq<Seq<u8>>) -> Seq<u8> {
    parts.flatten()
}

/// The signature text of `parts` under `key`.
pub open spec fn signature_of(key: Seq<u8>, parts: Seq<Seq<u8>>) -> Seq<char> {
    hex_lower(hmac_sha256_tag(key, signed_bytes(parts)))
}

/// `sig` is the signature of `parts` under `key`.
pub open spec fn accepts(key: Seq<u8>, sig: Seq<char>, parts: Seq<Seq<u8>>) -> bool {
    sig == signature_of(key, parts)
}

/// The signature of `parts` under `key` as it travels in a frame: UTF-8 bytes.
pub open spec fn signature_frame(key: Seq<u8>, parts: Seq<Seq<u8>>) -> Seq<u8> {
    encode_utf8(signature_of(key, parts))
}

/// Relies on hmac's `Hmac::<Sha256>::new_from_slice`, `Mac::update` and
/// `Mac::finalize`: the HMAC-SHA256 tag of `msg` under `key`. For HMAC,
/// `new_from_slice` accepts a key of any length (longer keys are hashed), so
/// it never fails.
#[verifier::external_body]
fn compute_hmac_sha256(key: &[u8], msg: &[u8]) -> (r: Option<Vec<u8>>)
    ensures
        r == Some(r->0),
        r->0@ == hmac_sha256_tag(key@, msg@),
{
    match hmac::Hmac::<sha2::Sha256>::new_from_slice(key) {
        Ok(mut mac) => {
            mac.update(msg);
            Some(mac.finalize().into_bytes().to_vec())
        },
        Err(_) => None,
    }
}

/// Relies on hex's `encode`: lower-case hexadecimal, two digits per byte.
#[verifier::external_body]
fn encode_hex(b: &[u8]) -> (r: String)
    ensures
        r@ == hex_lower(b@),
{
    hex::encode(b)
}

/// Failure of a signature operation.
#[derive(Debug)]
pub enum SignatureError {
    /// The configured scheme is not supported.
    InvalidScheme(String),
    /// A signature did not match.
    InvalidSignature,
    /// The MAC could not be keyed.
    MacError(String),
}

/// Checks signatures with a shared key.
#[derive(Debug, Clone)]
pub struct SignatureVerifier {
    key: Vec<u8>,
}

/// Produces signatures with a shared key.
#[derive(Debug, Clone)]
pub struct SignatureSigner {
    key: Vec<u8>,
}

impl View for SignatureVerifier {
    type V = Seq<u8>;

    closed spec fn view(&self) -> Seq<u8> {
        self.key@
    }
}

impl View for SignatureSigner {
    type V = Seq<u8>;

    closed spec fn view(&self) -> Seq<u8> {
        self.key@
    }
}

fn is_supported_scheme(scheme: &String) -> (r: bool)
    ensures
        r == (scheme@ == supported_scheme()),
{
    let expected = String::from_str("hmac-sha256");
    *scheme == expected
}

/// Concatenation of all parts, in order.
fn concat_parts(parts: &[&[u8]]) -> (r: Vec<u8>)
    ensures
        r@ == signed_bytes(parts_view(parts@)),
{
    let mut out: Vec<u8> = Vec::new();
    let mut i: usize = 0;
    while i < parts.len()
        invariant
            i <= parts@.len(),
            out@ == signed_bytes(parts_view(parts@.subrange(0, i as int))),
        decreases parts@.len() - i,
    {
        let part: &[u8] = parts[i];
        let ghost before = out@;
        let mut j: usize = 0;
        while j < part.len()
            invariant
                j <= part@.len(),
                out@ == before + part@.subrange(0, j as int),
            decreases part@.len() - j,
        {
            out.push(part[j]);
            assert(part@.subrange(0, j + 1) == part@.subrange(0, j as int).push(part@[j as int]));
            j += 1;
        }
        proof {
            let pre = parts@.subrange(0, i as int);
            assert(parts@.subrange(0, i + 1) == pre.push(parts@[i as int]));
            assert(parts_view(pre.push(parts@[i as int])) == parts_view(pre).push(part@));
            parts_view(pre).lemma_flatten_push(part@);
            assert(part@.subrange(0, part@.len() as int) == part@);
        }
        i += 1;
    }
    assert(parts@.subrange(0, parts@.len() as int) == parts@);
    out
}

/// The signature text of `parts` under `key`, or the keying failure.
fn sign_with(key: &[u8], parts: &[&[u8]]) -> (r: Result<String, SignatureError>)
    ensures
        r matches Ok(s) && s@ == signature_of(key@, parts_view(parts@)),
{
    let msg = concat_parts(parts);
    match compute_hmac_sha256(key, msg.as_slice()) {
        Some(tag) => Ok(encode_hex(tag.as_slice())),
        None => Err(SignatureError::MacError(String::from_str("invalid key length"))),
    }
}

impl SignatureVerifier {
    /// A verifier for `scheme` with `key`; only `"hmac-sha256"` is accepted.
    pub fn new(scheme: String, key: &[u8]) -> (r: Result<Self, SignatureError>)
        ensures
            scheme@ == supported_scheme() <==> r is Ok,
            r matches Ok(v) ==> v@ == key@,
            r matches Err(e) ==> e == SignatureError::InvalidScheme(scheme),
    {
        if is_supported_scheme(&scheme) {
            Ok(SignatureVerifier { key: vstd::slice::slice_to_vec(key) })
        } else {
            Err(SignatureError::InvalidScheme(scheme))
        }
    }

    /// Whether `signature` is the signature of `parts` under this verifier's key.
    pub fn verify(&self, signature: &str, message_parts: &[&[u8]]) -> (r: Result<bool, SignatureError>)
        ensures
            r == Ok::<bool, SignatureError>(
                accepts(self@, signature@, parts_view(message_parts@)),
            ),
    {
        match sign_with(self.key.as_slice(), message_parts) {
            Ok(expected) => {
                let given = signature.to_owned();
                Ok(expected == given)
            },
            Err(e) => Err(e),
        }
    }

    /// Whether the frame `signature` holds the signature of `parts`.
    pub fn verify_frame(&self, signature: &[u8], message_parts: &[&[u8]]) -> (r: bool)
        ensures
            r == (signature@ == signature_frame(self@, parts_view(message_parts@))),
    {
        match sign_with(self.key.as_slice(), message_parts) {
            Ok(expected) => {
                let bytes = vstd::slice::slice_to_vec(expected.as_str().as_bytes());
                same_bytes(&bytes, signature)
            },
            Err(_) => false,
        }
    }
}

/// Whether two byte sequences are equal.
pub fn same_bytes(a: &[u8], b: &[u8]) -> (r: bool)
    ensures
        r == (a@ == b@),
{
    if a.len() != b.len() {
        return false;
    }
    let mut i: usize = 0;
    while i < a.len()
        invariant
            a@.len() == b@.len(),
            i <= a@.len(),
            a@.subrange(0, i as int) == b@.subrange(0, i as int),
        decreases a@.len() - i,
    {
        if a[i] != b[i] {
            assert(a@[i as int] != b@[i as int]);
            return false;
        }
        assert(a@.subrange(0, i + 1) == a@.subrange(0, i as int).push(a@[i as int]));
        assert(b@.subrange(0, i + 1) == b@.subrange(0, i as int).push(b@[i as int]));
        i += 1;
    }
    assert(a@ == a@.subrange(0, a@.len() as int));
    assert(b@ == b@.subrange(0, b@.len() as int));
    true
}

impl SignatureSigner {
    /// A signer for `scheme` with `key`; only `"hmac-sha256"` is accepted.
    pub fn new(scheme: String, key: &[u8]) -> (r: Result<Self, SignatureError>)
        ensures
            scheme@ == supported_scheme() <==> r is Ok,
            r matches Ok(s) ==> s@ == key@,
            r matches Err(e) ==> e == SignatureError::InvalidScheme(scheme),
    {
        if is_supported_scheme(&scheme) {
            Ok(SignatureSigner { key: vstd::slice::slice_to_vec(key) })
        } else {
            Err(SignatureError::InvalidScheme(scheme))
        }
    }

    /// The signature of `parts` as frame bytes.
    pub fn sign_frame(&self, message_parts: &[&[u8]]) -> (r: Result<Vec<u8>, SignatureError>)
        ensures
            r matches Ok(b) && b@ == signature_frame(self@, parts_view(message_parts@)),
    {
        match sign_with(self.key.as_slice(), message_parts) {
            Ok(s) => Ok(vstd::slice::slice_to_vec(s.as_str().as_bytes())),
            Err(e) => Err(e),
        }
    }

    /// The signature of `parts` under this signer's key.
    pub fn sign(&self, message_parts: &[&[u8]]) -> (r: Result<String, SignatureError>)
        ensures
            r matches Ok(s) && s@ == signature_of(self@, parts_view(message_parts@)),
    {
        sign_with(self.key.as_slice(), message_parts)
    }
}

/// A signature made with a key is accepted by a verifier holding the same key.
pub proof fn lemma_sign_then_verify(key: Seq<u8>, parts: Seq<Seq<u8>>)
    ensures
        accepts(key, signature_of(key, parts), parts),
{
}

} // verus!
