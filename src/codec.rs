//! Multipart wire framing: identities, the delimiter, the signature and the
//! four signed parts (header, parent header, metadata, content).
use crate::signature::{
    parts_view, same_bytes, signature_frame, SignatureSigner, SignatureVerifier,
};
use vstd::prelude::*;

verus! {

/// The delimiter frame `<IDS|MSG>`.
pub open spec fn delimiter() -> Seq<u8> {
    seq![60u8, 73u8, 68u8, 83u8, 124u8, 77u8, 83u8, 71u8, 62u8]
}

/// Index of the first delimiter frame at or after `i`.
pub open spec fn first_delimiter_from(frames: Seq<Seq<u8>>, i: int) -> Option<int>
    decreases frames.len() - i,
{
    if i < 0 || i >= frames.len() {
        None
    } else if frames[i] == delimiter() {
        Some(i)
    } else {
        first_delimiter_from(frames, i + 1)
    }
}

/// The frames as byte sequences.
pub open spec fn frames_view(v: Seq<Vec<u8>>) -> Seq<Seq<u8>> {
    v.map_values(|f: Vec<u8>| f@)
}

/// Why a multipart message was dropped.
#[derive(Debug, Clone, Copy, PartialEq, Eq, Structural)]
pub enum WireError {
    /// No delimiter, or fewer than five frames after it.
    MalformedMessage,
    /// The signature frame does not match the four signed parts.
    SignatureInvalid,
}

/// The frames of a message, split by role.
pub struct Envelope {
    pub identities: Seq<Seq<u8>>,
    pub signature: Seq<u8>,
    pub header: Seq<u8>,
    pub parent_header: Seq<u8>,
    pub metadata: Seq<u8>,
    pub content: Seq<u8>,
}

/// A message taken apart into its frames; the signature has been checked.
#[derive(Debug)]
pub struct RawMessage {
    /// Routing frames before the delimiter, kept verbatim for replies.
    pub identities: Vec<Vec<u8>>,
    pub signature: Vec<u8>,
    pub header: Vec<u8>,
    pub parent_header: Vec<u8>,
    pub metadata: Vec<u8>,
    pub content: Vec<u8>,
}

impl View for RawMessage {
    type V = Envelope;

    open spec fn view(&self) -> Envelope {
        Envelope {
            identities: frames_view(self.identities@),
            signature: self.signature@,
            header: self.header@,
            parent_header: self.parent_header@,
            metadata: self.metadata@,
            content: self.content@,
        }
    }
}

/// The four signed parts, in signing order.
pub open spec fn signed_parts(h: Seq<u8>, p: Seq<u8>, m: Seq<u8>, c: Seq<u8>) -> Seq<Seq<u8>> {
    seq![h, p, m, c]
}

/// What parsing `frames` with `key` yields.
pub open spec fn parse_spec(key: Seq<u8>, frames: Seq<Seq<u8>>) -> Result<Envelope, WireError> {
    match first_delimiter_from(frames, 0) {
        None => Err(WireError::MalformedMessage),
        Some(d) => if frames.len() < d + 6 {
            Err(WireError::MalformedMessage)
        } else if frames[d + 1] != signature_frame(
            key,
            signed_parts(frames[d + 2], frames[d + 3], frames[d + 4], frames[d + 5]),
        ) {
            Err(WireError::SignatureInvalid)
        } else {
            Ok(
                Envelope {
                    identities: frames.subrange(0, d),
                    signature: frames[d + 1],
                    header: frames[d + 2],
                    parent_header: frames[d + 3],
                    metadata: frames[d + 4],
                    content: frames[d + 5],
                },
            )
        },
    }
}

/// The frames that constructing a message with `key` yields.
pub open spec fn construct_spec(
    key: Seq<u8>,
    identities: Seq<Seq<u8>>,
    h: Seq<u8>,
    p: Seq<u8>,
    m: Seq<u8>,
    c: Seq<u8>,
) -> Seq<Seq<u8>> {
    identities + seq![delimiter(), signature_frame(key, signed_parts(h, p, m, c)), h, p, m, c]
}

fn delimiter_frame() -> (r: Vec<u8>)
    ensures
        r@ == delimiter(),
{
    let r: Vec<u8> = vec![60u8, 73u8, 68u8, 83u8, 124u8, 77u8, 83u8, 71u8, 62u8];
    assert(r@ == delimiter());
    r
}

fn copy_frame(b: &Vec<u8>) -> (r: Vec<u8>)
    ensures
        r@ == b@,
{
    vstd::slice::slice_to_vec(b.as_slice())
}

fn copy_frames(frames: &Vec<Vec<u8>>, n: usize) -> (r: Vec<Vec<u8>>)
    requires
        n <= frames@.len(),
    ensures
        frames_view(r@) == frames_view(frames@).subrange(0, n as int),
{
    let mut out: Vec<Vec<u8>> = Vec::new();
    let mut i: usize = 0;
    while i < n
        invariant
            i <= n <= frames@.len(),
            frames_view(out@) == frames_view(frames@).subrange(0, i as int),
        decreases n - i,
    {
        let f = copy_frame(&frames[i]);
        let ghost before = out@;
        out.push(f);
        assert(frames_view(out@) =~= frames_view(before).push(frames@[i as int]@));
        assert(frames_view(frames@).subrange(0, i + 1) =~= frames_view(frames@).subrange(
            0,
            i as int,
        ).push(frames@[i as int]@));
        i += 1;
    }
    out
}

/// Position of the first delimiter frame.
fn find_delimiter(frames: &Vec<Vec<u8>>) -> (r: Option<usize>)
    ensures
        match r {
            Some(d) => first_delimiter_from(frames_view(frames@), 0) == Some(d as int) && d
                < frames@.len(),
            None => first_delimiter_from(frames_view(frames@), 0) is None,
        },
{
    let delim = delimiter_frame();
    let mut i: usize = 0;
    while i < frames.len()
        invariant
            i <= frames@.len(),
            delim@ == delimiter(),
            first_delimiter_from(frames_view(frames@), 0) == first_delimiter_from(
                frames_view(frames@),
                i as int,
            ),
        decreases frames@.len() - i,
    {
        assert(frames_view(frames@)[i as int] == frames@[i as int]@);
        if same_bytes(frames[i].as_slice(), delim.as_slice()) {
            return Some(i);
        }
        i += 1;
    }
    None
}

/// Takes a multipart message apart: finds the delimiter, requires the
/// signature frame and four parts after it, and checks the signature.
pub fn parse_frames(frames: &Vec<Vec<u8>>, verifier: &SignatureVerifier) -> (r: Result<
    RawMessage,
    WireError,
>)
    ensures
        match r {
            Ok(m) => parse_spec(verifier@, frames_view(frames@)) == Ok::<Envelope, WireError>(m@),
            Err(e) => parse_spec(verifier@, frames_view(frames@)) == Err::<Envelope, WireError>(e),
        },
{
    let d = match find_delimiter(frames) {
        Some(d) => d,
        None => {
            return Err(WireError::MalformedMessage);
        },
    };
    if frames.len() - d < 6 {
        return Err(WireError::MalformedMessage);
    }
    let ghost fv = frames_view(frames@);
    assert(fv[d + 1] == frames@[d + 1]@);
    assert(fv[d + 2] == frames@[d + 2]@);
    assert(fv[d + 3] == frames@[d + 3]@);
    assert(fv[d + 4] == frames@[d + 4]@);
    assert(fv[d + 5] == frames@[d + 5]@);
    let parts: Vec<&[u8]> = vec![
        frames[d + 2].as_slice(),
        frames[d + 3].as_slice(),
        frames[d + 4].as_slice(),
        frames[d + 5].as_slice(),
    ];
    assert(parts_view(parts@) == signed_parts(fv[d + 2], fv[d + 3], fv[d + 4], fv[d + 5]));
    if !verifier.verify_frame(frames[d + 1].as_slice(), parts.as_slice()) {
        return Err(WireError::SignatureInvalid);
    }
    Ok(
        RawMessage {
            identities: copy_frames(frames, d),
            signature: copy_frame(&frames[d + 1]),
            header: copy_frame(&frames[d + 2]),
            parent_header: copy_frame(&frames[d + 3]),
            metadata: copy_frame(&frames[d + 4]),
            content: copy_frame(&frames[d + 5]),
        },
    )
}

/// Assembles a signed multipart message:
/// identities, delimiter, signature, header, parent header, metadata, content.
pub fn construct_frames(
    identities: &Vec<Vec<u8>>,
    header: &Vec<u8>,
    parent_header: &Vec<u8>,
    metadata: &Vec<u8>,
    content: &Vec<u8>,
    signer: &SignatureSigner,
) -> (r: Vec<Vec<u8>>)
    ensures
        frames_view(r@) == construct_spec(
            signer@,
            frames_view(identities@),
            header@,
            parent_header@,
            metadata@,
            content@,
        ),
{
    let parts: Vec<&[u8]> = vec![
        header.as_slice(),
        parent_header.as_slice(),
        metadata.as_slice(),
        content.as_slice(),
    ];
    assert(parts_view(parts@) == signed_parts(header@, parent_header@, metadata@, content@));
    let sig = match signer.sign_frame(parts.as_slice()) {
        Ok(s) => s,
        Err(_) => Vec::new(),
    };
    let mut frames = copy_frames(identities, identities.len());
    assert(frames_view(identities@).subrange(0, identities@.len() as int) =~= frames_view(identities@));
    let ghost ids = frames_view(frames@);
    frames.push(delimiter_frame());
    frames.push(sig);
    frames.push(copy_frame(header));
    frames.push(copy_frame(parent_header));
    frames.push(copy_frame(metadata));
    frames.push(copy_frame(content));
    assert(frames_view(frames@) =~= construct_spec(
        signer@,
        frames_view(identities@),
        header@,
        parent_header@,
        metadata@,
        content@,
    ));
    frames
}

proof fn lemma_first_delimiter_after_identities(ids: Seq<Seq<u8>>, rest: Seq<Seq<u8>>, i: int)
    requires
        0 <= i <= ids.len(),
        rest.len() > 0,
        rest[0] == delimiter(),
        forall|k: int| 0 <= k < ids.len() ==> ids[k] != delimiter(),
    ensures
        first_delimiter_from(ids + rest, i) == Some(ids.len() as int),
    decreases ids.len() - i,
{
    if i < ids.len() {
        lemma_first_delimiter_after_identities(ids, rest, i + 1);
    }
}

/// Constructing a message and parsing it with the same key gives back the
/// identities and the four parts unchanged, provided that no identity frame
/// is itself the delimiter.
pub proof fn lemma_round_trip(
    key: Seq<u8>,
    identities: Seq<Seq<u8>>,
    h: Seq<u8>,
    p: Seq<u8>,
    m: Seq<u8>,
    c: Seq<u8>,
)
    requires
        forall|k: int| 0 <= k < identities.len() ==> identities[k] != delimiter(),
    ensures
        parse_spec(key, construct_spec(key, identities, h, p, m, c)) matches Ok(env) && env.identities
            == identities && env.header == h && env.parent_header == p && env.metadata == m
            && env.content == c && env.signature == signature_frame(key, signed_parts(h, p, m, c)),
{
    let sig = signature_frame(key, signed_parts(h, p, m, c));
    let rest = seq![delimiter(), sig, h, p, m, c];
    lemma_first_delimiter_after_identities(identities, rest, 0);
    let frames = identities + rest;
    let d = identities.len() as int;
    assert(frames[d + 1] == sig);
    assert(frames[d + 2] == h);
    assert(frames[d + 3] == p);
    assert(frames[d + 4] == m);
    assert(frames[d + 5] == c);
    assert(frames.subrange(0, d) == identities);
}

/// A message whose signed parts were altered after signing is dropped as
/// forged whenever the altered parts sign differently.
pub proof fn lemma_tampering_detected(
    key: Seq<u8>,
    identities: Seq<Seq<u8>>,
    parts: Seq<Seq<u8>>,
    altered: Seq<Seq<u8>>,
)
    requires
        parts.len() == 4,
        altered.len() == 4,
        forall|k: int| 0 <= k < identities.len() ==> identities[k] != delimiter(),
        signature_frame(key, altered) != signature_frame(key, parts),
    ensures
        parse_spec(
            key,
            identities + seq![
                delimiter(),
                signature_frame(key, parts),
                altered[0],
                altered[1],
                altered[2],
                altered[3],
            ],
        ) == Err::<Envelope, WireError>(WireError::SignatureInvalid),
{
    let rest = seq![
        delimiter(),
        signature_frame(key, parts),
        altered[0],
        altered[1],
        altered[2],
        altered[3],
    ];
    lemma_first_delimiter_after_identities(identities, rest, 0);
    let frames = identities + rest;
    let d = identities.len() as int;
    assert(signed_parts(frames[d + 2], frames[d + 3], frames[d + 4], frames[d + 5]) == altered);
}

} // verus!
