//! The file-exchange wire format: one request or response travels as a
//! single frame, a little-endian base-128 length prefix followed by exactly
//! that many payload bytes, on a stream that the writer half-closes right
//! after the frame. The codec is pure: it maps between payloads and byte
//! vectors, and the surrounding application moves those bytes on and off
//! the stream. Two independent ceilings bound the declared payload length,
//! and a declared length of zero is a premature-end-of-stream error, so a
//! closed-before-anything stream is distinguishable from an empty payload
//! (the protocol has no valid empty frame).

use vstd::prelude::*;
use vstd::string::StrSliceExecFns;
use vstd::utf8::{decode_utf8, encode_utf8, valid_utf8};

verus! {

/// Size ceiling for the payload of one request frame, in bytes.
pub const REQUEST_SIZE_LIMIT: u64 = 1_000_000;

/// Size ceiling for the payload of one response frame, in bytes.
pub const RESPONSE_SIZE_LIMIT: u64 = 500_000_000;

/// How decoding one frame can fail. Every failure is scoped to the single
/// exchange it happened on; none of them aborts the node.
#[derive(Clone, Copy, Debug, PartialEq, Eq, Structural)]
pub enum FrameError {
    /// The stream ended before a whole frame arrived: inside the length
    /// prefix, inside the payload, or with a declared length of zero.
    PrematureEndOfStream,
    /// The declared payload length exceeds the ceiling for this frame kind.
    /// Decoding stops at the prefix; the payload is never read.
    LengthOverCeiling,
    /// The request payload is not valid UTF-8, so it names no path.
    InvalidPath,
}

/// The little-endian base-128 encoding of a length: seven value bits per
/// byte, least significant group first, high bit set on every byte but the
/// last.
pub open spec fn varint_encode(n: nat) -> Seq<u8>
    decreases n,
{
    if n < 128 {
        seq![n as u8]
    } else {
        seq![(n % 128 + 128) as u8] + varint_encode(n / 128)
    }
}

/// Reads a base-128 length from the front of `s`: the value and the number
/// of bytes it occupied, or `None` if `s` ends inside the prefix.
pub open spec fn varint_parse(s: Seq<u8>) -> Option<(nat, nat)>
    decreases s.len(),
{
    if s.len() == 0 {
        None
    } else if s[0] < 128 {
        Some((s[0] as nat, 1))
    } else {
        match varint_parse(s.skip(1)) {
            None => None,
            Some((v, c)) => Some((((s[0] - 128) + 128 * v) as nat, (c + 1) as nat)),
        }
    }
}

/// One whole frame: the length prefix followed by the payload bytes.
pub open spec fn frame_encode(payload: Seq<u8>) -> Seq<u8> {
    varint_encode(payload.len()) + payload
}

/// What decoding a frame from the bytes of one half-closed stream yields
/// under the ceiling `max`: the payload, or the first error the prefix or
/// the byte count forces. Bytes after the frame are left alone, as a reader
/// that stops at the declared length would leave them.
pub open spec fn frame_decode(s: Seq<u8>, max: nat) -> Result<Seq<u8>, FrameError> {
    match varint_parse(s) {
        None => Err(FrameError::PrematureEndOfStream),
        Some((len, c)) => if len > max {
            Err(FrameError::LengthOverCeiling)
        } else if len == 0 {
            Err(FrameError::PrematureEndOfStream)
        } else if s.len() < c + len {
            Err(FrameError::PrematureEndOfStream)
        } else {
            Ok(s.subrange(c as int, (c + len) as int))
        },
    }
}

/// A length prefix as the reader sees it: either the value itself, or the
/// bare fact that it does not fit in 64 bits (such a length is over every
/// ceiling, so nothing more about it is needed).
enum PrefixValue {
    Fits(u64),
    Huge,
}

/// Reads the base-128 length prefix that starts at `start`, following
/// continuation bytes to the end of the prefix, without touching any
/// payload byte.
fn parse_prefix(data: &Vec<u8>, start: usize) -> (r: Option<(PrefixValue, usize)>)
    requires
        start <= data@.len(),
    ensures
        match varint_parse(data@.skip(start as int)) {
            None => r is None,
            Some((v, c)) => {
                &&& r matches Some((pv, cc))
                &&& cc == c
                &&& start + c <= data@.len()
                &&& (match pv {
                    PrefixValue::Fits(u) => v == u,
                    PrefixValue::Huge => v > u64::MAX,
                })
            },
        },
    decreases data@.len() - start,
{
    if start >= data.len() {
        return None;
    }
    let b: u8 = data[start];
    if b < 128 {
        Some((PrefixValue::Fits(b as u64), 1))
    } else {
        proof {
            assert(data@.skip(start as int).skip(1) =~= data@.skip(start as int + 1));
        }
        match parse_prefix(data, start + 1) {
            None => None,
            Some((rest, c)) => {
                let low: u64 = (b - 128) as u64;
                let value = match rest {
                    PrefixValue::Huge => PrefixValue::Huge,
                    PrefixValue::Fits(v) => match v.checked_mul(128) {
                        None => PrefixValue::Huge,
                        Some(m) => match m.checked_add(low) {
                            None => PrefixValue::Huge,
                            Some(t) => PrefixValue::Fits(t),
                        },
                    },
                };
                Some((value, c + 1))
            },
        }
    }
}

/// Decodes the one frame held in `data` under the ceiling `max`, exactly as
/// [`frame_decode`] describes: the declared length is checked against the
/// ceiling before a single payload byte is copied, a declared length of
/// zero is a premature end of stream, and so is a stream that ends inside
/// the prefix or the payload.
pub fn decode_frame(data: &Vec<u8>, max: u64) -> (r: Result<Vec<u8>, FrameError>)
    ensures
        frame_decode(data@, max as nat) matches Ok(p) ==> r matches Ok(v) && v@ == p,
        frame_decode(data@, max as nat) matches Err(e) ==> r matches Err(e2) && e2 == e,
{
    proof {
        assert(data@.skip(0) =~= data@);
    }
    match parse_prefix(data, 0) {
        None => Err(FrameError::PrematureEndOfStream),
        Some((PrefixValue::Huge, _)) => Err(FrameError::LengthOverCeiling),
        Some((PrefixValue::Fits(len), consumed)) => {
            if len > max {
                Err(FrameError::LengthOverCeiling)
            } else if len == 0 {
                Err(FrameError::PrematureEndOfStream)
            } else {
                let remaining: usize = data.len() - consumed;
                if (remaining as u64) < len {
                    Err(FrameError::PrematureEndOfStream)
                } else {
                    let l: usize = len as usize;
                    let dlen: usize = data.len();
                    let mut payload: Vec<u8> = Vec::with_capacity(l);
                    let mut i: usize = 0;
                    while i < l
                        invariant
                            i <= l,
                            dlen == data@.len(),
                            consumed + l <= dlen,
                            payload@ == data@.subrange(
                                consumed as int,
                                consumed + i as int,
                            ),
                        decreases l - i,
                    {
                        payload.push(data[consumed + i]);
                        proof {
                            assert(payload@ =~= data@.subrange(
                                consumed as int,
                                consumed + i + 1 as int,
                            ));
                        }
                        i = i + 1;
                    }
                    Ok(payload)
                }
            }
        },
    }
}

/// Encodes one frame: the base-128 length prefix of `payload`, then the
/// payload bytes themselves, as [`frame_encode`] describes. The caller
/// half-closes the stream after writing the result.
pub fn encode_frame(payload: &Vec<u8>) -> (out: Vec<u8>)
    ensures
        out@ == frame_encode(payload@),
{
    let ghost n0: nat = payload@.len();
    let mut out: Vec<u8> = Vec::new();
    let mut n: usize = payload.len();
    while n >= 128
        invariant
            out@ + varint_encode(n as nat) =~= varint_encode(n0),
        decreases n,
    {
        let b: u8 = (n % 128) as u8 + 128;
        proof {
            assert((out@ + seq![b]) + varint_encode(n as nat / 128) =~= out@ + (seq![b]
                + varint_encode(n as nat / 128)));
        }
        out.push(b);
        n = n / 128;
    }
    out.push(n as u8);
    proof {
        assert(out@ =~= varint_encode(n0));
    }
    let ghost prefix: Seq<u8> = out@;
    let mut i: usize = 0;
    while i < payload.len()
        invariant
            i <= payload@.len(),
            out@ == prefix + payload@.subrange(0, i as int),
        decreases payload@.len() - i,
    {
        out.push(payload[i]);
        proof {
            assert(out@ =~= prefix + payload@.subrange(0, i + 1 as int));
        }
        i = i + 1;
    }
    proof {
        assert(out@ =~= frame_encode(payload@));
    }
    out
}

/// Parsing a length prefix back out of its encoding recovers the value and
/// consumes exactly the encoded bytes, whatever follows them.
pub proof fn lemma_varint_round_trip(n: nat, rest: Seq<u8>)
    ensures
        varint_parse(varint_encode(n) + rest) == Some((n, varint_encode(n).len())),
    decreases n,
{
    let enc = varint_encode(n);
    if n < 128 {
        assert((enc + rest)[0] == n as u8);
    } else {
        lemma_varint_round_trip(n / 128, rest);
        assert((enc + rest).skip(1) =~= varint_encode(n / 128) + rest);
        assert((enc + rest)[0] == (n % 128 + 128) as u8);
        vstd::arithmetic::div_mod::lemma_fundamental_div_mod(n as int, 128);
    }
}

/// Round-trip: a payload within the ceiling, framed and then decoded under
/// that ceiling, comes back unchanged. A zero-length payload is the one
/// exception by design: the protocol has no valid empty frame.
pub proof fn lemma_frame_round_trip(payload: Seq<u8>, max: nat)
    requires
        1 <= payload.len() <= max,
    ensures
        frame_decode(frame_encode(payload), max) == Ok::<Seq<u8>, FrameError>(payload),
{
    let enc = varint_encode(payload.len());
    lemma_varint_round_trip(payload.len(), payload);
    assert(frame_encode(payload).subrange(
        enc.len() as int,
        (enc.len() + payload.len()) as int,
    ) =~= payload);
}

/// Ceiling enforcement: a frame that declares a length over the ceiling is
/// rejected on the prefix alone. `rest` is arbitrary — in particular it may
/// hold far fewer bytes than the declared length, so the decoder never
/// waits for, reads, or allocates the oversized amount.
pub proof fn lemma_ceiling_enforced(declared: nat, rest: Seq<u8>, max: nat)
    requires
        declared > max,
    ensures
        frame_decode(varint_encode(declared) + rest, max) == Err::<
            Seq<u8>,
            FrameError,
        >(FrameError::LengthOverCeiling),
{
    lemma_varint_round_trip(declared, rest);
}

/// Zero-length rejection: a frame that declares length zero decodes to a
/// premature-end-of-stream error, never to an empty payload, whatever
/// bytes follow the prefix.
pub proof fn lemma_zero_length_rejected(rest: Seq<u8>, max: nat)
    ensures
        frame_decode(varint_encode(0) + rest, max) == Err::<
            Seq<u8>,
            FrameError,
        >(FrameError::PrematureEndOfStream),
{
    lemma_varint_round_trip(0, rest);
}

/// The application payload of an outbound exchange: a UTF-8 path naming
/// the file the sender wants.
#[derive(Clone, Debug, PartialEq, Eq)]
pub struct FileRequest(pub String);

/// The application payload of the paired reply: the opaque bytes of the
/// served file.
#[derive(Clone, Debug, PartialEq, Eq)]
pub struct FileResponse(pub Vec<u8>);

/// The protocol under which file-exchange streams are negotiated.
#[derive(Clone, Copy, Debug)]
pub struct FileExchangeProtocol;

impl FileExchangeProtocol {
    /// The name this protocol is negotiated under on every stream.
    pub fn protocol_name(&self) -> (name: &'static str)
        ensures
            name@ == "/file-exchange/1"@,
    {
        "/file-exchange/1"
    }
}

/// The bytes of one request frame: the framed UTF-8 encoding of the path.
pub open spec fn request_encode(path: Seq<char>) -> Seq<u8> {
    frame_encode(encode_utf8(path))
}

/// What decoding one request frame yields: the path, under the request
/// ceiling, or the first error the frame forces. A payload that is not
/// valid UTF-8 names no path and is rejected.
pub open spec fn request_decode(s: Seq<u8>) -> Result<Seq<char>, FrameError> {
    match frame_decode(s, REQUEST_SIZE_LIMIT as nat) {
        Err(e) => Err(e),
        Ok(p) => if valid_utf8(p) {
            Ok(decode_utf8(p))
        } else {
            Err(FrameError::InvalidPath)
        },
    }
}

/// The bytes of one response frame: the framed file bytes.
pub open spec fn response_encode(data: Seq<u8>) -> Seq<u8> {
    frame_encode(data)
}

/// What decoding one response frame yields, under the response ceiling.
pub open spec fn response_decode(s: Seq<u8>) -> Result<Seq<u8>, FrameError> {
    frame_decode(s, RESPONSE_SIZE_LIMIT as nat)
}

/// Relies on `String::from_utf8` from std: it succeeds exactly on byte
/// sequences that are valid UTF-8, and the string it returns spells those
/// bytes, character for character.
#[verifier::external_body]
fn string_from_utf8(bytes: Vec<u8>) -> (r: Option<String>)
    ensures
        r is Some <==> valid_utf8(bytes@),
        r matches Some(s) ==> s@ == decode_utf8(bytes@) && encode_utf8(s@) == bytes@,
{
    String::from_utf8(bytes).ok()
}

/// Frames one request, as [`request_encode`] describes.
pub fn encode_request(request: &FileRequest) -> (out: Vec<u8>)
    ensures
        out@ == request_encode(request.0@),
{
    let bytes: Vec<u8> = request.0.as_str().as_bytes_vec();
    encode_frame(&bytes)
}

/// Decodes the one request frame held in `data`, as [`request_decode`]
/// describes.
pub fn decode_request(data: &Vec<u8>) -> (r: Result<FileRequest, FrameError>)
    ensures
        request_decode(data@) matches Ok(p) ==> r matches Ok(q) && q.0@ == p,
        request_decode(data@) matches Err(e) ==> r matches Err(e2) && e2 == e,
{
    match decode_frame(data, REQUEST_SIZE_LIMIT) {
        Err(e) => Err(e),
        Ok(payload) => match string_from_utf8(payload) {
            Some(path) => Ok(FileRequest(path)),
            None => Err(FrameError::InvalidPath),
        },
    }
}

/// Frames one response, as [`response_encode`] describes.
pub fn encode_response(response: &FileResponse) -> (out: Vec<u8>)
    ensures
        out@ == response_encode(response.0@),
{
    encode_frame(&response.0)
}

/// Decodes the one response frame held in `data`, as [`response_decode`]
/// describes.
pub fn decode_response(data: &Vec<u8>) -> (r: Result<FileResponse, FrameError>)
    ensures
        response_decode(data@) matches Ok(p) ==> r matches Ok(q) && q.0@ == p,
        response_decode(data@) matches Err(e) ==> r matches Err(e2) && e2 == e,
{
    match decode_frame(data, RESPONSE_SIZE_LIMIT) {
        Err(e) => Err(e),
        Ok(payload) => Ok(FileResponse(payload)),
    }
}

/// Round-trip at the request layer: a nonempty path whose UTF-8 form fits
/// the request ceiling comes back out of its own frame unchanged.
pub proof fn lemma_request_round_trip(path: Seq<char>)
    requires
        1 <= encode_utf8(path).len() <= REQUEST_SIZE_LIMIT,
    ensures
        request_decode(request_encode(path)) == Ok::<Seq<char>, FrameError>(path),
{
    lemma_frame_round_trip(encode_utf8(path), REQUEST_SIZE_LIMIT as nat);
    vstd::utf8::encode_utf8_valid_utf8(path);
    vstd::utf8::encode_utf8_decode_utf8(path);
}

/// Round-trip at the response layer: nonempty file bytes within the
/// response ceiling come back out of their own frame unchanged.
pub proof fn lemma_response_round_trip(data: Seq<u8>)
    requires
        1 <= data.len() <= RESPONSE_SIZE_LIMIT,
    ensures
        response_decode(response_encode(data)) == Ok::<Seq<u8>, FrameError>(data),
{
    lemma_frame_round_trip(data, RESPONSE_SIZE_LIMIT as nat);
}

} // verus!
