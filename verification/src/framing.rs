//! Length-prefixed message framing over a byte stream.
//!
//! A frame is a four-byte unsigned length followed by exactly that many
//! payload bytes.  The byte order of the prefix is a parameter so that a
//! process can select the order its platform uses.

use vstd::bytes::*;
use vstd::prelude::*;
use vstd::slice::{slice_index_get, slice_subrange, slice_to_vec};

verus! {

/// The byte order in which the four-byte length prefix is written.
#[derive(Clone, Copy, PartialEq, Eq, Structural, Debug)]
pub enum ByteOrder {
    Little,
    Big,
}

/// The four bytes that encode `n` as a length prefix in order `order`.
pub open spec fn spec_len_bytes(n: u32, order: ByteOrder) -> Seq<u8> {
    match order {
        ByteOrder::Little => spec_u32_to_le_bytes(n),
        ByteOrder::Big => spec_u32_to_le_bytes(n).reverse(),
    }
}

/// The length encoded by four prefix bytes in order `order`.
pub open spec fn spec_len_of_bytes(s: Seq<u8>, order: ByteOrder) -> u32
    recommends
        s.len() == 4,
{
    match order {
        ByteOrder::Little => spec_u32_from_le_bytes(s),
        ByteOrder::Big => spec_u32_from_le_bytes(s.reverse()),
    }
}

/// A whole frame: the length prefix followed by the payload itself.
pub open spec fn spec_frame(payload: Seq<u8>, order: ByteOrder) -> Seq<u8>
    recommends
        payload.len() <= u32::MAX,
{
    spec_len_bytes(payload.len() as u32, order) + payload
}

/// Encoding a length and reading the four bytes back yields the same length.
pub proof fn lemma_len_bytes_round_trip(n: u32, order: ByteOrder)
    ensures
        spec_len_bytes(n, order).len() == 4,
        spec_len_of_bytes(spec_len_bytes(n, order), order) == n,
{
    lemma_auto_spec_u32_to_from_le_bytes();
    match order {
        ByteOrder::Little => {},
        ByteOrder::Big => {
            assert(spec_len_bytes(n, order).reverse() =~= spec_u32_to_le_bytes(n));
        },
    }
}

/// Writes the four-byte length prefix for `n` in order `order`.
pub fn encode_len(n: u32, order: ByteOrder) -> (r: Vec<u8>)
    ensures
        r@ == spec_len_bytes(n, order),
        r@.len() == 4,
{
    proof {
        lemma_auto_spec_u32_to_from_le_bytes();
    }
    let le = u32_to_le_bytes(n);
    match order {
        ByteOrder::Little => le,
        ByteOrder::Big => {
            let mut r: Vec<u8> = Vec::new();
            r.push(le[3]);
            r.push(le[2]);
            r.push(le[1]);
            r.push(le[0]);
            proof {
                assert(r@ =~= le@.reverse());
            }
            r
        },
    }
}

/// Reads the length out of the four prefix bytes `s` in order `order`.
pub fn decode_len(s: &[u8], order: ByteOrder) -> (r: u32)
    requires
        s@.len() == 4,
    ensures
        r == spec_len_of_bytes(s@, order),
{
    match order {
        ByteOrder::Little => u32_from_le_bytes(s),
        ByteOrder::Big => {
            let mut rev: Vec<u8> = Vec::new();
            rev.push(*slice_index_get(s, 3));
            rev.push(*slice_index_get(s, 2));
            rev.push(*slice_index_get(s, 1));
            rev.push(*slice_index_get(s, 0));
            proof {
                assert(rev@ =~= s@.reverse());
            }
            u32_from_le_bytes(rev.as_slice())
        },
    }
}

/// Encodes `payload` as one frame: its length, then its bytes, unchanged.
pub fn write_message(payload: &Vec<u8>, order: ByteOrder) -> (r: Vec<u8>)
    requires
        payload@.len() <= u32::MAX,
    ensures
        r@ == spec_frame(payload@, order),
{
    let mut out = encode_len(payload.len() as u32, order);
    out.extend_from_slice(payload.as_slice());
    out
}

/// What one attempt to take a message off the front of a stream yields.
pub enum ReadOutcome {
    /// The stream ended before any header byte: an orderly peer shutdown.
    EndOfStream,
    /// The stream ended inside the header or inside the announced payload.
    ProtocolError,
    /// A complete frame: its payload, and how many bytes of input it used.
    Message { payload: Vec<u8>, consumed: usize },
}

/// The outcome of reading one message, at the specification level.
pub enum SpecRead {
    EndOfStream,
    ProtocolError,
    Message { payload: Seq<u8>, rest: Seq<u8> },
}

/// Reading one message off the front of `input`: zero available bytes mean
/// the peer closed in an orderly way; a cut-off header or a cut-off payload
/// is a protocol error; otherwise the payload and the remaining stream.
pub open spec fn spec_read_message(input: Seq<u8>, order: ByteOrder) -> SpecRead {
    if input.len() == 0 {
        SpecRead::EndOfStream
    } else if input.len() < 4 {
        SpecRead::ProtocolError
    } else {
        let n = spec_len_of_bytes(input.subrange(0, 4), order) as int;
        if input.len() - 4 < n {
            SpecRead::ProtocolError
        } else {
            SpecRead::Message {
                payload: input.subrange(4, 4 + n),
                rest: input.subrange(4 + n, input.len() as int),
            }
        }
    }
}

/// Takes one message off the front of `input`, exactly as
/// [`spec_read_message`] describes.
pub fn read_message(input: &Vec<u8>, order: ByteOrder) -> (r: ReadOutcome)
    ensures
        (r matches ReadOutcome::EndOfStream) == (spec_read_message(input@, order)
            is EndOfStream),
        (r matches ReadOutcome::ProtocolError) == (spec_read_message(input@, order)
            is ProtocolError),
        (r matches ReadOutcome::Message { payload, consumed } ==> spec_read_message(
            input@,
            order,
        ) matches SpecRead::Message { payload: p, rest }
            && payload@ == p
            && consumed == input@.len() - rest.len()),
{
    if input.len() == 0 {
        return ReadOutcome::EndOfStream;
    }
    if input.len() < 4 {
        return ReadOutcome::ProtocolError;
    }
    let header: &[u8] = slice_subrange(input.as_slice(), 0, 4);
    let n = decode_len(header, order);
    let need = n as usize;
    if input.len() - 4 < need {
        return ReadOutcome::ProtocolError;
    }
    let body: &[u8] = slice_subrange(input.as_slice(), 4, 4 + need);
    let payload = slice_to_vec(body);
    ReadOutcome::Message { payload, consumed: 4 + need }
}

/// Framing round trip: a frame written for any payload, followed by any
/// remaining stream, reads back as exactly that payload with exactly that
/// remainder.
pub proof fn lemma_frame_round_trip_rest(payload: Seq<u8>, rest: Seq<u8>, order: ByteOrder)
    requires
        payload.len() <= u32::MAX,
    ensures
        spec_read_message(spec_frame(payload, order) + rest, order) == (SpecRead::Message {
            payload,
            rest,
        }),
{
    lemma_len_bytes_round_trip(payload.len() as u32, order);
    let input = spec_frame(payload, order) + rest;
    assert(input.subrange(0, 4) =~= spec_len_bytes(payload.len() as u32, order));
    assert(input.subrange(4, 4 + payload.len() as int) =~= payload);
    assert(input.subrange(4 + payload.len() as int, input.len() as int) =~= rest);
}

/// What the bytes read for a frame header amount to, for a reader that
/// pulls the header off a stream before the body.
pub enum HeaderOutcome {
    /// Zero bytes arrived before the stream closed: an orderly shutdown.
    EndOfStream,
    /// The stream closed after one, two or three header bytes: a protocol
    /// error, fatal for the connection.
    PartialHeader,
    /// A whole header: the announced payload length.
    Length { len: u32 },
}

/// Classifies the up-to-four bytes a reader got for a frame header: none at
/// all is an orderly end of stream, a cut-off header is a protocol error,
/// and a whole header announces its payload length.
pub fn classify_header(got: &Vec<u8>, order: ByteOrder) -> (r: HeaderOutcome)
    requires
        got@.len() <= 4,
    ensures
        (r matches HeaderOutcome::EndOfStream) == (got@.len() == 0),
        (r matches HeaderOutcome::PartialHeader) == (0 < got@.len() < 4),
        (r matches HeaderOutcome::Length { len } ==> got@.len() == 4 && len == spec_len_of_bytes(
            got@,
            order,
        )),
        got@.len() == 4 ==> r is Length,
{
    if got.len() == 0 {
        HeaderOutcome::EndOfStream
    } else if got.len() < 4 {
        HeaderOutcome::PartialHeader
    } else {
        HeaderOutcome::Length { len: decode_len(got.as_slice(), order) }
    }
}

/// End of stream against partial frame: a stream that closes with nothing
/// pending is an orderly shutdown, while one that closes inside the
/// four-byte header — after one, two or three bytes — is a protocol error.
pub proof fn lemma_eof_vs_partial_header(input: Seq<u8>, order: ByteOrder)
    ensures
        input.len() == 0 ==> spec_read_message(input, order) is EndOfStream,
        0 < input.len() < 4 ==> spec_read_message(input, order) is ProtocolError,
{
}

/// Framing round trip for a frame alone: reading what was written yields the
/// payload unchanged and leaves nothing behind.
pub proof fn lemma_frame_round_trip(payload: Seq<u8>, order: ByteOrder)
    requires
        payload.len() <= u32::MAX,
    ensures
        spec_read_message(spec_frame(payload, order), order) == (SpecRead::Message {
            payload,
            rest: Seq::<u8>::empty(),
        }),
{
    lemma_frame_round_trip_rest(payload, Seq::<u8>::empty(), order);
    assert(spec_frame(payload, order) + Seq::<u8>::empty() =~= spec_frame(payload, order));
}

} // verus!
