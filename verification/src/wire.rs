//! What goes over the connection of a transfer: a greeting that names the
//! protocol version, then frames, each a length followed by that many bytes
//! of sealed chunk.
use vstd::prelude::*;
use vstd::bytes::lemma_auto_spec_u32_to_from_le_bytes;
use vstd::bytes::spec_u32_from_le_bytes;
use vstd::bytes::spec_u32_to_le_bytes;
use vstd::bytes::u32_from_le_bytes;
use vstd::bytes::u32_to_le_bytes;
use vstd::slice::slice_subrange;
use vstd::slice::slice_to_vec;
use crate::encryption::open_result;
use crate::encryption::sealed_message;
use crate::encryption::Encryption;
use crate::error::EncryptionError;
use crate::error::TransferError;
use crate::error::TsunaguError;
use crate::transfer::CHUNK_SIZE;

verus! {

/// The version of the protocol that this library speaks.
pub const PROTOCOL_VERSION: u32 = 1;

/// Number of bytes of a frame's length prefix.
pub const PREFIX_LEN: usize = 4;

/// Number of bytes of a greeting.
pub const GREETING_LEN: usize = 8;

/// Largest payload of a frame: a full chunk with its counter and its tag.
pub const MAX_PAYLOAD: usize = 65560;

/// The four bytes that open every greeting.
pub open spec fn magic() -> Seq<u8> {
    seq![0x54u8, 0x53u8, 0x4eu8, 0x47u8]
}

/// The greeting of a peer that speaks `version`: the magic bytes, then the
/// version in little-endian order.
pub open spec fn greeting_of(version: u32) -> Seq<u8> {
    magic() + spec_u32_to_le_bytes(version)
}

/// The frame that carries `payload`: its length in little-endian order,
/// then the payload.
pub open spec fn frame_of(payload: Seq<u8>) -> Seq<u8> {
    spec_u32_to_le_bytes(payload.len() as u32) + payload
}

/// What the start of a buffer of received bytes holds.
pub enum Parsed {
    /// Not yet a whole frame: more bytes are needed.
    Incomplete,
    /// A whole frame, with its payload and the number of bytes that it
    /// takes up at the start of the buffer.
    Frame(Vec<u8>, usize),
    /// A length beyond the largest payload: the stream is not a stream of
    /// frames.
    Invalid,
}

/// Mathematical value of a [`Parsed`].
pub enum ParsedView {
    Incomplete,
    Frame(Seq<u8>, nat),
    Invalid,
}

impl View for Parsed {
    type V = ParsedView;

    open spec fn view(&self) -> ParsedView {
        match *self {
            Parsed::Incomplete => ParsedView::Incomplete,
            Parsed::Frame(payload, used) => ParsedView::Frame(payload@, used as nat),
            Parsed::Invalid => ParsedView::Invalid,
        }
    }
}

/// What the start of `buffer` holds.
pub open spec fn parse_of(buffer: Seq<u8>) -> ParsedView {
    if buffer.len() < PREFIX_LEN {
        ParsedView::Incomplete
    } else {
        let len = spec_u32_from_le_bytes(buffer.take(PREFIX_LEN as int)) as int;
        if len > MAX_PAYLOAD {
            ParsedView::Invalid
        } else if buffer.len() < PREFIX_LEN + len {
            ParsedView::Incomplete
        } else {
            ParsedView::Frame(
                buffer.subrange(PREFIX_LEN as int, PREFIX_LEN + len),
                (PREFIX_LEN + len) as nat,
            )
        }
    }
}

/// A frame parses back to its payload, whatever follows it in the buffer.
pub proof fn lemma_frame_round_trip(payload: Seq<u8>, rest: Seq<u8>)
    requires
        payload.len() <= MAX_PAYLOAD,
    ensures
        parse_of(frame_of(payload) + rest) == ParsedView::Frame(
            payload,
            (PREFIX_LEN + payload.len()) as nat,
        ),
{
    lemma_auto_spec_u32_to_from_le_bytes();
    let prefix = spec_u32_to_le_bytes(payload.len() as u32);
    let buffer = frame_of(payload) + rest;
    assert(buffer.take(PREFIX_LEN as int) =~= prefix);
    assert(spec_u32_from_le_bytes(prefix) == payload.len() as u32);
    assert(buffer.subrange(PREFIX_LEN as int, PREFIX_LEN + payload.len()) =~= payload);
}

/// A frame that has not arrived whole is incomplete, never a frame and
/// never invalid.
pub proof fn lemma_partial_frame_incomplete(payload: Seq<u8>, n: int)
    requires
        payload.len() <= MAX_PAYLOAD,
        0 <= n < PREFIX_LEN + payload.len(),
    ensures
        parse_of(frame_of(payload).take(n)) == ParsedView::Incomplete,
{
    lemma_auto_spec_u32_to_from_le_bytes();
    let prefix = spec_u32_to_le_bytes(payload.len() as u32);
    let buffer = frame_of(payload).take(n);
    if n >= PREFIX_LEN {
        assert(buffer.take(PREFIX_LEN as int) =~= prefix);
        assert(spec_u32_from_le_bytes(prefix) == payload.len() as u32);
    }
}

/// The greeting that this library sends.
pub fn encode_greeting() -> (greeting: Vec<u8>)
    ensures
        greeting@ == greeting_of(PROTOCOL_VERSION),
        greeting@.len() == GREETING_LEN,
{
    let mut greeting: Vec<u8> = Vec::new();
    greeting.push(0x54u8);
    greeting.push(0x53u8);
    greeting.push(0x4eu8);
    greeting.push(0x47u8);
    let mut version = u32_to_le_bytes(PROTOCOL_VERSION);
    greeting.append(&mut version);
    assert(greeting@ =~= greeting_of(PROTOCOL_VERSION));
    greeting
}

/// Accepts the greeting of a peer that speaks this library's version and
/// refuses everything else as a protocol violation.
pub fn check_greeting(received: &[u8]) -> (accepted: Result<(), TsunaguError>)
    ensures
        received@ == greeting_of(PROTOCOL_VERSION) ==> accepted is Ok,
        received@ != greeting_of(PROTOCOL_VERSION) ==> accepted matches Err(
            TsunaguError::Transfer(TransferError::ProtocolViolation),
        ),
{
    let refused = Err(TsunaguError::Transfer(TransferError::ProtocolViolation));
    proof {
        lemma_auto_spec_u32_to_from_le_bytes();
    }
    if received.len() != GREETING_LEN {
        return refused;
    }
    if received[0] != 0x54u8 || received[1] != 0x53u8 || received[2] != 0x4eu8 || received[3]
        != 0x47u8 {
        assert(greeting_of(PROTOCOL_VERSION)[0] == 0x54u8);
        assert(greeting_of(PROTOCOL_VERSION)[1] == 0x53u8);
        assert(greeting_of(PROTOCOL_VERSION)[2] == 0x4eu8);
        assert(greeting_of(PROTOCOL_VERSION)[3] == 0x47u8);
        return refused;
    }
    let tail = slice_subrange(received, 4, GREETING_LEN);
    let version = u32_from_le_bytes(tail);
    proof {
        assert(received@ =~= magic() + tail@);
        if version == PROTOCOL_VERSION {
            assert(spec_u32_to_le_bytes(spec_u32_from_le_bytes(tail@)) == tail@);
        } else if received@ == greeting_of(PROTOCOL_VERSION) {
            assert(greeting_of(PROTOCOL_VERSION).skip(4) =~= spec_u32_to_le_bytes(
                PROTOCOL_VERSION,
            ));
            assert(received@.skip(4) =~= tail@);
            assert(spec_u32_from_le_bytes(spec_u32_to_le_bytes(PROTOCOL_VERSION))
                == PROTOCOL_VERSION);
        }
    }
    if version == PROTOCOL_VERSION {
        Ok(())
    } else {
        refused
    }
}

/// Puts a payload into a frame. A payload beyond the largest one is
/// refused as a protocol violation.
pub fn encode_frame(payload: &[u8]) -> (frame: Result<Vec<u8>, TsunaguError>)
    ensures
        payload@.len() <= MAX_PAYLOAD ==> (frame matches Ok(f) && f@ == frame_of(payload@)),
        payload@.len() > MAX_PAYLOAD ==> frame matches Err(
            TsunaguError::Transfer(TransferError::ProtocolViolation),
        ),
{
    if payload.len() > MAX_PAYLOAD {
        return Err(TsunaguError::Transfer(TransferError::ProtocolViolation));
    }
    let mut frame = u32_to_le_bytes(payload.len() as u32);
    let mut body = slice_to_vec(payload);
    frame.append(&mut body);
    assert(frame@ =~= frame_of(payload@));
    Ok(frame)
}

/// Reads the frame at the start of a buffer of received bytes.
pub fn decode_frame(buffer: &[u8]) -> (parsed: Parsed)
    ensures
        parsed@ == parse_of(buffer@),
{
    if buffer.len() < PREFIX_LEN {
        return Parsed::Incomplete;
    }
    let prefix = slice_subrange(buffer, 0, PREFIX_LEN);
    assert(prefix@ =~= buffer@.take(PREFIX_LEN as int));
    let len = u32_from_le_bytes(prefix) as usize;
    if len > MAX_PAYLOAD {
        Parsed::Invalid
    } else if buffer.len() - PREFIX_LEN < len {
        Parsed::Incomplete
    } else {
        let payload = slice_to_vec(slice_subrange(buffer, PREFIX_LEN, PREFIX_LEN + len));
        Parsed::Frame(payload, PREFIX_LEN + len)
    }
}

/// Seals a chunk and puts the sealed message into a frame.
///
/// A chunk beyond the chunk size is refused as a protocol violation, and
/// a session whose counter is at the end of its range seals nothing; every
/// other chunk is sealed. A refusal leaves the session as it was. The frame
/// parses back to the sealed message, and that opens to the chunk at a
/// receiver that expects its counter.
pub fn seal_chunk(session: &mut Encryption, chunk: &[u8]) -> (frame: Result<Vec<u8>, TsunaguError>)
    ensures
        chunk@.len() > CHUNK_SIZE ==> frame matches Err(
            TsunaguError::Transfer(TransferError::ProtocolViolation),
        ),
        chunk@.len() <= CHUNK_SIZE && old(session)@.send_counter == u64::MAX ==> frame matches Err(
            TsunaguError::Encryption(EncryptionError::CounterExhausted),
        ),
        chunk@.len() <= CHUNK_SIZE && old(session)@.send_counter < u64::MAX ==> frame is Ok,
        frame is Err ==> final(session)@ == old(session)@,
        frame matches Ok(f) ==> {
            let message = sealed_message(old(session)@.key, old(session)@.send_counter, chunk@);
            &&& chunk@.len() <= CHUNK_SIZE
            &&& old(session)@.send_counter < u64::MAX
            &&& final(session)@ == (crate::encryption::EncryptionView {
                send_counter: (old(session)@.send_counter + 1) as u64,
                ..old(session)@
            })
            &&& f@ == frame_of(message)
            &&& parse_of(f@) == ParsedView::Frame(message, f@.len())
            &&& open_result(old(session)@.key, old(session)@.send_counter, message) == Ok::<
                Seq<u8>,
                EncryptionError,
            >(chunk@)
        },
{
    if chunk.len() > CHUNK_SIZE as usize {
        return Err(TsunaguError::Transfer(TransferError::ProtocolViolation));
    }
    match session.encrypt(chunk) {
        Err(e) => Err(e),
        Ok(message) => {
            proof {
                lemma_frame_round_trip(message@, Seq::empty());
                assert(frame_of(message@) + Seq::<u8>::empty() =~= frame_of(message@));
                lemma_auto_spec_u32_to_from_le_bytes();
            }
            encode_frame(message.as_slice())
        },
    }
}

/// What a receiver makes of the start of a buffer of received bytes.
pub enum Received {
    /// Not yet a whole frame: more bytes are needed.
    Incomplete,
    /// A chunk, with the number of bytes that its frame takes up at the
    /// start of the buffer.
    Chunk(Vec<u8>, usize),
    /// The stream is broken or was tampered with; the transfer has failed.
    Failed(TsunaguError),
}

/// Reads the frame at the start of a buffer of received bytes and opens
/// the sealed message in it.
///
/// Nothing but a whole frame whose message is the one expected next moves
/// the session; a length beyond the largest payload is a protocol
/// violation, and a message that does not open fails as
/// [`Encryption::decrypt`] says.
pub fn open_chunk(session: &mut Encryption, buffer: &[u8]) -> (received: Received)
    ensures
        final(session)@.key == old(session)@.key,
        final(session)@.send_counter == old(session)@.send_counter,
        match parse_of(buffer@) {
            ParsedView::Incomplete => received is Incomplete && final(session)@ == old(session)@,
            ParsedView::Invalid => (received matches Received::Failed(
                TsunaguError::Transfer(TransferError::ProtocolViolation),
            )) && final(session)@ == old(session)@,
            ParsedView::Frame(message, used) => match open_result(
                old(session)@.key,
                old(session)@.recv_counter,
                message,
            ) {
                Ok(chunk) => (received matches Received::Chunk(c, n) && c@ == chunk && n == used)
                    && final(session)@.recv_counter == old(session)@.recv_counter + 1,
                Err(reason) => (received matches Received::Failed(e) && e
                    == TsunaguError::Encryption(reason)) && final(session)@ == old(session)@,
            },
        },
{
    match decode_frame(buffer) {
        Parsed::Incomplete => Received::Incomplete,
        Parsed::Invalid => Received::Failed(
            TsunaguError::Transfer(TransferError::ProtocolViolation),
        ),
        Parsed::Frame(message, used) => match session.decrypt(message.as_slice()) {
            Ok(chunk) => Received::Chunk(chunk, used),
            Err(e) => Received::Failed(e),
        },
    }
}

} // verus!
