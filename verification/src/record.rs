use vstd::prelude::*;
use vstd::bytes::{
    lemma_auto_spec_u64_to_from_le_bytes, spec_u64_from_le_bytes, spec_u64_to_le_bytes,
    u64_from_le_bytes, u64_to_le_bytes,
};
use vstd::slice::{slice_subrange, slice_to_vec};
use crate::errors::IdlError;
use crate::hashing::{idl_discriminator, spec_idl_discriminator};
use crate::json::{is_valid_json, parse_json};

verus! {

/// Size of the fixed record-kind tag at the start of a record.
pub const DISCRIMINATOR_LEN: usize = 8;

/// Offset of the little-endian payload-length field.
pub const LEN_FIELD_OFFSET: usize = 40;

/// Size of the whole fixed header: discriminator, authority, length field.
pub const HEADER_LEN: usize = 48;

/// Whether the buffer starts with the expected IDL discriminator.
pub open spec fn has_idl_discriminator(raw: Seq<u8>) -> bool
    recommends
        raw.len() >= 8,
{
    raw.subrange(0, 8) == spec_idl_discriminator()
}

/// The payload length a buffer declares: its bytes 40..48 read as a
/// little-endian unsigned integer.
pub open spec fn spec_payload_len(raw: Seq<u8>) -> u64
    recommends
        raw.len() >= 48,
{
    spec_u64_from_le_bytes(raw.subrange(40, 48))
}

/// Whether the buffer is a well-framed IDL record: full header present,
/// correct discriminator, and the declared payload fits in the buffer.
pub open spec fn frame_ok(raw: Seq<u8>) -> bool {
    &&& raw.len() >= 48
    &&& has_idl_discriminator(raw)
    &&& 48 + spec_payload_len(raw) <= raw.len()
}

/// The declared payload window of a well-framed buffer: the
/// `spec_payload_len(raw)` bytes that follow the header. Bytes beyond the
/// window are never inspected.
pub open spec fn spec_payload(raw: Seq<u8>) -> Seq<u8>
    recommends
        frame_ok(raw),
{
    raw.subrange(48, 48 + spec_payload_len(raw) as int)
}

/// Compares the buffer's first 8 bytes against the expected IDL
/// discriminator, byte for byte.
fn check_discriminator(raw: &Vec<u8>) -> (r: bool)
    requires
        raw@.len() >= 8,
    ensures
        r == has_idl_discriminator(raw@),
{
    let expected = idl_discriminator();
    let mut i: usize = 0;
    while i < 8
        invariant
            i <= 8,
            raw@.len() >= 8,
            expected@ == spec_idl_discriminator(),
            expected@.len() == 8,
            forall|j: int| 0 <= j < i ==> raw@[j] == expected@[j],
        decreases 8 - i,
    {
        if raw[i] != expected[i] {
            proof {
                assert(raw@.subrange(0, 8)[i as int] == raw@[i as int]);
            }
            return false;
        }
        i = i + 1;
    }
    proof {
        assert(raw@.subrange(0, 8) =~= expected@);
    }
    true
}

/// Validates the framing of a raw account buffer and extracts the declared
/// payload window, in the fixed order of checks: minimum length for the
/// discriminator read, discriminator, full header length, payload bound.
/// Each failure reports the kind belonging to the first check that failed.
pub fn extract_payload(raw: &Vec<u8>) -> (r: Result<Vec<u8>, IdlError>)
    ensures
        r is Ok <==> frame_ok(raw@),
        r is Ok ==> r->Ok_0@ == spec_payload(raw@),
        raw@.len() <= 8 ==> r->Err_0 is TooShort,
        raw@.len() > 8 && !has_idl_discriminator(raw@) ==> r->Err_0 is WrongDiscriminator,
        8 < raw@.len() < 48 && has_idl_discriminator(raw@) ==> r->Err_0 is TooShort,
        raw@.len() >= 48 && has_idl_discriminator(raw@) && raw@.len() < 48 + spec_payload_len(
            raw@,
        ) ==> r->Err_0 is Truncated,
{
    if raw.len() <= DISCRIMINATOR_LEN {
        return Err(IdlError::TooShort);
    }
    if !check_discriminator(raw) {
        return Err(IdlError::WrongDiscriminator);
    }
    if raw.len() < HEADER_LEN {
        return Err(IdlError::TooShort);
    }
    let len_bytes = slice_subrange(raw.as_slice(), LEN_FIELD_OFFSET, HEADER_LEN);
    let payload_len = u64_from_le_bytes(len_bytes);
    let avail = (raw.len() - HEADER_LEN) as u64;
    if payload_len > avail {
        return Err(IdlError::Truncated);
    }
    let n = payload_len as usize;
    let payload = slice_to_vec(slice_subrange(raw.as_slice(), HEADER_LEN, HEADER_LEN + n));
    Ok(payload)
}

/// Decodes a raw account buffer into its embedded JSON document: validates
/// the framing as [`extract_payload`] does, then parses the payload window
/// as one JSON document. Succeeds exactly on well-framed buffers whose
/// payload is valid JSON; every failure reports the kind of the first check
/// that failed.
pub fn decode(raw: &Vec<u8>) -> (r: Result<serde_json::Value, IdlError>)
    ensures
        r is Ok <==> frame_ok(raw@) && is_valid_json(spec_payload(raw@)),
        raw@.len() <= 8 ==> r->Err_0 is TooShort,
        raw@.len() > 8 && !has_idl_discriminator(raw@) ==> r->Err_0 is WrongDiscriminator,
        8 < raw@.len() < 48 && has_idl_discriminator(raw@) ==> r->Err_0 is TooShort,
        raw@.len() >= 48 && has_idl_discriminator(raw@) && raw@.len() < 48 + spec_payload_len(
            raw@,
        ) ==> r->Err_0 is Truncated,
        frame_ok(raw@) && !is_valid_json(spec_payload(raw@)) ==> r->Err_0 is MalformedDocument,
        frame_ok(raw@) && spec_payload_len(raw@) == 0 ==> r is Err && r->Err_0 is MalformedDocument,
{
    let payload = match extract_payload(raw) {
        Ok(p) => p,
        Err(e) => {
            return Err(e);
        },
    };
    match parse_json(&payload) {
        Ok(doc) => Ok(doc),
        Err(msg) => Err(IdlError::MalformedDocument(msg)),
    }
}

/// A correctly framed record holding the given authority and payload:
/// discriminator, authority, little-endian payload length, payload.
pub open spec fn spec_encode_record(authority: Seq<u8>, payload: Seq<u8>) -> Seq<u8> {
    spec_idl_discriminator() + authority + spec_u64_to_le_bytes(payload.len() as u64) + payload
}

/// Round trip at the framing level: wrapping any payload with a correct
/// discriminator, any 32-byte authority and a correct length field yields a
/// well-framed buffer whose declared payload window is exactly the payload.
pub proof fn lemma_encode_round_trip(authority: Seq<u8>, payload: Seq<u8>)
    requires
        authority.len() == 32,
        payload.len() <= u64::MAX,
    ensures
        spec_encode_record(authority, payload).len() == 48 + payload.len(),
        frame_ok(spec_encode_record(authority, payload)),
        spec_payload(spec_encode_record(authority, payload)) == payload,
{
    lemma_auto_spec_u64_to_from_le_bytes();
    let len_field = spec_u64_to_le_bytes(payload.len() as u64);
    let r = spec_encode_record(authority, payload);
    assert(len_field.len() == 8);
    assert(r.subrange(0, 8) =~= spec_idl_discriminator());
    assert(r.subrange(40, 48) =~= len_field);
    assert(spec_payload_len(r) == payload.len());
    assert(r.subrange(48, 48 + payload.len() as int) =~= payload);
}

/// Trailing bytes beyond the declared payload window never affect the
/// decoded result: appending any suffix to a well-framed buffer leaves it
/// well-framed with the same payload window, so the decoder, which inspects
/// only that window, reports the same outcome.
pub proof fn lemma_trailing_bytes_ignored(raw: Seq<u8>, extra: Seq<u8>)
    requires
        frame_ok(raw),
    ensures
        frame_ok(raw + extra),
        has_idl_discriminator(raw + extra),
        spec_payload_len(raw + extra) == spec_payload_len(raw),
        spec_payload(raw + extra) == spec_payload(raw),
{
    let ext = raw + extra;
    assert(ext.subrange(0, 8) =~= raw.subrange(0, 8));
    assert(ext.subrange(40, 48) =~= raw.subrange(40, 48));
    assert(ext.subrange(48, 48 + spec_payload_len(raw) as int) =~= raw.subrange(
        48,
        48 + spec_payload_len(raw) as int,
    ));
}

/// Builds a correctly framed record around a payload: the executable
/// counterpart of [`spec_encode_record`], used to produce test vectors and
/// to state the round-trip law over real buffers.
pub fn encode_record(authority: &Vec<u8>, payload: &Vec<u8>) -> (r: Vec<u8>)
    requires
        authority@.len() == 32,
    ensures
        r@ == spec_encode_record(authority@, payload@),
        frame_ok(r@),
        spec_payload(r@) == payload@,
{
    let mut r = idl_discriminator();
    let mut auth = authority.clone();
    r.append(&mut auth);
    let mut len_field = u64_to_le_bytes(payload.len() as u64);
    r.append(&mut len_field);
    let mut body = payload.clone();
    r.append(&mut body);
    proof {
        assert(r@ =~= spec_encode_record(authority@, payload@));
        lemma_encode_round_trip(authority@, payload@);
    }
    r
}

} // verus!
