//! The envelope in which a frame crosses the relay channels.
//!
//! An envelope carries the key of a device and the bytes of one frame in
//! bincode's standard encoding: the key as a variable-length integer, the
//! number of bytes as a variable-length integer, and the bytes themselves.
//! A variable-length integer up to 250 is one byte; a larger one is a
//! marker byte (251, 252 or 253) followed by the number in two, four or
//! eight bytes, lowest byte first.

use crate::key::{LiDARChannelData, LiDARKey};
use vstd::bytes::{
    lemma_auto_spec_u16_to_from_le_bytes, lemma_auto_spec_u32_to_from_le_bytes,
    lemma_auto_spec_u64_to_from_le_bytes, spec_u16_from_le_bytes, spec_u16_to_le_bytes,
    spec_u32_from_le_bytes, spec_u32_to_le_bytes, spec_u64_from_le_bytes, spec_u64_to_le_bytes,
};
use vstd::prelude::*;

verus! {

/// The bytes of a variable-length integer.
pub open spec fn spec_varint(v: u64) -> Seq<u8> {
    if v <= 250 {
        seq![v as u8]
    } else if v <= 0xFFFF {
        seq![251u8] + spec_u16_to_le_bytes(v as u16)
    } else if v <= 0xFFFF_FFFF {
        seq![252u8] + spec_u32_to_le_bytes(v as u32)
    } else {
        seq![253u8] + spec_u64_to_le_bytes(v)
    }
}

/// The variable-length integer that opens `bytes`, and the number of bytes
/// that it takes; `None` where `bytes` opens with none.
pub open spec fn spec_read_varint(bytes: Seq<u8>) -> Option<(u64, int)> {
    if bytes.len() < 1 {
        None
    } else if bytes[0] <= 250 {
        Some((bytes[0] as u64, 1))
    } else if bytes[0] == 251 {
        if bytes.len() < 3 {
            None
        } else {
            Some((spec_u16_from_le_bytes(bytes.subrange(1, 3)) as u64, 3))
        }
    } else if bytes[0] == 252 {
        if bytes.len() < 5 {
            None
        } else {
            Some((spec_u32_from_le_bytes(bytes.subrange(1, 5)) as u64, 5))
        }
    } else if bytes[0] == 253 {
        if bytes.len() < 9 {
            None
        } else {
            Some((spec_u64_from_le_bytes(bytes.subrange(1, 9)), 9))
        }
    } else {
        None
    }
}

/// The envelope that carries `raw` for the device with key `key`.
pub open spec fn spec_seal(key: u64, raw: Seq<u8>) -> Seq<u8> {
    spec_varint(key) + spec_varint(raw.len() as u64) + raw
}

/// The key and the bytes carried by the envelope that opens `bytes`;
/// `None` where `bytes` opens with no envelope.  Bytes after the envelope
/// are not looked at.
pub open spec fn spec_open(bytes: Seq<u8>) -> Option<(u64, Seq<u8>)> {
    match spec_read_varint(bytes) {
        None => None,
        Some((key, used)) => match spec_read_varint(bytes.skip(used)) {
            None => None,
            Some((len, more)) => {
                let start = used + more;
                if len > bytes.len() - start {
                    None
                } else {
                    Some((key, bytes.subrange(start, start + len)))
                }
            },
        },
    }
}

/// `bincode::error::EncodeError`, carried through and never looked into.
#[verifier::external_type_specification]
#[verifier::external_body]
pub struct ExEncodeError(bincode::error::EncodeError);

/// `bincode::error::DecodeError`, carried through and never looked into.
#[verifier::external_type_specification]
#[verifier::external_body]
pub struct ExDecodeError(bincode::error::DecodeError);

/// Calls `bincode::encode_to_vec` on the pair of `key` and `raw` with the
/// standard configuration.  Trusted: the call succeeds, since writing an
/// integer and a run of bytes into a growing vector cannot fail, and it
/// returns the two variable-length integers followed by the bytes.
#[verifier::external_body]
fn encode_pair(key: u64, raw: &[u8]) -> (r: Result<Vec<u8>, bincode::error::EncodeError>)
    ensures
        match r {
            Ok(bytes) => bytes@ == spec_seal(key, raw@),
            Err(_) => false,
        },
{
    bincode::encode_to_vec((key, raw), bincode::config::standard())
}

/// Calls `bincode::borrow_decode_from_slice` for a pair of an integer and a
/// run of bytes with the standard configuration.  Trusted: the call
/// succeeds exactly where two variable-length integers open `bytes` and at
/// least as many bytes follow as the second one says, and it returns the
/// first integer and those bytes.
#[verifier::external_body]
fn decode_pair(bytes: &[u8]) -> (r: Result<(u64, Vec<u8>), bincode::error::DecodeError>)
    ensures
        match r {
            Ok((key, raw)) => Some((key, raw@)),
            Err(_) => None,
        } == spec_open(bytes@),
{
    match bincode::borrow_decode_from_slice::<(u64, &[u8]), _>(
        bytes,
        bincode::config::standard(),
    ) {
        Ok(((key, raw), _)) => Ok((key, raw.to_vec())),
        Err(e) => Err(e),
    }
}

/// What channel data that may be absent is in contracts.
pub open spec fn opt_channel_data(data: Option<LiDARChannelData>) -> Option<(u64, Seq<u8>)> {
    match data {
        Some(d) => Some(d@),
        None => None,
    }
}

impl LiDARChannelData {
    /// Seals the key and the bytes into an envelope.
    pub fn seal(&self) -> (bytes: Vec<u8>)
        ensures
            bytes@ == spec_seal(self.key.key, self.raw_data@),
    {
        match encode_pair(self.key.key, self.raw_data.as_slice()) {
            Ok(bytes) => bytes,
            Err(_) => Vec::new(),
        }
    }

    /// Opens an envelope; `None` where `bytes` opens with none.
    pub fn open(bytes: &[u8]) -> (data: Option<LiDARChannelData>)
        ensures
            opt_channel_data(data) == spec_open(bytes@),
    {
        match decode_pair(bytes) {
            Ok((key, raw_data)) => Some(LiDARChannelData::new(LiDARKey { key }, raw_data)),
            Err(_) => None,
        }
    }
}

/// A variable-length integer is read back as it was written, whatever follows it.
pub proof fn lemma_varint_round_trip(v: u64, rest: Seq<u8>)
    ensures
        spec_read_varint(spec_varint(v) + rest) == Some((v, spec_varint(v).len() as int)),
        (spec_varint(v) + rest).skip(spec_varint(v).len() as int) == rest,
{
    lemma_auto_spec_u16_to_from_le_bytes();
    lemma_auto_spec_u32_to_from_le_bytes();
    lemma_auto_spec_u64_to_from_le_bytes();
    let written = spec_varint(v);
    let all = written + rest;
    assert(all.skip(written.len() as int) =~= rest);
    if v <= 250 {
    } else if v <= 0xFFFF {
        assert(all.subrange(1, 3) =~= spec_u16_to_le_bytes(v as u16));
    } else if v <= 0xFFFF_FFFF {
        assert(all.subrange(1, 5) =~= spec_u32_to_le_bytes(v as u32));
    } else {
        assert(all.subrange(1, 9) =~= spec_u64_to_le_bytes(v));
    }
}

/// What goes into an envelope comes out of it: opening a sealed envelope
/// gives the key and the bytes that were sealed, whatever follows the envelope.
pub proof fn lemma_envelope_round_trip(key: u64, raw: Seq<u8>, rest: Seq<u8>)
    requires
        raw.len() <= u64::MAX,
    ensures
        spec_open(spec_seal(key, raw) + rest) == Some((key, raw)),
{
    let len = raw.len() as u64;
    let tail = spec_varint(len) + raw + rest;
    let all = spec_seal(key, raw) + rest;
    assert(all =~= spec_varint(key) + tail);
    lemma_varint_round_trip(key, tail);
    lemma_varint_round_trip(len, raw + rest);
    assert(tail =~= spec_varint(len) + (raw + rest));
    let start = spec_varint(key).len() + spec_varint(len).len();
    assert(all.subrange(start as int, start + len) =~= raw);
}

} // verus!
