//! The wire frame: a header of seven bytes, a payload, and a checksum.
//!
//! ```text
//! offset 0      sync byte, 0xFA
//! offset 1      product line
//! offset 2      device id
//! offset 3      mode
//! offset 4      parameter
//! offset 5..6   payload length L, big-endian
//! offset 7..    payload, L bytes
//! offset 7+L    checksum: the exclusive-or of all bytes before it
//! ```

use crate::error::LiDARError;
use crate::key::CompanyInfo;
use vstd::prelude::*;

verus! {

/// The byte that opens every frame.
pub const SYNC: u8 = 0xFA;

/// The number of bytes before the payload.
pub const HEADER_LEN: usize = 7;

/// The largest payload that the length field can declare.
pub const MAX_PAYLOAD: usize = 65535;

/// The mode of a configuration frame.
pub const MODE_CONFIG: u8 = 0xCF;

/// The mode of a negative acknowledgement.
pub const MODE_NAK: u8 = 0xF0;

/// The mode of a point-cloud frame.
pub const MODE_POINTS: u8 = 0xDD;

/// Reason: the payload does not fit the length field of a frame.
pub open spec fn payload_too_long() -> Seq<char> {
    "payload too long"@
}

/// The payload length that the header of `buf` declares.
pub open spec fn spec_declared_len(buf: Seq<u8>) -> int
    recommends
        buf.len() >= 7,
{
    buf[5] as int * 256 + buf[6] as int
}

/// The length of the whole frame that the header of `buf` declares: header,
/// payload and checksum.
pub open spec fn spec_total_len(buf: Seq<u8>) -> int
    recommends
        buf.len() >= 7,
{
    spec_declared_len(buf) + 7 + 1
}

/// The payload of a complete frame.
pub open spec fn spec_payload(frame: Seq<u8>) -> Seq<u8>
    recommends
        frame.len() >= 7,
        frame.len() == spec_total_len(frame),
{
    frame.subrange(7, 7 + spec_declared_len(frame))
}

/// The exclusive-or of all bytes of `bytes`.
pub open spec fn spec_xor(bytes: Seq<u8>) -> u8
    decreases bytes.len(),
{
    if bytes.len() == 0 {
        0
    } else {
        spec_xor(bytes.drop_last()) ^ bytes.last()
    }
}

/// The seven header bytes of a frame with a payload of `len` bytes.
pub open spec fn spec_header(product_line: u8, lidar_id: u8, mode: u8, param: u8, len: int) -> Seq<
    u8,
> {
    seq![0xFAu8, product_line, lidar_id, mode, param, (len / 256) as u8, (len % 256) as u8]
}

/// The frame that carries `payload`.
pub open spec fn spec_frame(product_line: u8, lidar_id: u8, mode: u8, param: u8, payload: Seq<u8>)
    -> Seq<u8> {
    let body = spec_header(product_line, lidar_id, mode, param, payload.len() as int) + payload;
    body.push(spec_xor(body))
}

/// How far the bytes gathered for one device have come towards a frame.
#[derive(Debug, Clone, Copy, PartialEq, Eq, Structural)]
pub enum Progress {
    /// Nothing was gathered.
    Empty,
    /// The first byte is not the sync byte.
    BadSync,
    /// A frame has begun and more bytes are needed.
    Partial,
    /// The bytes are exactly one frame.
    Complete,
    /// There are more bytes than the frame declares.
    Overrun,
}

/// How far `buf` has come towards a frame.
pub open spec fn spec_progress(buf: Seq<u8>) -> Progress {
    if buf.len() < 1 {
        Progress::Empty
    } else if buf[0] != 0xFA {
        Progress::BadSync
    } else if buf.len() < 7 {
        Progress::Partial
    } else if buf.len() < spec_total_len(buf) {
        Progress::Partial
    } else if buf.len() == spec_total_len(buf) {
        Progress::Complete
    } else {
        Progress::Overrun
    }
}

/// The payload length that the header of `buf` declares.
pub(crate) fn declared_len(buf: &[u8]) -> (len: usize)
    requires
        buf@.len() >= 7,
    ensures
        len == spec_declared_len(buf@),
        len <= 65535,
{
    let hi = buf[5];
    let lo = buf[6];
    let len = ((hi as u16) << 8) | (lo as u16);
    assert(((hi as u16) << 8) | (lo as u16) == (hi as u16) * 256 + (lo as u16)) by (bit_vector);
    len as usize
}

/// Tells how far `buf` has come towards a frame.
pub fn progress(buf: &[u8]) -> (p: Progress)
    ensures
        p == spec_progress(buf@),
{
    if buf.len() < 1 {
        return Progress::Empty;
    }
    match CompanyInfo::detect(buf[0]) {
        CompanyInfo::KanaviMobility => {},
        CompanyInfo::Unknown => {
            return Progress::BadSync;
        },
    }
    if buf.len() < HEADER_LEN {
        return Progress::Partial;
    }
    let total = declared_len(buf) + HEADER_LEN + 1;
    if buf.len() < total {
        Progress::Partial
    } else if buf.len() == total {
        Progress::Complete
    } else {
        Progress::Overrun
    }
}

/// The exclusive-or of all bytes of `bytes`.
pub fn checksum(bytes: &[u8]) -> (sum: u8)
    ensures
        sum == spec_xor(bytes@),
{
    let mut sum: u8 = 0;
    let mut i: usize = 0;
    while i < bytes.len()
        invariant
            i <= bytes@.len(),
            sum == spec_xor(bytes@.subrange(0, i as int)),
        decreases bytes@.len() - i,
    {
        assert(bytes@.subrange(0, i + 1).drop_last() =~= bytes@.subrange(0, i as int));
        sum = sum ^ bytes[i];
        i += 1;
    }
    assert(bytes@.subrange(0, i as int) =~= bytes@);
    sum
}

/// Builds the frame that carries `payload`: the header, the payload, and the
/// checksum of both.  A payload that the length field cannot declare is refused.
pub fn encode_frame(product_line: u8, lidar_id: u8, mode: u8, param: u8, payload: &[u8]) -> (r:
    Result<Vec<u8>, LiDARError>)
    ensures
        payload@.len() <= 65535 ==> (r matches Ok(frame) && frame@ == spec_frame(
            product_line,
            lidar_id,
            mode,
            param,
            payload@,
        )),
        payload@.len() > 65535 ==> (r matches Err(e) && e.text() == payload_too_long()),
{
    let len = payload.len();
    if len > MAX_PAYLOAD {
        return Err(LiDARError::invalid("payload too long"));
    }
    let mut raw_data: Vec<u8> = Vec::new();
    raw_data.push(SYNC);
    raw_data.push(product_line);
    raw_data.push(lidar_id);
    raw_data.push(mode);
    raw_data.push(param);
    raw_data.push((len / 256) as u8);
    raw_data.push((len % 256) as u8);
    assert(raw_data@ =~= spec_header(product_line, lidar_id, mode, param, len as int));
    raw_data.extend_from_slice(payload);
    let ghost body = raw_data@;
    assert(body =~= spec_header(product_line, lidar_id, mode, param, len as int) + payload@);
    let sum = checksum(raw_data.as_slice());
    raw_data.push(sum);
    assert(raw_data@ =~= body.push(spec_xor(body)));
    Ok(raw_data)
}

/// A frame built by [`encode_frame`] is complete, declares its payload, and
/// carries the header fields and the payload that it was built from.
pub proof fn lemma_frame_layout(product_line: u8, lidar_id: u8, mode: u8, param: u8, payload: Seq<u8>)
    requires
        payload.len() <= 65535,
    ensures
        ({
            let frame = spec_frame(product_line, lidar_id, mode, param, payload);
            &&& frame.len() == payload.len() + 8
            &&& frame[0] == 0xFA
            &&& frame[1] == product_line
            &&& frame[2] == lidar_id
            &&& frame[3] == mode
            &&& frame[4] == param
            &&& spec_declared_len(frame) == payload.len()
            &&& spec_progress(frame) == Progress::Complete
            &&& spec_payload(frame) == payload
            &&& frame.last() == spec_xor(frame.drop_last())
        }),
{
    let frame = spec_frame(product_line, lidar_id, mode, param, payload);
    let len = payload.len() as int;
    let body = spec_header(product_line, lidar_id, mode, param, len) + payload;
    assert(frame[5] == (len / 256) as u8);
    assert(frame[6] == (len % 256) as u8);
    assert(spec_payload(frame) =~= payload);
    assert(frame.drop_last() =~= body);
}

/// The checksum makes the exclusive-or of a whole frame zero.
pub proof fn lemma_checksum_cancels(
    product_line: u8,
    lidar_id: u8,
    mode: u8,
    param: u8,
    payload: Seq<u8>,
)
    ensures
        spec_xor(spec_frame(product_line, lidar_id, mode, param, payload)) == 0,
{
    let frame = spec_frame(product_line, lidar_id, mode, param, payload);
    let body = spec_header(product_line, lidar_id, mode, param, payload.len() as int) + payload;
    let sum = spec_xor(body);
    assert(frame.drop_last() =~= body);
    assert(frame.last() == sum);
    assert(sum ^ sum == 0) by (bit_vector);
}

/// What becomes of the bytes gathered for one device when a datagram
/// arrives: the bytes that stay gathered, and the frame that is handed on.
///
/// The datagram is put after what was gathered.  A frame that is exactly
/// complete is handed on and nothing stays.  Bytes that do not open with the
/// sync byte, and bytes that run past the length they declare, are thrown
/// away as a whole.  Anything else stays and waits for more.
pub open spec fn spec_step(gathered: Seq<u8>, datagram: Seq<u8>) -> (Seq<u8>, Option<Seq<u8>>) {
    let all = gathered + datagram;
    match spec_progress(all) {
        Progress::Empty => (all, None),
        Progress::Partial => (all, None),
        Progress::BadSync => (Seq::empty(), None),
        Progress::Overrun => (Seq::empty(), None),
        Progress::Complete => (Seq::empty(), Some(all)),
    }
}

/// What becomes of the gathered bytes when `bytes` arrive one byte to a
/// datagram: the bytes that stay gathered after the last of them, and the
/// frame that the last of them completed.
pub open spec fn spec_step_bytes(gathered: Seq<u8>, bytes: Seq<u8>) -> (Seq<u8>, Option<Seq<u8>>)
    decreases bytes.len(),
{
    if bytes.len() == 0 {
        (gathered, None)
    } else {
        spec_step(spec_step_bytes(gathered, bytes.drop_last()).0, seq![bytes.last()])
    }
}

/// Puts `datagram` after the bytes gathered in `buffer` and tells how far
/// they have come.  A complete frame is taken out of the buffer and
/// returned; bytes that cannot become a frame are thrown away.
pub fn accumulate(buffer: &mut Vec<u8>, datagram: &[u8]) -> (r: (Progress, Option<Vec<u8>>))
    ensures
        r.0 == spec_progress(old(buffer)@ + datagram@),
        (final(buffer)@, match r.1 {
            Some(frame) => Some(frame@),
            None => None,
        }) == spec_step(old(buffer)@, datagram@),
{
    buffer.extend_from_slice(datagram);
    let state = progress(buffer.as_slice());
    match state {
        Progress::Empty | Progress::Partial => (state, None),
        Progress::BadSync | Progress::Overrun => {
            buffer.clear();
            (state, None)
        },
        Progress::Complete => {
            let mut frame: Vec<u8> = Vec::new();
            core::mem::swap(buffer, &mut frame);
            (state, Some(frame))
        },
    }
}

/// A frame is handed on only when every byte that it declares has arrived:
/// its length is then the declared payload length plus eight, whatever the
/// length field holds.
pub proof fn lemma_never_early(gathered: Seq<u8>, datagram: Seq<u8>)
    ensures
        ({
            let all = gathered + datagram;
            &&& all.len() < 8 ==> spec_step(gathered, datagram).1 is None
            &&& all.len() >= 7 && all.len() < spec_total_len(all) ==> spec_step(
                gathered,
                datagram,
            ).1 is None
            &&& spec_step(gathered, datagram).1 matches Some(frame) ==> {
                &&& frame == all
                &&& frame[0] == 0xFA
                &&& 0 <= spec_declared_len(frame) <= 65535
                &&& frame.len() == spec_declared_len(frame) + 8
            }
        }),
{
}

/// The bytes of a complete frame that arrive before its last byte wait in
/// the buffer, however they are cut into datagrams.
pub proof fn lemma_prefix_waits(frame: Seq<u8>, k: int)
    requires
        spec_progress(frame) == Progress::Complete,
        0 <= k < frame.len(),
    ensures
        spec_step(Seq::empty(), frame.take(k)) == (frame.take(k), None::<Seq<u8>>),
{
    let prefix = frame.take(k);
    assert(Seq::<u8>::empty() + prefix =~= prefix);
    if k >= 7 {
        assert(prefix[5] == frame[5] && prefix[6] == frame[6]);
    }
    if k >= 1 {
        assert(prefix[0] == frame[0]);
    }
}

/// A complete frame comes out whole whether it arrives in one datagram, in
/// two, or one byte at a time; while bytes are missing nothing comes out.
pub proof fn lemma_incremental(frame: Seq<u8>, k: int)
    requires
        spec_progress(frame) == Progress::Complete,
        0 <= k <= frame.len(),
    ensures
        spec_step(Seq::empty(), frame) == (Seq::<u8>::empty(), Some(frame)),
        spec_step_bytes(Seq::empty(), frame) == spec_step(Seq::empty(), frame),
        k < frame.len() ==> spec_step_bytes(Seq::empty(), frame.take(k)) == (
            frame.take(k),
            None::<Seq<u8>>,
        ),
        k < frame.len() ==> spec_step(spec_step(Seq::empty(), frame.take(k)).0, frame.skip(k))
            == spec_step(Seq::empty(), frame),
{
    assert(Seq::<u8>::empty() + frame =~= frame);
    lemma_bytes_wait(frame, frame.len() - 1);
    assert(frame.drop_last() =~= frame.take(frame.len() - 1));
    assert(frame.take(frame.len() - 1) + seq![frame.last()] =~= frame);
    if k < frame.len() {
        lemma_bytes_wait(frame, k);
        lemma_prefix_waits(frame, k);
        assert(frame.take(k) + frame.skip(k) =~= frame);
    }
}

/// Bytes that were thrown away do not spoil what comes after them: the
/// next datagram is taken as if nothing had been gathered before.
pub proof fn lemma_recovers(gathered: Seq<u8>, datagram: Seq<u8>, next: Seq<u8>)
    requires
        spec_progress(gathered + datagram) == Progress::BadSync || spec_progress(
            gathered + datagram,
        ) == Progress::Overrun || spec_progress(gathered + datagram) == Progress::Complete,
    ensures
        spec_step(gathered, datagram).0 == Seq::<u8>::empty(),
        spec_step(spec_step(gathered, datagram).0, next) == spec_step(Seq::empty(), next),
{
}

proof fn lemma_bytes_wait(frame: Seq<u8>, k: int)
    requires
        spec_progress(frame) == Progress::Complete,
        0 <= k < frame.len(),
    ensures
        spec_step_bytes(Seq::empty(), frame.take(k)) == (frame.take(k), None::<Seq<u8>>),
    decreases k,
{
    let prefix = frame.take(k);
    if k == 0 {
        assert(prefix =~= Seq::<u8>::empty());
    } else {
        lemma_bytes_wait(frame, k - 1);
        assert(prefix.drop_last() =~= frame.take(k - 1));
        assert(frame.take(k - 1) + seq![prefix.last()] =~= prefix);
        lemma_prefix_waits(frame, k);
        assert(Seq::<u8>::empty() + prefix =~= prefix);
    }
}

} // verus!
