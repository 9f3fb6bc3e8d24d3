//! Decoding whole frames, and a parser that gathers the frames of one device.

use crate::codec::{parse_cf, parse_dd, spec_parse_cf, spec_parse_dd};
use crate::config::{ConfigRecord, KMConfigData};
use crate::error::{invalid_header, not_enough_data, outcome, LiDARError};
use crate::frame::{
    accumulate, declared_len, lemma_prefix_waits, spec_payload, spec_progress, spec_step,
    spec_total_len, Progress, HEADER_LEN, MODE_CONFIG, MODE_NAK, MODE_POINTS, SYNC,
};
use crate::geometry::{spec_samples, PointCloudData, PointCloudDataView};
use vstd::prelude::*;
use vstd::slice::{slice_subrange, slice_to_vec};

verus! {

/// Reason: the gathered bytes do not open with the sync byte.
pub open spec fn header_not_found() -> Seq<char> {
    "header not found"@
}

/// Reason: the gathered bytes run past the frame that they declare.
pub open spec fn too_much_data() -> Seq<char> {
    "too much data"@
}

/// What the content of a frame is in contracts.
pub enum ContentView {
    Empty,
    Config(ConfigRecord),
    Points(PointCloudDataView),
}

/// What a frame holds besides its header.
#[derive(Debug, Clone, PartialEq, Eq)]
pub enum Content {
    /// A frame of a mode that carries no record.
    Empty,
    /// The record of a configuration frame or of a negative acknowledgement.
    Config(KMConfigData),
    /// The points of a point-cloud frame.
    Points(PointCloudData),
}

impl View for Content {
    type V = ContentView;

    open spec fn view(&self) -> ContentView {
        match self {
            Content::Empty => ContentView::Empty,
            Content::Config(c) => ContentView::Config(c@),
            Content::Points(p) => ContentView::Points(p@),
        }
    }
}

/// What a decoded frame is in contracts.
pub struct KanaviMobilityDataView {
    pub raw_data: Seq<u8>,
    pub product_line: u8,
    pub lidar_id: u8,
    pub mode: u8,
    pub param: u8,
    pub content: ContentView,
}

/// One decoded frame: its bytes, the fields of its header, and what it holds.
#[derive(Debug, Clone, PartialEq, Eq)]
pub struct KanaviMobilityData {
    pub raw_data: Vec<u8>,
    pub product_line: u8,
    pub lidar_id: u8,
    pub mode: u8,
    pub param: u8,
    pub content: Content,
}

impl View for KanaviMobilityData {
    type V = KanaviMobilityDataView;

    open spec fn view(&self) -> KanaviMobilityDataView {
        KanaviMobilityDataView {
            raw_data: self.raw_data@,
            product_line: self.product_line,
            lidar_id: self.lidar_id,
            mode: self.mode,
            param: self.param,
            content: self.content@,
        }
    }
}

/// What a frame with the given mode, parameter and payload holds.
///
/// A configuration frame holds the record that its parameter names, a
/// negative acknowledgement holds `Nak(0)`, a point-cloud frame holds the
/// sweep of one channel, and a frame of any other mode holds nothing.
pub open spec fn spec_content(product_line: u8, mode: u8, param: u8, payload: Seq<u8>) -> Result<
    ContentView,
    Seq<char>,
> {
    if mode == 0xCF {
        match spec_parse_cf(product_line, param, payload) {
            Ok(record) => Ok(ContentView::Config(record)),
            Err(e) => Err(e),
        }
    } else if mode == 0xF0 {
        Ok(ContentView::Config(ConfigRecord::Nak(0x00)))
    } else if mode == 0xDD {
        match spec_parse_dd(product_line, param, payload) {
            Ok(points) => Ok(ContentView::Points(points)),
            Err(e) => Err(e),
        }
    } else {
        Ok(ContentView::Empty)
    }
}

/// Why `frame` is no complete frame, if it is none.
pub open spec fn spec_frame_fault(frame: Seq<u8>) -> Option<Seq<char>> {
    if frame.len() < 8 {
        Some(not_enough_data())
    } else if frame[0] != 0xFA {
        Some(invalid_header())
    } else if frame.len() != spec_total_len(frame) {
        Some(not_enough_data())
    } else {
        None
    }
}

/// The decoded form of `frame`, or the reason why it has none.  The
/// checksum byte is carried along and not compared.
pub open spec fn spec_decode_frame(frame: Seq<u8>) -> Result<KanaviMobilityDataView, Seq<char>> {
    match spec_frame_fault(frame) {
        Some(reason) => Err(reason),
        None => match spec_content(frame[1], frame[3], frame[4], spec_payload(frame)) {
            Ok(content) => Ok(
                KanaviMobilityDataView {
                    raw_data: frame,
                    product_line: frame[1],
                    lidar_id: frame[2],
                    mode: frame[3],
                    param: frame[4],
                    content,
                },
            ),
            Err(e) => Err(e),
        },
    }
}

/// Decodes what a frame holds from its mode, parameter and payload.
pub fn decode_content(product_line: u8, mode: u8, param: u8, payload: &[u8]) -> (r: Result<
    Content,
    LiDARError,
>)
    ensures
        outcome(r) == spec_content(product_line, mode, param, payload@),
        r matches Ok(Content::Points(cloud)) ==> cloud@.point_cloud.len() == spec_samples(
            product_line,
        ),
{
    if mode == MODE_CONFIG {
        match parse_cf(product_line, param, payload) {
            Ok(record) => Ok(Content::Config(record)),
            Err(e) => Err(e),
        }
    } else if mode == MODE_NAK {
        Ok(Content::Config(KMConfigData::Nak(0x00)))
    } else if mode == MODE_POINTS {
        match parse_dd(product_line, param, payload) {
            Ok(points) => Ok(Content::Points(points)),
            Err(e) => Err(e),
        }
    } else {
        Ok(Content::Empty)
    }
}

/// Decodes one complete frame.
pub fn decode_frame(frame: &[u8]) -> (r: Result<KanaviMobilityData, LiDARError>)
    ensures
        outcome(r) == spec_decode_frame(frame@),
        r matches Ok(KanaviMobilityData { content: Content::Points(cloud), .. })
            ==> cloud@.point_cloud.len() == spec_samples(frame@[1]),
{
    if frame.len() < 8 {
        return Err(LiDARError::invalid("not enough data"));
    }
    if frame[0] != SYNC {
        return Err(LiDARError::invalid("invalid header"));
    }
    let data_len = declared_len(frame);
    let total_len = data_len + HEADER_LEN + 1;
    if frame.len() != total_len {
        return Err(LiDARError::invalid("not enough data"));
    }
    let product_line = frame[1];
    let lidar_id = frame[2];
    let mode = frame[3];
    let param = frame[4];
    let payload = slice_subrange(frame, HEADER_LEN, HEADER_LEN + data_len);
    match decode_content(product_line, mode, param, payload) {
        Ok(content) => Ok(
            KanaviMobilityData {
                raw_data: slice_to_vec(frame),
                product_line,
                lidar_id,
                mode,
                param,
                content,
            },
        ),
        Err(e) => Err(e),
    }
}

/// What a parser that has gathered `gathered` makes of `data`: the bytes
/// that stay gathered, and the frame decoded or the reason why none was.
pub open spec fn spec_parse(gathered: Seq<u8>, data: Seq<u8>) -> (
    Seq<u8>,
    Result<KanaviMobilityDataView, Seq<char>>,
) {
    let all = gathered + data;
    (
        spec_step(gathered, data).0,
        match spec_progress(all) {
            Progress::Empty => Err(not_enough_data()),
            Progress::Partial => Err(not_enough_data()),
            Progress::BadSync => Err(header_not_found()),
            Progress::Overrun => Err(too_much_data()),
            Progress::Complete => spec_decode_frame(all),
        },
    )
}

/// A frame is decoded to the same result whether it reaches the parser in
/// one piece, in two, or after bytes that were thrown away.
pub proof fn lemma_parse_incremental(frame: Seq<u8>, k: int)
    requires
        spec_progress(frame) == Progress::Complete,
        0 <= k < frame.len(),
    ensures
        spec_parse(Seq::empty(), frame) == (Seq::<u8>::empty(), spec_decode_frame(frame)),
        spec_parse(Seq::empty(), frame.take(k)) == (
            frame.take(k),
            Err::<KanaviMobilityDataView, _>(not_enough_data()),
        ),
        spec_parse(spec_parse(Seq::empty(), frame.take(k)).0, frame.skip(k)) == spec_parse(
            Seq::empty(),
            frame,
        ),
{
    lemma_prefix_waits(frame, k);
    assert(Seq::<u8>::empty() + frame =~= frame);
    assert(Seq::<u8>::empty() + frame.take(k) =~= frame.take(k));
    assert(frame.take(k) + frame.skip(k) =~= frame);
}

/// Gathers the bytes that one device sends and decodes each frame as soon
/// as it is complete.
#[derive(Debug, Clone)]
pub struct KanaviMobilityParser {
    buffer: Vec<u8>,
}

impl View for KanaviMobilityParser {
    type V = Seq<u8>;

    /// The bytes gathered towards the next frame.
    closed spec fn view(&self) -> Seq<u8> {
        self.buffer@
    }
}

impl KanaviMobilityParser {
    /// A parser that has gathered nothing.
    pub fn new() -> (parser: Self)
        ensures
            parser@ == Seq::<u8>::empty(),
    {
        Self { buffer: Vec::new() }
    }

    /// The number of bytes gathered towards the next frame.
    pub fn pending(&self) -> (n: usize)
        ensures
            n == self@.len(),
    {
        self.buffer.len()
    }

    /// Takes the next bytes of the device.  A frame that they complete is
    /// decoded; bytes that cannot become a frame are thrown away.
    pub fn parse(&mut self, data: &[u8]) -> (r: Result<KanaviMobilityData, LiDARError>)
        ensures
            (final(self)@, outcome(r)) == spec_parse(old(self)@, data@),
    {
        let (state, frame) = accumulate(&mut self.buffer, data);
        match frame {
            Some(frame) => decode_frame(frame.as_slice()),
            None => match state {
                Progress::BadSync => Err(LiDARError::invalid("header not found")),
                Progress::Overrun => Err(LiDARError::invalid("too much data")),
                _ => Err(LiDARError::invalid("not enough data")),
            },
        }
    }

    /// Decodes the payload of a configuration frame.  What was gathered
    /// plays no part.
    pub fn parse_cf(&self, product_line: u8, param: u8, data: &[u8]) -> (r: Result<
        KMConfigData,
        LiDARError,
    >)
        ensures
            outcome(r) == spec_parse_cf(product_line, param, data@),
    {
        parse_cf(product_line, param, data)
    }
}

} // verus!
