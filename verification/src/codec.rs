//! Decoding the payloads of frames into records.
//!
//! Every read of a payload byte is guarded: a payload that is shorter than
//! its layout gives an error, never a fault.  Bytes after the layout are
//! not looked at.

use crate::config::{
    areas_view, sweeps_view, Ack, AreaPoint, BasicConfig, BasicConfigView, ConfigRecord, FogFilter,
    KMConfigData, MotorSpeed, NetworkDestinationIP, NetworkSourceInfo, NetworkSourceInfoView,
    RadiusFilter, RadiusFilterMaxDistance, RadiusFilterMinDistance, TeachingArea,
    TeachingAreaView, TeachingMode, UserArea, UserAreaView, VersionInfo, VersionInfoView,
    WarningArea, WarningAreaView, WindowContaminationDetectionMode,
};
use crate::coordinate::Coordinate;
use crate::error::{
    not_enough_data, not_supported_channel, not_supported_param, outcome, LiDARError,
};
use crate::geometry::{
    PointCloud, PointCloudData, PointCloudDataView, channels, samples, spec_channels, spec_samples, spec_sweep, spec_total_samples, sweep, total_samples,
    PolarPoint,
};
use vstd::prelude::*;
use vstd::slice::{slice_subrange, slice_to_vec};

verus! {

/// The 16-bit number carried big-endian at `at`.
pub open spec fn spec_be16(data: Seq<u8>, at: int) -> u16 {
    (data[at] as int * 256 + data[at + 1] as int) as u16
}

/// The 16-bit number carried big-endian by two bytes.
pub fn be16(hi: u8, lo: u8) -> (v: u16)
    ensures
        v == hi as int * 256 + lo as int,
{
    assert(((hi as u16) << 8) | (lo as u16) == (hi as u16) * 256 + (lo as u16)) by (bit_vector);
    ((hi as u16) << 8) | (lo as u16)
}

/// The corners carried by `bytes`, four bytes each: two for x, two for y.
/// Bytes after the last whole corner are not looked at.
pub open spec fn spec_area_points(bytes: Seq<u8>) -> Seq<AreaPoint> {
    Seq::new(
        (bytes.len() / 4) as nat,
        |i: int|
            AreaPoint {
                x: Coordinate::spec_decode(bytes[4 * i], bytes[4 * i + 1]),
                y: Coordinate::spec_decode(bytes[4 * i + 2], bytes[4 * i + 3]),
            },
    )
}

impl UserArea {
    pub fn new(point_count: u8, points: Vec<AreaPoint>) -> (area: Self)
        ensures
            area@ == (UserAreaView { point_count, points: points@ }),
    {
        Self { point_count, points }
    }

    /// The area whose corners are carried by `bytes`.
    pub fn from_bytes(point_count: u8, bytes: Vec<u8>) -> (area: Self)
        ensures
            area@ == (UserAreaView { point_count, points: spec_area_points(bytes@) }),
    {
        let points = Self::parse_points(bytes.as_slice());
        Self::new(point_count, points)
    }

    fn parse_points(bytes: &[u8]) -> (points: Vec<AreaPoint>)
        ensures
            points@ == spec_area_points(bytes@),
    {
        let len = bytes.len();
        let count = len / 4;
        let mut result: Vec<AreaPoint> = Vec::new();
        let mut i: usize = 0;
        while i < count
            invariant
                i <= count,
                len == bytes@.len(),
                count == len / 4,
                result@.len() == i,
                forall|j: int| 0 <= j < i ==> result@[j] == spec_area_points(bytes@)[j],
            decreases count - i,
        {
            let x = Self::parse_coordinate(bytes[4 * i], bytes[4 * i + 1]);
            let y = Self::parse_coordinate(bytes[4 * i + 2], bytes[4 * i + 3]);
            result.push(AreaPoint { x, y });
            i += 1;
        }
        assert(result@ =~= spec_area_points(bytes@));
        result
    }

    fn parse_coordinate(hi: u8, lo: u8) -> (c: Coordinate)
        ensures
            c == Coordinate::spec_decode(hi, lo),
    {
        Coordinate::decode(hi, lo)
    }
}

/// The sweeps of a teaching area: one for each channel of the product line,
/// the distances of the channels following each other in `data`.
pub open spec fn spec_teaching_points(product_line: u8, data: Seq<u8>) -> Seq<Seq<PolarPoint>> {
    Seq::new(
        spec_channels(product_line) as nat,
        |channel: int|
            spec_sweep(product_line, channel, data, channel * spec_samples(product_line)),
    )
}

/// Whether `data` holds a distance for every point of every channel.
pub open spec fn spec_holds_all_sweeps(product_line: u8, data: Seq<u8>) -> bool {
    2 * spec_total_samples(product_line) <= data.len()
}

/// The teaching area carried by the flag and the bytes after it.
pub open spec fn spec_teaching_area(product_line: u8, is_set: u8, data: Seq<u8>) -> Result<
    TeachingAreaView,
    Seq<char>,
> {
    if is_set == 1 {
        if spec_holds_all_sweeps(product_line, data) {
            Ok(TeachingAreaView { is_set, points: spec_teaching_points(product_line, data) })
        } else {
            Err(not_enough_data())
        }
    } else {
        Ok(TeachingAreaView { is_set, points: Seq::empty() })
    }
}

impl TeachingArea {
    /// Decodes a teaching area.  Where the flag is 1 the bytes hold the
    /// distances of every channel; otherwise the area has no points.
    pub fn parse(product_line: u8, is_set: u8, raw_points: Vec<u8>) -> (r: Result<Self, LiDARError>)
        ensures
            outcome(r) == spec_teaching_area(product_line, is_set, raw_points@),
    {
        if is_set == 1 {
            match Self::parse_points(product_line, raw_points) {
                Ok(points) => Ok(Self::new(is_set, points)),
                Err(e) => Err(e),
            }
        } else {
            let area = Self::new(is_set, Vec::new());
            assert(area@.points =~= Seq::<Seq<PolarPoint>>::empty());
            Ok(area)
        }
    }

    /// Decodes the sweeps of every channel of the product line.
    pub fn parse_points(product_line: u8, points: Vec<u8>) -> (r: Result<
        Vec<Vec<PolarPoint>>,
        LiDARError,
    >)
        ensures
            spec_holds_all_sweeps(product_line, points@) ==> (r matches Ok(sweeps) && sweeps_view(
                sweeps@,
            ) == spec_teaching_points(product_line, points@)),
            !spec_holds_all_sweeps(product_line, points@) ==> (r matches Err(e) && e.text()
                == not_enough_data()),
    {
        let count = samples(product_line);
        let lines = channels(product_line);
        let total = total_samples(product_line);
        if points.len() < 2 * total {
            return Err(LiDARError::invalid("not enough data"));
        }
        let mut result_points: Vec<Vec<PolarPoint>> = Vec::new();
        let mut channel: u8 = 0;
        while channel < lines
            invariant
                channel <= lines,
                lines == spec_channels(product_line),
                count == spec_samples(product_line),
                total == lines * count,
                2 * total <= points@.len(),
                result_points@.len() == channel,
                forall|c: int|
                    0 <= c < channel ==> (#[trigger] result_points@[c])@ == spec_teaching_points(
                        product_line,
                        points@,
                    )[c],
            decreases lines - channel,
        {
            assert(channel * count + count <= lines * count) by (nonlinear_arith)
                requires
                    channel < lines,
                    count >= 0,
            ;
            let first = (channel as usize) * count;
            let fov_points = sweep(product_line, channel, points.as_slice(), first);
            result_points.push(fov_points);
            channel += 1;
        }
        assert(sweeps_view(result_points@) =~= spec_teaching_points(product_line, points@));
        Ok(result_points)
    }
}

/// The parameters with which a device acknowledges a command.
pub open spec fn spec_is_ack_param(param: u8) -> bool {
    ||| param == 0x01
    ||| param == 0x21
    ||| param == 0x31
    ||| param == 0x41
    ||| param == 0x51
    ||| param == 0x61
    ||| param == 0x81
    ||| param == 0x91
    ||| param == 0xA1
    ||| param == 0xB1
    ||| param == 0xC1
    ||| param == 0xE1
    ||| param == 0x03
    ||| param == 0x13
    ||| param == 0x23
    ||| param == 0x33
    ||| param == 0x53
    ||| param == 0x73
    ||| param == 0x9D
    ||| param == 0xB3
    ||| param == 0xD3
    ||| param == 0xF3
    ||| param == 0x25
    ||| param == 0x45
}

/// Tells whether a device acknowledges a command with `param`.
pub fn is_ack_param(param: u8) -> (b: bool)
    ensures
        b == spec_is_ack_param(param),
{
    match param {
        0x01 | 0x21 | 0x31 | 0x41 | 0x51 | 0x61 | 0x81 | 0x91 | 0xA1 | 0xB1 | 0xC1 | 0xE1 | 0x03
        | 0x13 | 0x23 | 0x33 | 0x53 | 0x73 | 0x9D | 0xB3 | 0xD3 | 0xF3 | 0x25 | 0x45 => true,
        _ => false,
    }
}

/// The number of bytes of a basic configuration before its areas.
pub const BASIC_CONFIG_FIXED: usize = 14;

/// The user areas that start at `pos`: `count` areas, each a count byte
/// followed by four bytes for each of its corners.  `None` where `data` ends
/// before the last area does.
pub open spec fn spec_areas(data: Seq<u8>, pos: int, count: nat) -> Option<Seq<UserAreaView>>
    decreases count,
{
    if count == 0 {
        Some(Seq::empty())
    } else if pos >= data.len() {
        None
    } else {
        let point_count = data[pos];
        let end = pos + 1 + 4 * point_count;
        if end > data.len() {
            None
        } else {
            match spec_areas(data, end, (count - 1) as nat) {
                Some(rest) => Some(
                    seq![
                        UserAreaView {
                            point_count,
                            points: spec_area_points(data.subrange(pos + 1, end)),
                        },
                    ] + rest,
                ),
                None => None,
            }
        }
    }
}

/// The basic configuration carried by `data`.
pub open spec fn spec_basic_config(data: Seq<u8>) -> Result<BasicConfigView, Seq<char>> {
    if data.len() < 14 {
        Err(not_enough_data())
    } else {
        match spec_areas(data, 14, data[13] as nat) {
            Some(areas) => Ok(
                BasicConfigView {
                    output_channel: data[0],
                    self_check_active_state: data[1],
                    pulse_active_state: data[2],
                    pulse_output_mode: data[3],
                    pulse_pin_mode: data[4],
                    pulse_pin_channel: data[5],
                    start_angle: spec_be16(data, 6),
                    finish_angle: spec_be16(data, 8),
                    min_distance: data[10],
                    max_distance: data[11],
                    object_size: data[12],
                    area_count: data[13],
                    areas,
                },
            ),
            None => Err(not_enough_data()),
        }
    }
}

/// The record of one byte that `param` names, if it names one.
pub open spec fn spec_single(param: u8, value: u8) -> Option<ConfigRecord> {
    if param == 0x63 {
        Some(ConfigRecord::MotorSpeed(MotorSpeed { speed: value }))
    } else if param == 0xA3 {
        Some(ConfigRecord::FogFilter(FogFilter { filter_value: value }))
    } else if param == 0xC3 {
        Some(ConfigRecord::RadiusFilter(RadiusFilter { filter_value: value }))
    } else if param == 0xE3 {
        Some(ConfigRecord::RadiusFilterMaxDistance(RadiusFilterMaxDistance { max_distance: value }))
    } else if param == 0x05 {
        Some(
            ConfigRecord::WindowContaminationDetectionMode(
                WindowContaminationDetectionMode { mode: value },
            ),
        )
    } else if param == 0x35 {
        Some(ConfigRecord::RadiusFilterMinDistance(RadiusFilterMinDistance { min_distance: value }))
    } else if spec_is_ack_param(param) {
        Some(ConfigRecord::Ack(Ack { ack_code: value }))
    } else {
        None
    }
}

/// The record carried by the payload `data` of a configuration frame with
/// parameter `param`, or the reason why there is none.
pub open spec fn spec_parse_cf(product_line: u8, param: u8, data: Seq<u8>) -> Result<
    ConfigRecord,
    Seq<char>,
> {
    if param == 0x11 {
        match spec_basic_config(data) {
            Ok(config) => Ok(ConfigRecord::BasicConfig(config)),
            Err(e) => Err(e),
        }
    } else if param == 0x71 {
        if data.len() < 7 {
            Err(not_enough_data())
        } else {
            Ok(
                ConfigRecord::VersionInfo(
                    VersionInfoView {
                        firmware_version: data.subrange(0, 3),
                        hardware_version: data.subrange(3, 6),
                        end_target: data[6],
                    },
                ),
            )
        }
    } else if param == 0xD1 {
        if data.len() < 20 {
            Err(not_enough_data())
        } else {
            Ok(
                ConfigRecord::NetworkSourceInfo(
                    NetworkSourceInfoView {
                        ip_address: data.subrange(0, 4),
                        mac_address: data.subrange(4, 10),
                        subnet_mask: data.subrange(10, 14),
                        gateway: data.subrange(14, 18),
                        port: spec_be16(data, 18),
                    },
                ),
            )
        }
    } else if param == 0xF1 {
        if data.len() < 1 {
            Err(not_enough_data())
        } else {
            match spec_teaching_area(product_line, data[0], data.subrange(1, data.len() as int)) {
                Ok(area) => Ok(ConfigRecord::TeachingArea(area)),
                Err(e) => Err(e),
            }
        }
    } else if param == 0x43 {
        if data.len() < 4 {
            Err(not_enough_data())
        } else {
            Ok(ConfigRecord::NetworkDestinationIP(data.subrange(0, 4)))
        }
    } else if param == 0x83 {
        if data.len() < 6 {
            Err(not_enough_data())
        } else {
            Ok(
                ConfigRecord::WarningArea(
                    WarningAreaView {
                        danger_area: data.subrange(0, 2),
                        warning_area: data.subrange(2, 4),
                        caution_area: data.subrange(4, 6),
                    },
                ),
            )
        }
    } else if param == 0x15 {
        if data.len() < 2 {
            Err(not_enough_data())
        } else {
            Ok(ConfigRecord::TeachingMode(TeachingMode { range: data[0], margin: data[1] }))
        }
    } else {
        match spec_single(param, data[0]) {
            Some(record) => if data.len() < 1 {
                Err(not_enough_data())
            } else {
                Ok(record)
            },
            None => Err(not_supported_param()),
        }
    }
}

fn take2(data: &[u8], at: usize) -> (a: [u8; 2])
    requires
        at + 2 <= data@.len(),
    ensures
        a@ == data@.subrange(at as int, at + 2),
{
    let a = [data[at], data[at + 1]];
    assert(a@ =~= data@.subrange(at as int, at + 2));
    a
}

fn take3(data: &[u8], at: usize) -> (a: [u8; 3])
    requires
        at + 3 <= data@.len(),
    ensures
        a@ == data@.subrange(at as int, at + 3),
{
    let a = [data[at], data[at + 1], data[at + 2]];
    assert(a@ =~= data@.subrange(at as int, at + 3));
    a
}

fn take4(data: &[u8], at: usize) -> (a: [u8; 4])
    requires
        at + 4 <= data@.len(),
    ensures
        a@ == data@.subrange(at as int, at + 4),
{
    let a = [data[at], data[at + 1], data[at + 2], data[at + 3]];
    assert(a@ =~= data@.subrange(at as int, at + 4));
    a
}

fn take6(data: &[u8], at: usize) -> (a: [u8; 6])
    requires
        at + 6 <= data@.len(),
    ensures
        a@ == data@.subrange(at as int, at + 6),
{
    let a = [data[at], data[at + 1], data[at + 2], data[at + 3], data[at + 4], data[at + 5]];
    assert(a@ =~= data@.subrange(at as int, at + 6));
    a
}

/// Decodes the user areas of a basic configuration.
fn parse_areas(data: &[u8], area_count: u8) -> (r: Option<Vec<UserArea>>)
    requires
        data@.len() >= 14,
    ensures
        match r {
            Some(areas) => Some(areas_view(areas@)),
            None => None,
        } == spec_areas(data@, 14, area_count as nat),
{
    let len = data.len();
    let mut areas: Vec<UserArea> = Vec::new();
    let mut pos: usize = BASIC_CONFIG_FIXED;
    let mut done: u8 = 0;
    assert(areas_view(areas@) + Seq::<UserAreaView>::empty() =~= Seq::<UserAreaView>::empty());
    while done < area_count
        invariant
            len == data@.len(),
            14 <= pos <= len,
            done <= area_count,
            areas@.len() == done,
            spec_areas(data@, 14, area_count as nat) == (match spec_areas(
                data@,
                pos as int,
                (area_count - done) as nat,
            ) {
                Some(rest) => Some(areas_view(areas@) + rest),
                None => None,
            }),
        decreases area_count - done,
    {
        if pos >= len {
            return None;
        }
        let point_count = data[pos];
        let size = 4 * (point_count as usize);
        if len - pos - 1 < size {
            return None;
        }
        let end = pos + 1 + size;
        let points = slice_to_vec(slice_subrange(data, pos + 1, end));
        let area = UserArea::from_bytes(point_count, points);
        let ghost before = areas@;
        let ghost rest = spec_areas(data@, end as int, (area_count - done - 1) as nat);
        areas.push(area);
        proof {
            assert(areas_view(areas@) =~= areas_view(before).push(area@));
            if rest is Some {
                assert(areas_view(before) + (seq![area@] + rest.unwrap()) =~= areas_view(areas@)
                    + rest.unwrap());
            }
        }
        pos = end;
        done += 1;
    }
    assert(areas_view(areas@) + Seq::<UserAreaView>::empty() =~= areas_view(areas@));
    Some(areas)
}

/// Decodes a basic configuration: fourteen bytes of settings, then the user areas.
pub fn parse_basic_config(data: &[u8]) -> (r: Result<BasicConfig, LiDARError>)
    ensures
        outcome(r) == spec_basic_config(data@),
{
    if data.len() < BASIC_CONFIG_FIXED {
        return Err(LiDARError::invalid("not enough data"));
    }
    let area_count = data[13];
    match parse_areas(data, area_count) {
        Some(areas) => Ok(
            BasicConfig::new(
                data[0],
                data[1],
                data[2],
                data[3],
                data[4],
                data[5],
                be16(data[6], data[7]),
                be16(data[8], data[9]),
                data[10],
                data[11],
                data[12],
                area_count,
                areas,
            ),
        ),
        None => Err(LiDARError::invalid("not enough data")),
    }
}

/// Decodes the payload of a configuration frame into the record that the
/// parameter names.
pub fn parse_cf(product_line: u8, param: u8, data: &[u8]) -> (r: Result<KMConfigData, LiDARError>)
    ensures
        outcome(r) == spec_parse_cf(product_line, param, data@),
{
    let len = data.len();
    match param {
        0x11 => match parse_basic_config(data) {
            Ok(config) => Ok(KMConfigData::BasicConfig(config)),
            Err(e) => Err(e),
        },
        0x71 => {
            if len < 7 {
                return Err(LiDARError::invalid("not enough data"));
            }
            Ok(
                KMConfigData::VersionInfo(
                    VersionInfo::new(take3(data, 0), take3(data, 3), data[6]),
                ),
            )
        },
        0xD1 => {
            if len < 20 {
                return Err(LiDARError::invalid("not enough data"));
            }
            Ok(
                KMConfigData::NetworkSourceInfo(
                    NetworkSourceInfo::new(
                        take4(data, 0),
                        take6(data, 4),
                        take4(data, 10),
                        take4(data, 14),
                        be16(data[18], data[19]),
                    ),
                ),
            )
        },
        0xF1 => {
            if len < 1 {
                return Err(LiDARError::invalid("not enough data"));
            }
            let raw_points = slice_to_vec(slice_subrange(data, 1, len));
            match TeachingArea::parse(product_line, data[0], raw_points) {
                Ok(area) => Ok(KMConfigData::TeachingArea(area)),
                Err(e) => Err(e),
            }
        },
        0x43 => {
            if len < 4 {
                return Err(LiDARError::invalid("not enough data"));
            }
            Ok(KMConfigData::NetworkDestinationIP(NetworkDestinationIP::new(take4(data, 0))))
        },
        0x83 => {
            if len < 6 {
                return Err(LiDARError::invalid("not enough data"));
            }
            Ok(
                KMConfigData::WarningArea(
                    WarningArea::new(take2(data, 0), take2(data, 2), take2(data, 4)),
                ),
            )
        },
        0x15 => {
            if len < 2 {
                return Err(LiDARError::invalid("not enough data"));
            }
            Ok(KMConfigData::TeachingMode(TeachingMode::new(data[0], data[1])))
        },
        _ => parse_single(param, data),
    }
}

/// Decodes a record of one byte.
fn parse_single(param: u8, data: &[u8]) -> (r: Result<KMConfigData, LiDARError>)
    requires
        param != 0x11,
        param != 0x71,
        param != 0xD1,
        param != 0xF1,
        param != 0x43,
        param != 0x83,
        param != 0x15,
    ensures
        outcome(r) == spec_parse_cf(0, param, data@),
{
    let known = param == 0x63 || param == 0xA3 || param == 0xC3 || param == 0xE3 || param == 0x05
        || param == 0x35 || is_ack_param(param);
    if !known {
        return Err(LiDARError::invalid("not supported param"));
    }
    if data.len() < 1 {
        return Err(LiDARError::invalid("not enough data"));
    }
    let value = data[0];
    let record = match param {
        0x63 => KMConfigData::MotorSpeed(MotorSpeed::new(value)),
        0xA3 => KMConfigData::FogFilter(FogFilter::new(value)),
        0xC3 => KMConfigData::RadiusFilter(RadiusFilter::new(value)),
        0xE3 => KMConfigData::RadiusFilterMaxDistance(RadiusFilterMaxDistance::new(value)),
        0x05 => KMConfigData::WindowContaminationDetectionMode(
            WindowContaminationDetectionMode::new(value),
        ),
        0x35 => KMConfigData::RadiusFilterMinDistance(RadiusFilterMinDistance::new(value)),
        _ => KMConfigData::Ack(Ack::new(value)),
    };
    Ok(record)
}

/// The channel that the parameter of a point-cloud frame selects.
pub open spec fn spec_channel(param: u8) -> u8 {
    param & 0x0F
}

/// The points carried by the payload `data` of a point-cloud frame with
/// parameter `param`, or the reason why there are none.  The distances of
/// the sweep open the payload; its last byte is what the device detected.
pub open spec fn spec_parse_dd(product_line: u8, param: u8, data: Seq<u8>) -> Result<
    PointCloudDataView,
    Seq<char>,
> {
    let channel = spec_channel(param);
    if data.len() < 1 {
        Err(not_enough_data())
    } else if channel >= spec_channels(product_line) {
        Err(not_supported_channel())
    } else if data.len() < 2 * spec_samples(product_line) {
        Err(not_enough_data())
    } else {
        Ok(
            PointCloudDataView {
                point_cloud: spec_sweep(product_line, channel as int, data, 0),
                channel,
                detection_value: data.last(),
            },
        )
    }
}

/// Decodes the payload of a point-cloud frame: the sweep of the channel
/// that the parameter selects.
pub fn parse_dd(product_line: u8, param: u8, data: &[u8]) -> (r: Result<PointCloudData, LiDARError>)
    ensures
        outcome(r) == spec_parse_dd(product_line, param, data@),
        r matches Ok(cloud) ==> cloud@.point_cloud.len() == spec_samples(product_line),
{
    let ch = param & 0x0F;
    let len = data.len();
    if len < 1 {
        return Err(LiDARError::invalid("not enough data"));
    }
    if ch >= channels(product_line) {
        return Err(LiDARError::invalid("not supported channel"));
    }
    if len < 2 * samples(product_line) {
        return Err(LiDARError::invalid("not enough data"));
    }
    let points = sweep(product_line, ch, data, 0);
    Ok(PointCloudData::new(PointCloud { points }, ch, data[len - 1]))
}

/// The points of a decoded point-cloud frame are as many as the sweep of
/// the product line has steps: 400, but 480 for product lines 2 and 3 and
/// 1080 for product line 7, whatever the channel.
pub proof fn lemma_point_count(product_line: u8, param: u8, data: Seq<u8>)
    requires
        spec_parse_dd(product_line, param, data) is Ok,
    ensures
        ({
            let count = spec_parse_dd(product_line, param, data)->Ok_0.point_cloud.len();
            &&& spec_channel(param) < spec_channels(product_line)
            &&& product_line != 2 && product_line != 3 && product_line != 7 ==> count == 400
            &&& product_line == 2 || product_line == 3 ==> count == 480
            &&& product_line == 7 ==> count == 1080
        }),
{
}

} // verus!
