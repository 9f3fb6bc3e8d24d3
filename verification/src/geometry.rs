//! The scan geometry of each product line, in whole numbers.
//!
//! A device sweeps a fixed horizontal field of view in steps of a quarter of
//! a degree, once for each of its vertical channels.  A point of a sweep is
//! kept as the numbers it is made of: the two bytes of its distance and its
//! two angles.  Vertical angles are in hundredths of a degree and horizontal
//! angles in quarters of a degree, so that every value of the tables is a
//! whole number.

use vstd::prelude::*;

verus! {

/// How many quarters of a degree make a degree: the horizontal resolution.
pub const STEPS_PER_DEGREE: u16 = 4;

/// The horizontal field of view of a product line, in degrees.
pub open spec fn spec_h_fov(product_line: u8) -> int {
    if product_line == 2 || product_line == 3 {
        120
    } else if product_line == 7 {
        270
    } else {
        100
    }
}

/// The number of vertical channels of a product line.
pub open spec fn spec_channels(product_line: u8) -> int {
    if product_line == 2 || product_line == 3 {
        2
    } else if product_line == 7 {
        1
    } else {
        4
    }
}

/// The number of points of one sweep: the field of view over the resolution.
pub open spec fn spec_samples(product_line: u8) -> int {
    spec_h_fov(product_line) * 4
}

/// The number of points of all channels together.
pub open spec fn spec_total_samples(product_line: u8) -> int {
    spec_channels(product_line) * spec_samples(product_line)
}

/// The vertical angle of a channel, in hundredths of a degree.
pub open spec fn spec_v_angle(product_line: u8, channel: int) -> int {
    if product_line == 2 || product_line == 3 {
        if channel == 0 {
            0
        } else {
            300
        }
    } else if product_line == 7 {
        0
    } else if channel == 0 {
        -107
    } else if channel == 1 {
        0
    } else if channel == 2 {
        107
    } else {
        214
    }
}

/// The horizontal angle of the `index`-th point of a sweep, in quarters of a
/// degree: the sweep is centred on 90 degrees.
pub open spec fn spec_h_angle(product_line: u8, index: int) -> int {
    index + 2 * (180 - spec_h_fov(product_line))
}

/// One point of a sweep.
#[derive(Debug, Clone, Copy, PartialEq, Eq, Hash, Structural)]
pub struct PolarPoint {
    /// The whole part of the distance, in meters.
    pub meters: u8,
    /// The hundredths of the distance, as the device sent them.
    pub hundredths: u8,
    /// The vertical angle, in hundredths of a degree.
    pub v_angle: i16,
    /// The horizontal angle, in quarters of a degree.
    pub h_angle: i16,
}

impl PolarPoint {
    /// The distance in hundredths of a meter.
    pub open spec fn spec_distance(self) -> int {
        self.meters as int * 100 + self.hundredths as int
    }

    /// The distance in hundredths of a meter.
    pub fn distance(&self) -> (d: u32)
        ensures
            d == self.spec_distance(),
    {
        self.meters as u32 * 100 + self.hundredths as u32
    }
}

/// The `index`-th point of channel `channel`, where the distances of the
/// sweep start at the `first`-th pair of bytes of `data`.
pub open spec fn spec_point(product_line: u8, channel: int, data: Seq<u8>, first: int, index: int)
    -> PolarPoint {
    PolarPoint {
        meters: data[2 * (first + index)],
        hundredths: data[2 * (first + index) + 1],
        v_angle: spec_v_angle(product_line, channel) as i16,
        h_angle: spec_h_angle(product_line, index) as i16,
    }
}

/// All points of channel `channel`, in the order of the sweep.
pub open spec fn spec_sweep(product_line: u8, channel: int, data: Seq<u8>, first: int) -> Seq<
    PolarPoint,
> {
    Seq::new(
        spec_samples(product_line) as nat,
        |index: int| spec_point(product_line, channel, data, first, index),
    )
}

/// The horizontal field of view of a product line, in degrees.
pub fn h_fov(product_line: u8) -> (fov: u16)
    ensures
        fov == spec_h_fov(product_line),
{
    match product_line {
        2 | 3 => 120,
        7 => 270,
        _ => 100,
    }
}

/// The number of vertical channels of a product line.
pub fn channels(product_line: u8) -> (n: u8)
    ensures
        n == spec_channels(product_line),
{
    match product_line {
        2 | 3 => 2,
        7 => 1,
        _ => 4,
    }
}

/// The number of points of one sweep.
pub fn samples(product_line: u8) -> (n: usize)
    ensures
        n == spec_samples(product_line),
{
    (h_fov(product_line) * STEPS_PER_DEGREE) as usize
}

/// The number of points of all channels together.
pub fn total_samples(product_line: u8) -> (n: usize)
    ensures
        n == spec_total_samples(product_line),
        n <= 1600,
{
    match product_line {
        2 | 3 => 960,
        7 => 1080,
        _ => 1600,
    }
}

/// The vertical angle of a channel, in hundredths of a degree; `None` for a
/// channel that the product line does not have.
pub fn v_angle(product_line: u8, channel: u8) -> (angle: Option<i16>)
    ensures
        angle == (if channel < spec_channels(product_line) {
            Some(spec_v_angle(product_line, channel as int) as i16)
        } else {
            None
        }),
{
    match product_line {
        2 | 3 => match channel {
            0 => Some(0),
            1 => Some(300),
            _ => None,
        },
        7 => match channel {
            0 => Some(0),
            _ => None,
        },
        _ => match channel {
            0 => Some(-107),
            1 => Some(0),
            2 => Some(107),
            3 => Some(214),
            _ => None,
        },
    }
}

/// The horizontal angle of the `index`-th point of a sweep, in quarters of a degree.
pub(crate) fn h_angle(product_line: u8, index: usize) -> (angle: i16)
    requires
        index < spec_samples(product_line),
    ensures
        angle == spec_h_angle(product_line, index as int),
{
    let fov = h_fov(product_line) as i16;
    index as i16 + 2 * (180 - fov)
}

/// The points of one channel, read from the distances that start at the
/// `first`-th pair of bytes of `data`.
pub(crate) fn sweep(product_line: u8, channel: u8, data: &[u8], first: usize) -> (points: Vec<
    PolarPoint,
>)
    requires
        channel < spec_channels(product_line),
        2 * (first + spec_samples(product_line)) <= data@.len(),
    ensures
        points@ == spec_sweep(product_line, channel as int, data@, first as int),
{
    let count = samples(product_line);
    let v = match v_angle(product_line, channel) {
        Some(v) => v,
        None => 0,
    };
    let len = data.len();
    let mut points: Vec<PolarPoint> = Vec::new();
    let mut index: usize = 0;
    while index < count
        invariant
            index <= count,
            len == data@.len(),
            count == spec_samples(product_line),
            channel < spec_channels(product_line),
            v == spec_v_angle(product_line, channel as int),
            2 * (first + count) <= data@.len(),
            points@.len() == index,
            forall|j: int|
                0 <= j < index ==> points@[j] == spec_point(
                    product_line,
                    channel as int,
                    data@,
                    first as int,
                    j,
                ),
        decreases count - index,
    {
        let at = 2 * (first + index);
        points.push(
            PolarPoint {
                meters: data[at],
                hundredths: data[at + 1],
                v_angle: v,
                h_angle: h_angle(product_line, index),
            },
        );
        index += 1;
    }
    assert(points@ =~= spec_sweep(product_line, channel as int, data@, first as int));
    points
}

/// A sweep has 400 points, but for product lines 2 and 3, where it has 480,
/// and product line 7, where it has 1080.
pub proof fn lemma_samples(product_line: u8)
    ensures
        product_line != 2 && product_line != 3 && product_line != 7 ==> spec_samples(product_line)
            == 400,
        product_line == 2 || product_line == 3 ==> spec_samples(product_line) == 480,
        product_line == 7 ==> spec_samples(product_line) == 1080,
{
}

/// The points of one channel of one sweep.
#[derive(Debug, Clone, PartialEq, Eq)]
pub struct PointCloud {
    pub points: Vec<PolarPoint>,
}

impl View for PointCloud {
    type V = Seq<PolarPoint>;

    open spec fn view(&self) -> Seq<PolarPoint> {
        self.points@
    }
}

impl PointCloud {
    /// A cloud without points.
    pub fn new() -> (cloud: Self)
        ensures
            cloud@ == Seq::<PolarPoint>::empty(),
    {
        Self { points: Vec::new() }
    }

    /// Adds `point` after the points that the cloud holds.
    pub fn add_point(&mut self, point: PolarPoint)
        ensures
            final(self)@ == old(self)@.push(point),
    {
        self.points.push(point);
    }
}

/// What the points carried by one point-cloud frame are in contracts.
pub struct PointCloudDataView {
    pub point_cloud: Seq<PolarPoint>,
    pub channel: u8,
    pub detection_value: u8,
}

/// The points carried by one point-cloud frame: one channel of one sweep,
/// and what the device detected.
#[derive(Debug, Clone, PartialEq, Eq)]
pub struct PointCloudData {
    pub point_cloud: PointCloud,
    pub channel: u8,
    pub detection_value: u8,
}

impl View for PointCloudData {
    type V = PointCloudDataView;

    open spec fn view(&self) -> PointCloudDataView {
        PointCloudDataView {
            point_cloud: self.point_cloud@,
            channel: self.channel,
            detection_value: self.detection_value,
        }
    }
}

impl PointCloudData {
    pub fn new(point_cloud: PointCloud, channel: u8, detection_value: u8) -> (data: Self)
        ensures
            data@ == (PointCloudDataView { point_cloud: point_cloud@, channel, detection_value }),
    {
        Self { point_cloud, channel, detection_value }
    }
}

} // verus!
