//! Encoding a record and decoding it again gives the record back.

use crate::codec::{
    spec_area_points, spec_areas, spec_basic_config, spec_parse_cf, spec_teaching_area,
    spec_teaching_points,
};
use crate::config::{AreaPoint, ConfigRecord, UserAreaView};
use crate::coordinate::{lemma_signed, spec_signed, spec_unsigned};
use crate::encode::{
    spec_area_bytes, spec_areas_bytes, spec_basic_fixed, spec_points_bytes, spec_record_frame,
    spec_record_mode, spec_record_param, spec_record_payload, spec_sweep_bytes,
    spec_sweeps_bytes,
};
use crate::frame::lemma_frame_layout;
use crate::geometry::{
    spec_channels, spec_h_angle, spec_samples, spec_sweep, spec_total_samples, spec_v_angle,
    PolarPoint,
};
use crate::parser::{spec_decode_frame, ContentView, KanaviMobilityDataView};
use vstd::prelude::*;

verus! {

/// Whether the sweeps are those of a teaching area of the product line:
/// one sweep for each channel, each with every point of the sweep at the
/// angles of its place.
pub open spec fn spec_sweeps_wf(product_line: u8, sweeps: Seq<Seq<PolarPoint>>) -> bool {
    &&& sweeps.len() == spec_channels(product_line)
    &&& forall|channel: int|
        0 <= channel < sweeps.len() ==> (#[trigger] sweeps[channel]).len() == spec_samples(
            product_line,
        )
    &&& forall|channel: int, index: int|
        0 <= channel < sweeps.len() && 0 <= index < spec_samples(product_line) ==> {
            &&& (#[trigger] sweeps[channel][index]).v_angle == spec_v_angle(product_line, channel)
            &&& sweeps[channel][index].h_angle == spec_h_angle(product_line, index)
        }
}

/// Whether `record` is one that a device of the product line can report:
/// counts agree with what they count, and addresses and versions have the
/// lengths of their fields.
pub open spec fn spec_record_wf(product_line: u8, record: ConfigRecord) -> bool {
    match record {
        ConfigRecord::BasicConfig(c) => {
            &&& c.area_count == c.areas.len()
            &&& forall|i: int|
                0 <= i < c.areas.len() ==> (#[trigger] c.areas[i]).point_count
                    == c.areas[i].points.len()
        },
        ConfigRecord::VersionInfo(v) => v.firmware_version.len() == 3 && v.hardware_version.len()
            == 3,
        ConfigRecord::NetworkSourceInfo(n) => n.ip_address.len() == 4 && n.mac_address.len() == 6
            && n.subnet_mask.len() == 4 && n.gateway.len() == 4,
        ConfigRecord::TeachingArea(t) => if t.is_set == 1 {
            spec_sweeps_wf(product_line, t.points)
        } else {
            t.points.len() == 0
        },
        ConfigRecord::NetworkDestinationIP(ip) => ip.len() == 4,
        ConfigRecord::WarningArea(w) => w.danger_area.len() == 2 && w.warning_area.len() == 2
            && w.caution_area.len() == 2,
        _ => true,
    }
}

/// A signed value is read back from the byte that carries it.
pub proof fn lemma_unsigned_signed(v: i8)
    ensures
        spec_signed(spec_unsigned(v)) == v,
{
    lemma_signed(spec_unsigned(v));
}

/// The corners of a user area are read back from the bytes that carry them.
pub proof fn lemma_points_round_trip(points: Seq<AreaPoint>)
    ensures
        spec_points_bytes(points).len() == 4 * points.len(),
        spec_area_points(spec_points_bytes(points)) == points,
{
    let bytes = spec_points_bytes(points);
    let back = spec_area_points(bytes);
    assert(back.len() == points.len());
    assert forall|i: int| 0 <= i < points.len() implies back[i] == points[i] by {
        let p = points[i];
        lemma_unsigned_signed(p.x.integer);
        lemma_unsigned_signed(p.x.hundredths);
        lemma_unsigned_signed(p.y.integer);
        lemma_unsigned_signed(p.y.hundredths);
        assert(bytes[4 * i] == spec_unsigned(p.x.integer));
        assert(bytes[4 * i + 1] == spec_unsigned(p.x.hundredths));
        assert(bytes[4 * i + 2] == spec_unsigned(p.y.integer));
        assert(bytes[4 * i + 3] == spec_unsigned(p.y.hundredths));
    }
    assert(back =~= points);
}

/// User areas are read back from the bytes that carry them, wherever in a
/// payload those bytes stand.
pub proof fn lemma_areas_round_trip(data: Seq<u8>, pos: int, areas: Seq<UserAreaView>)
    requires
        0 <= pos,
        pos + spec_areas_bytes(areas).len() <= data.len(),
        data.subrange(pos, pos + spec_areas_bytes(areas).len()) == spec_areas_bytes(areas),
        forall|i: int|
            0 <= i < areas.len() ==> (#[trigger] areas[i]).point_count == areas[i].points.len(),
    ensures
        spec_areas(data, pos, areas.len()) == Some(areas),
    decreases areas.len(),
{
    if areas.len() == 0 {
        assert(areas =~= Seq::<UserAreaView>::empty());
    } else {
        let first = areas.first();
        let rest = areas.drop_first();
        let all = spec_areas_bytes(areas);
        let head = spec_area_bytes(first);
        let tail = spec_areas_bytes(rest);
        let points = spec_points_bytes(first.points);
        lemma_points_round_trip(first.points);
        assert(all == head + tail);
        assert(head == seq![first.point_count] + points);
        assert(areas[0] == first);
        let end = pos + 1 + 4 * first.point_count;
        assert(end == pos + head.len());
        lemma_window(data, pos, all, 0, 1);
        lemma_window(data, pos, all, 1, head.len() as int);
        lemma_window(data, pos, all, head.len() as int, all.len() as int);
        assert(all.subrange(0, 1) =~= seq![first.point_count]);
        assert(all.subrange(1, head.len() as int) =~= points);
        assert(all.subrange(head.len() as int, all.len() as int) =~= tail);
        assert(data.subrange(pos, pos + 1)[0] == data[pos]);
        assert(data[pos] == first.point_count);
        assert(data.subrange(pos + 1, end) == points);
        assert(data.subrange(end, end + tail.len()) == tail);
        assert forall|i: int| 0 <= i < rest.len() implies (#[trigger] rest[i]).point_count
            == rest[i].points.len() by {
            assert(rest[i] == areas[i + 1]);
        }
        lemma_areas_round_trip(data, end, rest);
        let decoded = UserAreaView {
            point_count: first.point_count,
            points: spec_area_points(data.subrange(pos + 1, end)),
        };
        assert(decoded == first);
        assert(seq![decoded] + rest =~= areas);
    }
}

/// A window of a window of `data` is a window of `data`.
proof fn lemma_window(data: Seq<u8>, pos: int, part: Seq<u8>, from: int, to: int)
    requires
        0 <= pos,
        pos + part.len() <= data.len(),
        data.subrange(pos, pos + part.len()) == part,
        0 <= from <= to <= part.len(),
    ensures
        data.subrange(pos + from, pos + to) == part.subrange(from, to),
{
    assert(data.subrange(pos + from, pos + to) =~= data.subrange(pos, pos + part.len()).subrange(
        from,
        to,
    ));
}

/// Where every sweep has `n` points, the distance of the `index`-th point
/// of the `channel`-th sweep stands at the place that decoding reads.
pub proof fn lemma_sweeps_bytes(sweeps: Seq<Seq<PolarPoint>>, n: int)
    requires
        n >= 0,
        forall|channel: int| 0 <= channel < sweeps.len() ==> (#[trigger] sweeps[channel]).len() == n,
    ensures
        spec_sweeps_bytes(sweeps).len() == 2 * (sweeps.len() * n),
        forall|channel: int, index: int|
            #![trigger sweeps[channel][index]]
            0 <= channel < sweeps.len() && 0 <= index < n ==> {
                &&& spec_sweeps_bytes(sweeps)[2 * (channel * n + index)]
                    == sweeps[channel][index].meters
                &&& spec_sweeps_bytes(sweeps)[2 * (channel * n + index) + 1]
                    == sweeps[channel][index].hundredths
            },
    decreases sweeps.len(),
{
    if sweeps.len() > 0 {
        let front = sweeps.drop_last();
        let last = sweeps.last();
        let count = sweeps.len() as int;
        lemma_sweeps_bytes(front, n);
        let head = spec_sweeps_bytes(front);
        let tail = spec_sweep_bytes(last);
        assert(front.len() * n + n == count * n) by (nonlinear_arith)
            requires
                front.len() + 1 == count,
        ;
        assert forall|channel: int, index: int|
            #![trigger sweeps[channel][index]]
            0 <= channel < sweeps.len() && 0 <= index < n implies {
                &&& spec_sweeps_bytes(sweeps)[2 * (channel * n + index)]
                    == sweeps[channel][index].meters
                &&& spec_sweeps_bytes(sweeps)[2 * (channel * n + index) + 1]
                    == sweeps[channel][index].hundredths
            } by {
            if channel < front.len() {
                assert(front[channel] == sweeps[channel]);
                let p = front[channel][index];
                assert(channel * n + n <= front.len() * n) by (nonlinear_arith)
                    requires
                        channel < front.len(),
                        n >= 0,
                ;
                assert(channel * n >= 0) by (nonlinear_arith)
                    requires
                        channel >= 0,
                        n >= 0,
                ;
            } else {
                assert(channel * n == front.len() * n);
                assert(front.len() * n >= 0) by (nonlinear_arith)
                    requires
                        n >= 0,
                ;
                let k = 2 * index;
                assert(spec_sweeps_bytes(sweeps)[head.len() + k] == tail[k]);
                assert(spec_sweeps_bytes(sweeps)[head.len() + k + 1] == tail[k + 1]);
            }
        }
    } else {
        assert(sweeps.len() * n == 0) by (nonlinear_arith)
            requires
                sweeps.len() == 0,
        ;
    }
}

/// The sweeps of a teaching area are read back from the bytes that carry them.
pub proof fn lemma_teaching_round_trip(product_line: u8, sweeps: Seq<Seq<PolarPoint>>)
    requires
        spec_sweeps_wf(product_line, sweeps),
    ensures
        spec_teaching_area(product_line, 1, spec_sweeps_bytes(sweeps)) == Ok::<_, Seq<char>>(
            crate::config::TeachingAreaView { is_set: 1, points: sweeps },
        ),
{
    let n = spec_samples(product_line);
    let data = spec_sweeps_bytes(sweeps);
    lemma_sweeps_bytes(sweeps, n);
    assert(sweeps.len() * n == spec_total_samples(product_line));
    let back = spec_teaching_points(product_line, data);
    assert(back.len() == sweeps.len());
    assert forall|channel: int| 0 <= channel < sweeps.len() implies back[channel]
        == sweeps[channel] by {
        let one = spec_sweep(product_line, channel, data, channel * n);
        assert(one.len() == sweeps[channel].len());
        assert forall|index: int| 0 <= index < n implies one[index] == sweeps[channel][index] by {
            let p = sweeps[channel][index];
            assert(-200 <= spec_v_angle(product_line, channel) <= 400);
            assert(-200 <= spec_h_angle(product_line, index) <= 1400);
        }
        assert(one =~= sweeps[channel]);
    }
    assert(back =~= sweeps);
}

/// Every record that a device can report is read back from the payload
/// that carries it.  A negative acknowledgement travels by the mode of its
/// frame and is no part of this.
pub proof fn lemma_payload_round_trip(product_line: u8, record: ConfigRecord)
    requires
        spec_record_wf(product_line, record),
        !(record is Nak),
    ensures
        spec_parse_cf(product_line, spec_record_param(record), spec_record_payload(record)) == Ok::<
            _,
            Seq<char>,
        >(record),
{
    let data = spec_record_payload(record);
    match record {
        ConfigRecord::BasicConfig(c) => {
            let fixed = spec_basic_fixed(c);
            let tail = spec_areas_bytes(c.areas);
            assert(data.subrange(14, 14 + tail.len() as int) =~= tail);
            lemma_areas_round_trip(data, 14, c.areas);
            assert(data[13] == fixed[13]);
            assert(data[6] == fixed[6] && data[7] == fixed[7] && data[8] == fixed[8] && data[9]
                == fixed[9]);
            assert(data[0] == fixed[0] && data[1] == fixed[1] && data[2] == fixed[2] && data[3]
                == fixed[3] && data[4] == fixed[4] && data[5] == fixed[5]);
            assert(data[10] == fixed[10] && data[11] == fixed[11] && data[12] == fixed[12]);
            assert(spec_basic_config(data) == Ok::<_, Seq<char>>(c));
        },
        ConfigRecord::VersionInfo(v) => {
            assert(data.subrange(0, 3) =~= v.firmware_version);
            assert(data.subrange(3, 6) =~= v.hardware_version);
        },
        ConfigRecord::NetworkSourceInfo(n) => {
            assert(data.subrange(0, 4) =~= n.ip_address);
            assert(data.subrange(4, 10) =~= n.mac_address);
            assert(data.subrange(10, 14) =~= n.subnet_mask);
            assert(data.subrange(14, 18) =~= n.gateway);
        },
        ConfigRecord::TeachingArea(t) => {
            let rest = data.subrange(1, data.len() as int);
            assert(rest =~= spec_sweeps_bytes(t.points));
            if t.is_set == 1 {
                lemma_teaching_round_trip(product_line, t.points);
            } else {
                assert(t.points =~= Seq::<Seq<PolarPoint>>::empty());
            }
        },
        ConfigRecord::NetworkDestinationIP(ip) => {
            assert(data.subrange(0, 4) =~= ip);
        },
        ConfigRecord::WarningArea(w) => {
            assert(data.subrange(0, 2) =~= w.danger_area);
            assert(data.subrange(2, 4) =~= w.warning_area);
            assert(data.subrange(4, 6) =~= w.caution_area);
        },
        _ => {},
    }
}

/// Decoding the frame that carries a record gives the record back, with
/// the header fields that the frame was built from.  The one record that
/// does not come back is a negative acknowledgement with a code other than
/// zero: it is decoded from the mode alone, as `Nak(0)`.
pub proof fn lemma_record_round_trip(product_line: u8, lidar_id: u8, record: ConfigRecord)
    requires
        spec_record_wf(product_line, record),
        spec_record_payload(record).len() <= 65535,
        record matches ConfigRecord::Nak(code) ==> code == 0,
    ensures
        spec_decode_frame(spec_record_frame(product_line, lidar_id, record)) == Ok::<
            _,
            Seq<char>,
        >(
            KanaviMobilityDataView {
                raw_data: spec_record_frame(product_line, lidar_id, record),
                product_line,
                lidar_id,
                mode: spec_record_mode(record),
                param: spec_record_param(record),
                content: ContentView::Config(record),
            },
        ),
{
    let payload = spec_record_payload(record);
    lemma_frame_layout(
        product_line,
        lidar_id,
        spec_record_mode(record),
        spec_record_param(record),
        payload,
    );
    if !(record is Nak) {
        lemma_payload_round_trip(product_line, record);
    }
}

} // verus!
