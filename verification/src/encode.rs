//! Encoding records into the payloads and frames that carry them.
//!
//! The payload of a record is laid out as decoding reads it, so that a
//! record that is encoded and decoded again is the record that was encoded.

use crate::config::{
    areas_view, sweeps_view, AreaPoint, BasicConfig, BasicConfigView, ConfigRecord, KMConfigData,
    TeachingArea, UserArea, UserAreaView,
};
use crate::coordinate::{spec_unsigned, unsigned_byte};
use crate::error::LiDARError;
use crate::frame::{encode_frame, payload_too_long, spec_frame, MODE_CONFIG, MODE_NAK};
use crate::geometry::PolarPoint;
use vstd::prelude::*;

verus! {

/// The parameter with which an acknowledgement is encoded.
pub const PARAM_ACK: u8 = 0x01;

/// The two bytes that carry `v`, highest first.
pub open spec fn spec_be16_bytes(v: u16) -> Seq<u8> {
    seq![(v / 256) as u8, (v % 256) as u8]
}

/// The bytes that carry the corners of a user area: four for each corner.
pub open spec fn spec_points_bytes(points: Seq<AreaPoint>) -> Seq<u8> {
    Seq::new(
        4 * points.len(),
        |k: int|
            {
                let p = points[k / 4];
                if k % 4 == 0 {
                    spec_unsigned(p.x.integer)
                } else if k % 4 == 1 {
                    spec_unsigned(p.x.hundredths)
                } else if k % 4 == 2 {
                    spec_unsigned(p.y.integer)
                } else {
                    spec_unsigned(p.y.hundredths)
                }
            },
    )
}

/// The bytes that carry one user area: its count byte and its corners.
pub open spec fn spec_area_bytes(area: UserAreaView) -> Seq<u8> {
    seq![area.point_count] + spec_points_bytes(area.points)
}

/// The bytes that carry the user areas, one after the other.
pub open spec fn spec_areas_bytes(areas: Seq<UserAreaView>) -> Seq<u8>
    decreases areas.len(),
{
    if areas.len() == 0 {
        Seq::empty()
    } else {
        spec_area_bytes(areas.first()) + spec_areas_bytes(areas.drop_first())
    }
}

/// The bytes that carry the distances of one sweep: two for each point.
pub open spec fn spec_sweep_bytes(points: Seq<PolarPoint>) -> Seq<u8> {
    Seq::new(
        2 * points.len(),
        |k: int|
            if k % 2 == 0 {
                points[k / 2].meters
            } else {
                points[k / 2].hundredths
            },
    )
}

/// The bytes that carry the distances of the sweeps, one sweep after the other.
pub open spec fn spec_sweeps_bytes(sweeps: Seq<Seq<PolarPoint>>) -> Seq<u8>
    decreases sweeps.len(),
{
    if sweeps.len() == 0 {
        Seq::empty()
    } else {
        spec_sweeps_bytes(sweeps.drop_last()) + spec_sweep_bytes(sweeps.last())
    }
}

/// The fourteen bytes that open the payload of a basic configuration.
pub open spec fn spec_basic_fixed(config: BasicConfigView) -> Seq<u8> {
    seq![
        config.output_channel,
        config.self_check_active_state,
        config.pulse_active_state,
        config.pulse_output_mode,
        config.pulse_pin_mode,
        config.pulse_pin_channel,
        (config.start_angle / 256) as u8,
        (config.start_angle % 256) as u8,
        (config.finish_angle / 256) as u8,
        (config.finish_angle % 256) as u8,
        config.min_distance,
        config.max_distance,
        config.object_size,
        config.area_count,
    ]
}

/// The mode of the frame that carries `record`.
pub open spec fn spec_record_mode(record: ConfigRecord) -> u8 {
    if record is Nak {
        0xF0
    } else {
        0xCF
    }
}

/// The parameter of the frame that carries `record`.
pub open spec fn spec_record_param(record: ConfigRecord) -> u8 {
    match record {
        ConfigRecord::BasicConfig(_) => 0x11,
        ConfigRecord::VersionInfo(_) => 0x71,
        ConfigRecord::NetworkSourceInfo(_) => 0xD1,
        ConfigRecord::TeachingArea(_) => 0xF1,
        ConfigRecord::NetworkDestinationIP(_) => 0x43,
        ConfigRecord::MotorSpeed(_) => 0x63,
        ConfigRecord::WarningArea(_) => 0x83,
        ConfigRecord::FogFilter(_) => 0xA3,
        ConfigRecord::RadiusFilter(_) => 0xC3,
        ConfigRecord::RadiusFilterMaxDistance(_) => 0xE3,
        ConfigRecord::WindowContaminationDetectionMode(_) => 0x05,
        ConfigRecord::TeachingMode(_) => 0x15,
        ConfigRecord::RadiusFilterMinDistance(_) => 0x35,
        ConfigRecord::Ack(_) => 0x01,
        ConfigRecord::Nak(_) => 0x00,
    }
}

/// The payload of the frame that carries `record`.
pub open spec fn spec_record_payload(record: ConfigRecord) -> Seq<u8> {
    match record {
        ConfigRecord::BasicConfig(c) => spec_basic_fixed(c) + spec_areas_bytes(c.areas),
        ConfigRecord::VersionInfo(v) => v.firmware_version + v.hardware_version + seq![
            v.end_target,
        ],
        ConfigRecord::NetworkSourceInfo(n) => n.ip_address + n.mac_address + n.subnet_mask
            + n.gateway + spec_be16_bytes(n.port),
        ConfigRecord::TeachingArea(t) => seq![t.is_set] + spec_sweeps_bytes(t.points),
        ConfigRecord::NetworkDestinationIP(ip) => ip,
        ConfigRecord::MotorSpeed(m) => seq![m.speed],
        ConfigRecord::WarningArea(w) => w.danger_area + w.warning_area + w.caution_area,
        ConfigRecord::FogFilter(f) => seq![f.filter_value],
        ConfigRecord::RadiusFilter(f) => seq![f.filter_value],
        ConfigRecord::RadiusFilterMaxDistance(f) => seq![f.max_distance],
        ConfigRecord::WindowContaminationDetectionMode(m) => seq![m.mode],
        ConfigRecord::TeachingMode(m) => seq![m.range, m.margin],
        ConfigRecord::RadiusFilterMinDistance(f) => seq![f.min_distance],
        ConfigRecord::Ack(a) => seq![a.ack_code],
        ConfigRecord::Nak(code) => seq![code],
    }
}

/// The frame that carries `record` from the device `lidar_id` of the
/// product line `product_line`.
pub open spec fn spec_record_frame(product_line: u8, lidar_id: u8, record: ConfigRecord) -> Seq<u8> {
    spec_frame(
        product_line,
        lidar_id,
        spec_record_mode(record),
        spec_record_param(record),
        spec_record_payload(record),
    )
}

fn push_all(out: &mut Vec<u8>, bytes: &[u8])
    ensures
        final(out)@ == old(out)@ + bytes@,
{
    out.extend_from_slice(bytes);
}

fn push_be16(out: &mut Vec<u8>, v: u16)
    ensures
        final(out)@ == old(out)@ + spec_be16_bytes(v),
{
    let ghost before = out@;
    out.push((v / 256) as u8);
    out.push((v % 256) as u8);
    assert(out@ =~= before + spec_be16_bytes(v));
}

impl UserArea {
    /// Puts the bytes that carry the area after `out`.
    pub fn write(&self, out: &mut Vec<u8>)
        ensures
            final(out)@ == old(out)@ + spec_area_bytes(self@),
    {
        let ghost before = out@;
        out.push(self.point_count);
        let mut i: usize = 0;
        while i < self.points.len()
            invariant
                i <= self.points@.len(),
                out@.len() == before.len() + 1 + 4 * i,
                forall|k: int| 0 <= k < before.len() ==> out@[k] == before[k],
                out@[before.len() as int] == self.point_count,
                forall|k: int|
                    0 <= k < 4 * i ==> out@[before.len() + 1 + k] == spec_points_bytes(
                        self.points@,
                    )[k],
            decreases self.points@.len() - i,
        {
            let p = self.points[i];
            out.push(unsigned_byte(p.x.integer));
            out.push(unsigned_byte(p.x.hundredths));
            out.push(unsigned_byte(p.y.integer));
            out.push(unsigned_byte(p.y.hundredths));
            i += 1;
        }
        assert(out@ =~= before + spec_area_bytes(self@));
    }
}

impl BasicConfig {
    /// The payload that carries the configuration.
    pub fn payload(&self) -> (out: Vec<u8>)
        ensures
            out@ == spec_record_payload(ConfigRecord::BasicConfig(self@)),
    {
        let mut out: Vec<u8> = Vec::new();
        out.push(self.output_channel);
        out.push(self.self_check_active_state);
        out.push(self.pulse_active_state);
        out.push(self.pulse_output_mode);
        out.push(self.pulse_pin_mode);
        out.push(self.pulse_pin_channel);
        out.push((self.start_angle / 256) as u8);
        out.push((self.start_angle % 256) as u8);
        out.push((self.finish_angle / 256) as u8);
        out.push((self.finish_angle % 256) as u8);
        out.push(self.min_distance);
        out.push(self.max_distance);
        out.push(self.object_size);
        out.push(self.area_count);
        assert(out@ =~= spec_basic_fixed(self@));
        let ghost all = areas_view(self.areas@);
        let mut i: usize = 0;
        assert(all.skip(0) =~= all);
        while i < self.areas.len()
            invariant
                i <= self.areas@.len(),
                all == areas_view(self.areas@),
                out@ + spec_areas_bytes(all.skip(i as int)) == spec_basic_fixed(self@)
                    + spec_areas_bytes(all),
            decreases self.areas@.len() - i,
        {
            let ghost before = out@;
            let ghost rest = all.skip(i as int);
            assert(rest.first() == self.areas@[i as int]@);
            assert(rest.drop_first() =~= all.skip(i + 1));
            self.areas[i].write(&mut out);
            assert(out@ + spec_areas_bytes(all.skip(i + 1)) =~= before + spec_areas_bytes(rest));
            i += 1;
        }
        assert(out@ + spec_areas_bytes(all.skip(i as int)) =~= out@);
        out
    }
}

impl TeachingArea {
    /// The payload that carries the teaching area.
    pub fn payload(&self) -> (out: Vec<u8>)
        ensures
            out@ == spec_record_payload(ConfigRecord::TeachingArea(self@)),
    {
        let mut out: Vec<u8> = Vec::new();
        out.push(self.is_set);
        let ghost all = sweeps_view(self.points@);
        let mut i: usize = 0;
        assert(all.take(0) =~= Seq::<Seq<PolarPoint>>::empty());
        assert(out@ =~= seq![self.is_set] + spec_sweeps_bytes(all.take(0)));
        while i < self.points.len()
            invariant
                i <= self.points@.len(),
                all == sweeps_view(self.points@),
                out@ == seq![self.is_set] + spec_sweeps_bytes(all.take(i as int)),
            decreases self.points@.len() - i,
        {
            let ghost before = out@;
            let sweep = &self.points[i];
            let mut j: usize = 0;
            while j < sweep.len()
                invariant
                    j <= sweep@.len(),
                    out@.len() == before.len() + 2 * j,
                    forall|k: int| 0 <= k < before.len() ==> out@[k] == before[k],
                    forall|k: int|
                        0 <= k < 2 * j ==> out@[before.len() + k] == spec_sweep_bytes(sweep@)[k],
                decreases sweep@.len() - j,
            {
                let p = sweep[j];
                out.push(p.meters);
                out.push(p.hundredths);
                j += 1;
            }
            proof {
                let now = all.take(i + 1);
                assert(now.drop_last() =~= all.take(i as int));
                assert(now.last() == sweep@);
                assert(out@ =~= before + spec_sweep_bytes(sweep@));
                assert(out@ =~= seq![self.is_set] + spec_sweeps_bytes(now));
            }
            i += 1;
        }
        assert(all.take(i as int) =~= all);
        out
    }
}

impl KMConfigData {
    /// The mode of the frame that carries the record.
    pub fn mode(&self) -> (mode: u8)
        ensures
            mode == spec_record_mode(self@),
    {
        match self {
            KMConfigData::Nak(_) => MODE_NAK,
            _ => MODE_CONFIG,
        }
    }

    /// The parameter of the frame that carries the record.
    pub fn param(&self) -> (param: u8)
        ensures
            param == spec_record_param(self@),
    {
        match self {
            KMConfigData::BasicConfig(_) => 0x11,
            KMConfigData::VersionInfo(_) => 0x71,
            KMConfigData::NetworkSourceInfo(_) => 0xD1,
            KMConfigData::TeachingArea(_) => 0xF1,
            KMConfigData::NetworkDestinationIP(_) => 0x43,
            KMConfigData::MotorSpeed(_) => 0x63,
            KMConfigData::WarningArea(_) => 0x83,
            KMConfigData::FogFilter(_) => 0xA3,
            KMConfigData::RadiusFilter(_) => 0xC3,
            KMConfigData::RadiusFilterMaxDistance(_) => 0xE3,
            KMConfigData::WindowContaminationDetectionMode(_) => 0x05,
            KMConfigData::TeachingMode(_) => 0x15,
            KMConfigData::RadiusFilterMinDistance(_) => 0x35,
            KMConfigData::Ack(_) => PARAM_ACK,
            KMConfigData::Nak(_) => 0x00,
        }
    }

    /// The payload of the frame that carries the record.
    pub fn payload(&self) -> (out: Vec<u8>)
        ensures
            out@ == spec_record_payload(self@),
    {
        let mut out: Vec<u8> = Vec::new();
        match self {
            KMConfigData::BasicConfig(c) => {
                return c.payload();
            },
            KMConfigData::TeachingArea(t) => {
                return t.payload();
            },
            KMConfigData::VersionInfo(v) => {
                push_all(&mut out, v.firmware_version.as_slice());
                push_all(&mut out, v.hardware_version.as_slice());
                out.push(v.end_target);
            },
            KMConfigData::NetworkSourceInfo(n) => {
                push_all(&mut out, n.ip_address.as_slice());
                push_all(&mut out, n.mac_address.as_slice());
                push_all(&mut out, n.subnet_mask.as_slice());
                push_all(&mut out, n.gateway.as_slice());
                push_be16(&mut out, n.port);
            },
            KMConfigData::NetworkDestinationIP(ip) => {
                push_all(&mut out, ip.ip_address.as_slice());
            },
            KMConfigData::WarningArea(w) => {
                push_all(&mut out, w.danger_area.as_slice());
                push_all(&mut out, w.warning_area.as_slice());
                push_all(&mut out, w.caution_area.as_slice());
            },
            KMConfigData::MotorSpeed(m) => out.push(m.speed),
            KMConfigData::FogFilter(f) => out.push(f.filter_value),
            KMConfigData::RadiusFilter(f) => out.push(f.filter_value),
            KMConfigData::RadiusFilterMaxDistance(f) => out.push(f.max_distance),
            KMConfigData::WindowContaminationDetectionMode(m) => out.push(m.mode),
            KMConfigData::TeachingMode(m) => {
                out.push(m.range);
                out.push(m.margin);
            },
            KMConfigData::RadiusFilterMinDistance(f) => out.push(f.min_distance),
            KMConfigData::Ack(a) => out.push(a.ack_code),
            KMConfigData::Nak(code) => out.push(*code),
        }
        assert(out@ =~= spec_record_payload(self@));
        out
    }

    /// Builds the frame that carries the record.  A record whose payload
    /// the length field cannot declare is refused.
    pub fn to_frame(&self, product_line: u8, lidar_id: u8) -> (r: Result<Vec<u8>, LiDARError>)
        ensures
            spec_record_payload(self@).len() <= 65535 ==> (r matches Ok(frame) && frame@
                == spec_record_frame(product_line, lidar_id, self@)),
            spec_record_payload(self@).len() > 65535 ==> (r matches Err(e) && e.text()
                == payload_too_long()),
    {
        let payload = self.payload();
        encode_frame(product_line, lidar_id, self.mode(), self.param(), payload.as_slice())
    }
}

} // verus!
