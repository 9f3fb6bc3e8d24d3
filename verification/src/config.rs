//! The records that a device reports about its configuration.

use crate::coordinate::Coordinate;
use crate::geometry::PolarPoint;
use vstd::prelude::*;

verus! {

/// One corner of a user area.  User areas are flat: a corner has no height.
#[derive(Debug, Clone, Copy, PartialEq, Eq, Hash, Structural)]
pub struct AreaPoint {
    pub x: Coordinate,
    pub y: Coordinate,
}

/// What a user area is in contracts.
pub struct UserAreaView {
    pub point_count: u8,
    pub points: Seq<AreaPoint>,
}

/// A region drawn by the user, given by its corners.
#[derive(Debug, Clone, PartialEq, Eq)]
pub struct UserArea {
    pub point_count: u8,
    pub points: Vec<AreaPoint>,
}

impl View for UserArea {
    type V = UserAreaView;

    open spec fn view(&self) -> UserAreaView {
        UserAreaView { point_count: self.point_count, points: self.points@ }
    }
}

/// What a basic configuration is in contracts.
pub struct BasicConfigView {
    pub output_channel: u8,
    pub self_check_active_state: u8,
    pub pulse_active_state: u8,
    pub pulse_output_mode: u8,
    pub pulse_pin_mode: u8,
    pub pulse_pin_channel: u8,
    pub start_angle: u16,
    pub finish_angle: u16,
    pub min_distance: u8,
    pub max_distance: u8,
    pub object_size: u8,
    pub area_count: u8,
    pub areas: Seq<UserAreaView>,
}

/// The basic configuration of a device: its outputs, the angles and distances
/// it watches, and the areas drawn by the user.
#[derive(Debug, Clone, PartialEq, Eq)]
pub struct BasicConfig {
    pub output_channel: u8,
    pub self_check_active_state: u8,
    pub pulse_active_state: u8,
    pub pulse_output_mode: u8,
    pub pulse_pin_mode: u8,
    pub pulse_pin_channel: u8,
    pub start_angle: u16,
    pub finish_angle: u16,
    pub min_distance: u8,
    pub max_distance: u8,
    pub object_size: u8,
    pub area_count: u8,
    pub areas: Vec<UserArea>,
}

/// The areas of a list, each as it is in contracts.
pub open spec fn areas_view(areas: Seq<UserArea>) -> Seq<UserAreaView> {
    areas.map_values(|a: UserArea| a@)
}

impl View for BasicConfig {
    type V = BasicConfigView;

    open spec fn view(&self) -> BasicConfigView {
        BasicConfigView {
            output_channel: self.output_channel,
            self_check_active_state: self.self_check_active_state,
            pulse_active_state: self.pulse_active_state,
            pulse_output_mode: self.pulse_output_mode,
            pulse_pin_mode: self.pulse_pin_mode,
            pulse_pin_channel: self.pulse_pin_channel,
            start_angle: self.start_angle,
            finish_angle: self.finish_angle,
            min_distance: self.min_distance,
            max_distance: self.max_distance,
            object_size: self.object_size,
            area_count: self.area_count,
            areas: areas_view(self.areas@),
        }
    }
}

impl BasicConfig {
    pub fn new(
        output_channel: u8,
        self_check_active_state: u8,
        pulse_active_state: u8,
        pulse_output_mode: u8,
        pulse_pin_mode: u8,
        pulse_pin_channel: u8,
        start_angle: u16,
        finish_angle: u16,
        min_distance: u8,
        max_distance: u8,
        object_size: u8,
        area_count: u8,
        areas: Vec<UserArea>,
    ) -> (config: Self)
        ensures
            config@ == (BasicConfigView {
                output_channel,
                self_check_active_state,
                pulse_active_state,
                pulse_output_mode,
                pulse_pin_mode,
                pulse_pin_channel,
                start_angle,
                finish_angle,
                min_distance,
                max_distance,
                object_size,
                area_count,
                areas: areas_view(areas@),
            }),
    {
        Self {
            output_channel,
            self_check_active_state,
            pulse_active_state,
            pulse_output_mode,
            pulse_pin_mode,
            pulse_pin_channel,
            start_angle,
            finish_angle,
            min_distance,
            max_distance,
            object_size,
            area_count,
            areas,
        }
    }
}

/// What a version report is in contracts.
pub struct VersionInfoView {
    pub firmware_version: Seq<u8>,
    pub hardware_version: Seq<u8>,
    pub end_target: u8,
}

/// The versions of a device's firmware and hardware, and what it was installed for.
#[derive(Debug, Clone, Copy, PartialEq, Eq)]
pub struct VersionInfo {
    pub firmware_version: [u8; 3],
    pub hardware_version: [u8; 3],
    pub end_target: u8,
}

impl View for VersionInfo {
    type V = VersionInfoView;

    open spec fn view(&self) -> VersionInfoView {
        VersionInfoView {
            firmware_version: self.firmware_version@,
            hardware_version: self.hardware_version@,
            end_target: self.end_target,
        }
    }
}

impl VersionInfo {
    pub fn new(firmware_version: [u8; 3], hardware_version: [u8; 3], end_target: u8) -> (info: Self)
        ensures
            info@ == (VersionInfoView {
                firmware_version: firmware_version@,
                hardware_version: hardware_version@,
                end_target,
            }),
    {
        Self { firmware_version, hardware_version, end_target }
    }
}

/// What a report of the network source is in contracts.
pub struct NetworkSourceInfoView {
    pub ip_address: Seq<u8>,
    pub mac_address: Seq<u8>,
    pub subnet_mask: Seq<u8>,
    pub gateway: Seq<u8>,
    pub port: u16,
}

/// The network settings of the device itself.
#[derive(Debug, Clone, Copy, PartialEq, Eq)]
pub struct NetworkSourceInfo {
    pub ip_address: [u8; 4],
    pub mac_address: [u8; 6],
    pub subnet_mask: [u8; 4],
    pub gateway: [u8; 4],
    pub port: u16,
}

impl View for NetworkSourceInfo {
    type V = NetworkSourceInfoView;

    open spec fn view(&self) -> NetworkSourceInfoView {
        NetworkSourceInfoView {
            ip_address: self.ip_address@,
            mac_address: self.mac_address@,
            subnet_mask: self.subnet_mask@,
            gateway: self.gateway@,
            port: self.port,
        }
    }
}

impl NetworkSourceInfo {
    pub fn new(
        ip_address: [u8; 4],
        mac_address: [u8; 6],
        subnet_mask: [u8; 4],
        gateway: [u8; 4],
        port: u16,
    ) -> (info: Self)
        ensures
            info@ == (NetworkSourceInfoView {
                ip_address: ip_address@,
                mac_address: mac_address@,
                subnet_mask: subnet_mask@,
                gateway: gateway@,
                port,
            }),
    {
        Self { ip_address, mac_address, subnet_mask, gateway, port }
    }
}

/// What a teaching area is in contracts.
pub struct TeachingAreaView {
    pub is_set: u8,
    pub points: Seq<Seq<PolarPoint>>,
}

/// The area that a device was taught: one sweep for each of its channels,
/// or nothing where no area is set.
#[derive(Debug, Clone, PartialEq, Eq)]
pub struct TeachingArea {
    pub is_set: u8,
    pub points: Vec<Vec<PolarPoint>>,
}

/// The sweeps of a list, each as it is in contracts.
pub open spec fn sweeps_view(sweeps: Seq<Vec<PolarPoint>>) -> Seq<Seq<PolarPoint>> {
    sweeps.map_values(|s: Vec<PolarPoint>| s@)
}

impl View for TeachingArea {
    type V = TeachingAreaView;

    open spec fn view(&self) -> TeachingAreaView {
        TeachingAreaView { is_set: self.is_set, points: sweeps_view(self.points@) }
    }
}

impl TeachingArea {
    pub fn new(is_set: u8, points: Vec<Vec<PolarPoint>>) -> (area: Self)
        ensures
            area@ == (TeachingAreaView { is_set, points: sweeps_view(points@) }),
    {
        Self { is_set, points }
    }
}

/// The address that a device sends its data to.
#[derive(Debug, Clone, Copy, PartialEq, Eq)]
pub struct NetworkDestinationIP {
    pub ip_address: [u8; 4],
}

impl View for NetworkDestinationIP {
    type V = Seq<u8>;

    open spec fn view(&self) -> Seq<u8> {
        self.ip_address@
    }
}

impl NetworkDestinationIP {
    pub fn new(ip_address: [u8; 4]) -> (ip: Self)
        ensures
            ip@ == ip_address@,
    {
        Self { ip_address }
    }
}

/// The speed of the motor.
#[derive(Debug, Clone, Copy, PartialEq, Eq, Structural)]
pub struct MotorSpeed {
    pub speed: u8,
}

impl MotorSpeed {
    pub fn new(speed: u8) -> (m: Self)
        ensures
            m.speed == speed,
    {
        Self { speed }
    }
}

/// What the three warning zones are in contracts.
pub struct WarningAreaView {
    pub danger_area: Seq<u8>,
    pub warning_area: Seq<u8>,
    pub caution_area: Seq<u8>,
}

/// The three warning zones: danger, warning and caution.
#[derive(Debug, Clone, Copy, PartialEq, Eq)]
pub struct WarningArea {
    pub danger_area: [u8; 2],
    pub warning_area: [u8; 2],
    pub caution_area: [u8; 2],
}

impl View for WarningArea {
    type V = WarningAreaView;

    open spec fn view(&self) -> WarningAreaView {
        WarningAreaView {
            danger_area: self.danger_area@,
            warning_area: self.warning_area@,
            caution_area: self.caution_area@,
        }
    }
}

impl WarningArea {
    pub fn new(danger_area: [u8; 2], warning_area: [u8; 2], caution_area: [u8; 2]) -> (area: Self)
        ensures
            area@ == (WarningAreaView {
                danger_area: danger_area@,
                warning_area: warning_area@,
                caution_area: caution_area@,
            }),
    {
        Self { danger_area, warning_area, caution_area }
    }
}

/// The setting of the fog filter.
#[derive(Debug, Clone, Copy, PartialEq, Eq, Structural)]
pub struct FogFilter {
    pub filter_value: u8,
}

impl FogFilter {
    pub fn new(filter_value: u8) -> (f: Self)
        ensures
            f.filter_value == filter_value,
    {
        Self { filter_value }
    }
}

/// The setting of the radius filter.
#[derive(Debug, Clone, Copy, PartialEq, Eq, Structural)]
pub struct RadiusFilter {
    pub filter_value: u8,
}

impl RadiusFilter {
    pub fn new(filter_value: u8) -> (f: Self)
        ensures
            f.filter_value == filter_value,
    {
        Self { filter_value }
    }
}

/// The largest distance at which the radius filter works.
#[derive(Debug, Clone, Copy, PartialEq, Eq, Structural)]
pub struct RadiusFilterMaxDistance {
    pub max_distance: u8,
}

impl RadiusFilterMaxDistance {
    pub fn new(max_distance: u8) -> (f: Self)
        ensures
            f.max_distance == max_distance,
    {
        Self { max_distance }
    }
}

/// How a device looks for dirt on its window.
#[derive(Debug, Clone, Copy, PartialEq, Eq, Structural)]
pub struct WindowContaminationDetectionMode {
    pub mode: u8,
}

impl WindowContaminationDetectionMode {
    pub fn new(mode: u8) -> (m: Self)
        ensures
            m.mode == mode,
    {
        Self { mode }
    }
}

/// The range and the margin with which an area is taught.
#[derive(Debug, Clone, Copy, PartialEq, Eq, Structural)]
pub struct TeachingMode {
    pub range: u8,
    pub margin: u8,
}

impl TeachingMode {
    pub fn new(range: u8, margin: u8) -> (m: Self)
        ensures
            m.range == range,
            m.margin == margin,
    {
        Self { range, margin }
    }
}

/// The smallest distance at which the radius filter works.
#[derive(Debug, Clone, Copy, PartialEq, Eq, Structural)]
pub struct RadiusFilterMinDistance {
    pub min_distance: u8,
}

impl RadiusFilterMinDistance {
    pub fn new(min_distance: u8) -> (f: Self)
        ensures
            f.min_distance == min_distance,
    {
        Self { min_distance }
    }
}

/// The acknowledgement of a command.
#[derive(Debug, Clone, Copy, PartialEq, Eq, Structural)]
pub struct Ack {
    pub ack_code: u8,
}

impl Ack {
    pub fn new(ack_code: u8) -> (a: Self)
        ensures
            a.ack_code == ack_code,
    {
        Self { ack_code }
    }
}

/// What a configuration record is in contracts.
pub enum ConfigRecord {
    BasicConfig(BasicConfigView),
    VersionInfo(VersionInfoView),
    NetworkSourceInfo(NetworkSourceInfoView),
    TeachingArea(TeachingAreaView),
    NetworkDestinationIP(Seq<u8>),
    MotorSpeed(MotorSpeed),
    WarningArea(WarningAreaView),
    FogFilter(FogFilter),
    RadiusFilter(RadiusFilter),
    RadiusFilterMaxDistance(RadiusFilterMaxDistance),
    WindowContaminationDetectionMode(WindowContaminationDetectionMode),
    TeachingMode(TeachingMode),
    RadiusFilterMinDistance(RadiusFilterMinDistance),
    Ack(Ack),
    Nak(u8),
}

/// A configuration record: exactly one of these comes out of a configuration frame.
#[derive(Debug, Clone, PartialEq, Eq)]
pub enum KMConfigData {
    BasicConfig(BasicConfig),
    VersionInfo(VersionInfo),
    NetworkSourceInfo(NetworkSourceInfo),
    TeachingArea(TeachingArea),
    NetworkDestinationIP(NetworkDestinationIP),
    MotorSpeed(MotorSpeed),
    WarningArea(WarningArea),
    FogFilter(FogFilter),
    RadiusFilter(RadiusFilter),
    RadiusFilterMaxDistance(RadiusFilterMaxDistance),
    WindowContaminationDetectionMode(WindowContaminationDetectionMode),
    TeachingMode(TeachingMode),
    RadiusFilterMinDistance(RadiusFilterMinDistance),
    Ack(Ack),
    Nak(u8),
}

impl View for KMConfigData {
    type V = ConfigRecord;

    open spec fn view(&self) -> ConfigRecord {
        match self {
            KMConfigData::BasicConfig(c) => ConfigRecord::BasicConfig(c@),
            KMConfigData::VersionInfo(c) => ConfigRecord::VersionInfo(c@),
            KMConfigData::NetworkSourceInfo(c) => ConfigRecord::NetworkSourceInfo(c@),
            KMConfigData::TeachingArea(c) => ConfigRecord::TeachingArea(c@),
            KMConfigData::NetworkDestinationIP(c) => ConfigRecord::NetworkDestinationIP(c@),
            KMConfigData::MotorSpeed(c) => ConfigRecord::MotorSpeed(*c),
            KMConfigData::WarningArea(c) => ConfigRecord::WarningArea(c@),
            KMConfigData::FogFilter(c) => ConfigRecord::FogFilter(*c),
            KMConfigData::RadiusFilter(c) => ConfigRecord::RadiusFilter(*c),
            KMConfigData::RadiusFilterMaxDistance(c) => ConfigRecord::RadiusFilterMaxDistance(*c),
            KMConfigData::WindowContaminationDetectionMode(c) => {
                ConfigRecord::WindowContaminationDetectionMode(*c)
            },
            KMConfigData::TeachingMode(c) => ConfigRecord::TeachingMode(*c),
            KMConfigData::RadiusFilterMinDistance(c) => ConfigRecord::RadiusFilterMinDistance(*c),
            KMConfigData::Ack(c) => ConfigRecord::Ack(*c),
            KMConfigData::Nak(code) => ConfigRecord::Nak(*code),
        }
    }
}

} // verus!
