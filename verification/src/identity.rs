//! Device identities: where a device is and which device it is.

use vstd::prelude::*;

verus! {

/// What an identity is in contracts.
pub struct DeviceIdentity {
    pub address: (u8, u8, u8, u8),
    pub port: u16,
    pub product_line: u8,
    pub lidar_id: u8,
}

/// The identity of one device: its network location, its product line and
/// its id.  Decoded records are routed by it and commands are addressed with it.
#[derive(Debug, Clone, Copy, Hash)]
pub struct LiDARInfo {
    pub ip: [u8; 4],
    pub port: u16,
    pub product_line: u8,
    pub lidar_id: u8,
}

impl View for LiDARInfo {
    type V = DeviceIdentity;

    open spec fn view(&self) -> DeviceIdentity {
        DeviceIdentity {
            address: (self.ip@[0], self.ip@[1], self.ip@[2], self.ip@[3]),
            port: self.port,
            product_line: self.product_line,
            lidar_id: self.lidar_id,
        }
    }
}

impl LiDARInfo {
    pub fn new(ip: [u8; 4], port: u16, product_line: u8, lidar_id: u8) -> (info: Self)
        ensures
            info.ip@ == ip@,
            info.port == port,
            info.product_line == product_line,
            info.lidar_id == lidar_id,
    {
        Self { ip, port, product_line, lidar_id }
    }
}

impl PartialEq for LiDARInfo {
    fn eq(&self, other: &Self) -> (r: bool) {
        self.ip[0] == other.ip[0] && self.ip[1] == other.ip[1] && self.ip[2] == other.ip[2]
            && self.ip[3] == other.ip[3] && self.port == other.port && self.product_line
            == other.product_line && self.lidar_id == other.lidar_id
    }
}

impl Eq for LiDARInfo {

}

impl vstd::std_specs::cmp::PartialEqSpecImpl for LiDARInfo {
    open spec fn obeys_eq_spec() -> bool {
        true
    }

    /// Two identities are equal when every part is.
    open spec fn eq_spec(&self, other: &Self) -> bool {
        self@ == other@
    }
}

/// What an identity that may be absent is in contracts.
pub open spec fn opt_identity(info: Option<LiDARInfo>) -> Option<DeviceIdentity> {
    match info {
        Some(i) => Some(i@),
        None => None,
    }
}

} // verus!
