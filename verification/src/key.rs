//! Device keys: a source address and port packed into one integer.

use vstd::prelude::*;

verus! {

/// The number a source address and port are packed into: the four octets in
/// the high 32 bits of a 48-bit value, the port in the low 16.
pub open spec fn spec_key(ip: Seq<u8>, port: u16) -> int {
    ip[0] as int * 0x100_0000_0000 + ip[1] as int * 0x1_0000_0000 + ip[2] as int * 0x100_0000
        + ip[3] as int * 0x1_0000 + port as int
}

/// The octet of `key` whose lowest bit has the value `scale`.
pub open spec fn spec_octet(key: u64, scale: int) -> int {
    (key as int / scale) % 256
}

/// The address packed into `key`.
pub open spec fn spec_key_ip(key: u64) -> Seq<u8> {
    seq![
        spec_octet(key, 0x100_0000_0000) as u8,
        spec_octet(key, 0x1_0000_0000) as u8,
        spec_octet(key, 0x100_0000) as u8,
        spec_octet(key, 0x1_0000) as u8,
    ]
}

/// The port packed into `key`.
pub open spec fn spec_key_port(key: u64) -> u16 {
    (key as int % 0x1_0000) as u16
}

/// Identifies the source of a datagram, and addresses a command sent back.
#[derive(Debug, Clone, Copy, PartialEq, Eq, Hash, Structural)]
pub struct LiDARKey {
    pub key: u64,
}

impl LiDARKey {
    /// The key of the device at `ip`:`port`.
    pub fn new(ip: [u8; 4], port: u16) -> (k: Self)
        ensures
            k.key == spec_key(ip@, port),
    {
        Self { key: Self::create_key(ip, port) }
    }

    /// The address the key was made from.
    pub fn get_ip(&self) -> (ip: [u8; 4])
        ensures
            ip@ == spec_key_ip(self.key),
    {
        let key = self.key;
        let ip_bytes = [
            ((key >> 40) & 0xFF) as u8,
            ((key >> 32) & 0xFF) as u8,
            ((key >> 24) & 0xFF) as u8,
            ((key >> 16) & 0xFF) as u8,
        ];
        assert((key >> 40) & 0xFF == (key / 0x100_0000_0000) % 256) by (bit_vector);
        assert((key >> 32) & 0xFF == (key / 0x1_0000_0000) % 256) by (bit_vector);
        assert((key >> 24) & 0xFF == (key / 0x100_0000) % 256) by (bit_vector);
        assert((key >> 16) & 0xFF == (key / 0x1_0000) % 256) by (bit_vector);
        assert(ip_bytes@ =~= spec_key_ip(key));
        ip_bytes
    }

    /// The port the key was made from.
    pub fn get_port(&self) -> (port: u16)
        ensures
            port == spec_key_port(self.key),
    {
        let key = self.key;
        assert(key & 0xFFFF == key % 0x1_0000) by (bit_vector);
        (key & 0xFFFF) as u16
    }

    fn create_key(ip: [u8; 4], port: u16) -> (key: u64)
        ensures
            key == spec_key(ip@, port),
    {
        let a = ip[0];
        let b = ip[1];
        let c = ip[2];
        let d = ip[3];
        assert(((a as u64) << 40) | ((b as u64) << 32) | ((c as u64) << 24) | ((d as u64) << 16) | (
        port as u64) == (a as u64) * 0x100_0000_0000 + (b as u64) * 0x1_0000_0000 + (c as u64)
            * 0x100_0000 + (d as u64) * 0x1_0000 + (port as u64)) by (bit_vector);
        ((a as u64) << 40) | ((b as u64) << 32) | ((c as u64) << 24) | ((d as u64) << 16) | (
        port as u64)
    }
}

/// A key gives back the address and the port it was made from, and fits in 48 bits.
pub proof fn lemma_key_round_trip(ip: Seq<u8>, port: u16)
    requires
        ip.len() == 4,
    ensures
        0 <= spec_key(ip, port) < 0x1_0000_0000_0000,
        spec_key_ip(spec_key(ip, port) as u64) == ip,
        spec_key_port(spec_key(ip, port) as u64) == port,
{
    let a = ip[0];
    let b = ip[1];
    let c = ip[2];
    let d = ip[3];
    let k: u64 = (a as u64 * 0x100_0000_0000 + b as u64 * 0x1_0000_0000 + c as u64 * 0x100_0000
        + d as u64 * 0x1_0000 + port as u64) as u64;
    assert(k == spec_key(ip, port));
    assert(k / 0x100_0000_0000 % 256 == a && k / 0x1_0000_0000 % 256 == b && k / 0x100_0000 % 256
        == c && k / 0x1_0000 % 256 == d && k % 0x1_0000 == port) by (bit_vector)
        requires
            k == a as u64 * 0x100_0000_0000 + b as u64 * 0x1_0000_0000 + c as u64 * 0x100_0000
                + d as u64 * 0x1_0000 + port as u64,
    ;
    assert(spec_key_ip(k) =~= ip);
}

/// Two sources share a key only if they share address and port.
pub proof fn lemma_key_unique(ip1: Seq<u8>, port1: u16, ip2: Seq<u8>, port2: u16)
    requires
        ip1.len() == 4,
        ip2.len() == 4,
        spec_key(ip1, port1) == spec_key(ip2, port2),
    ensures
        ip1 == ip2,
        port1 == port2,
{
    lemma_key_round_trip(ip1, port1);
    lemma_key_round_trip(ip2, port2);
}

/// The bytes of one frame, in flight or complete, with the key of the device
/// they belong to.
#[derive(Debug, Clone, PartialEq, Eq)]
pub struct LiDARChannelData {
    pub key: LiDARKey,
    pub raw_data: Vec<u8>,
}

impl LiDARChannelData {
    pub fn new(key: LiDARKey, raw_data: Vec<u8>) -> (c: Self)
        ensures
            c.key == key,
            c.raw_data == raw_data,
    {
        Self { key, raw_data }
    }
}

impl View for LiDARChannelData {
    type V = (u64, Seq<u8>);

    open spec fn view(&self) -> (u64, Seq<u8>) {
        (self.key.key, self.raw_data@)
    }
}

/// The maker of a device, told by the byte that opens its frames.
#[derive(Debug, Clone, Copy, PartialEq, Eq, Hash, Structural)]
pub enum CompanyInfo {
    KanaviMobility,
    Unknown,
}

impl CompanyInfo {
    /// The maker whose frames open with `sync`.
    pub open spec fn spec_detect(sync: u8) -> CompanyInfo {
        if sync == 0xFA {
            CompanyInfo::KanaviMobility
        } else {
            CompanyInfo::Unknown
        }
    }

    /// Tells the maker of a device from the first byte of what it sent.
    pub fn detect(sync: u8) -> (c: CompanyInfo)
        ensures
            c == Self::spec_detect(sync),
    {
        if sync == 0xFA {
            CompanyInfo::KanaviMobility
        } else {
            CompanyInfo::Unknown
        }
    }
}

impl TryFrom<u8> for CompanyInfo {
    type Error = ();

    /// The maker with the given tag; every tag but 0 is unknown.
    fn try_from(value: u8) -> (r: Result<Self, Self::Error>) {
        match value {
            0 => Ok(CompanyInfo::KanaviMobility),
            _ => Ok(CompanyInfo::Unknown),
        }
    }
}

impl vstd::std_specs::convert::TryFromSpecImpl<u8> for CompanyInfo {
    open spec fn obeys_try_from_spec() -> bool {
        true
    }

    open spec fn try_from_spec(value: u8) -> Result<Self, Self::Error> {
        if value == 0 {
            Ok(CompanyInfo::KanaviMobility)
        } else {
            Ok(CompanyInfo::Unknown)
        }
    }
}

} // verus!
