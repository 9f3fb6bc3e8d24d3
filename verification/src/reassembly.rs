//! Gathering the datagrams of many devices into frames.
//!
//! Each device has a buffer of its own, found by the key of its address and
//! port.  What happens to a buffer when a datagram arrives is told by
//! [`spec_step`]; the buffers of other devices are not touched.

use crate::envelope::{spec_open, spec_seal};
use crate::frame::{accumulate, spec_progress, spec_step, Progress};
use crate::key::{spec_key, spec_key_port, LiDARChannelData, LiDARKey};
use std::collections::HashMap;
use vstd::prelude::*;

verus! {

/// The group that commands to devices are sent to.
pub const MULTICAST_GROUP: [u8; 4] = [224, 0, 0, 5];

/// The buffers of all devices that have sent anything.
pub struct Reassembler {
    channel_data: HashMap<u64, Vec<u8>>,
}

/// What a frame that may be absent is in contracts.
pub open spec fn opt_bytes(bytes: Option<Vec<u8>>) -> Option<Seq<u8>> {
    match bytes {
        Some(b) => Some(b@),
        None => None,
    }
}

impl Reassembler {
    /// The bytes gathered for the device with key `key`.
    pub closed spec fn gathered(&self, key: u64) -> Seq<u8> {
        if self.channel_data@.contains_key(key) {
            self.channel_data@[key]@
        } else {
            Seq::empty()
        }
    }

    /// A reassembler that has gathered nothing.
    pub fn new() -> (r: Self)
        ensures
            forall|key: u64| #[trigger] r.gathered(key) == Seq::<u8>::empty(),
    {
        Self { channel_data: HashMap::new() }
    }

    /// The number of bytes gathered for a device.
    pub fn pending(&self, key: LiDARKey) -> (n: usize)
        ensures
            n == self.gathered(key.key).len(),
    {
        broadcast use vstd::std_specs::hash::group_hash_axioms;

        match self.channel_data.get(&key.key) {
            Some(buffer) => buffer.len(),
            None => 0,
        }
    }

    /// Takes a datagram of the device with key `key`.  Returns how far the
    /// bytes of that device have come, and the frame if they completed one.
    pub fn push(&mut self, key: LiDARKey, datagram: &[u8]) -> (r: (Progress, Option<LiDARChannelData>))
        ensures
            r.0 == spec_progress(old(self).gathered(key.key) + datagram@),
            (final(self).gathered(key.key), match r.1 {
                Some(frame) => Some(frame.raw_data@),
                None => None,
            }) == spec_step(old(self).gathered(key.key), datagram@),
            r.1 matches Some(frame) ==> frame.key == key,
            forall|other: u64|
                other != key.key ==> #[trigger] final(self).gathered(other) == old(self).gathered(
                    other,
                ),
    {
        broadcast use vstd::std_specs::hash::group_hash_axioms;

        let mut buffer = match self.channel_data.remove(&key.key) {
            Some(buffer) => buffer,
            None => Vec::new(),
        };
        let (state, frame) = accumulate(&mut buffer, datagram);
        self.channel_data.insert(key.key, buffer);
        match frame {
            Some(raw_data) => (state, Some(LiDARChannelData::new(key, raw_data))),
            None => (state, None),
        }
    }

    /// Takes a datagram that came from `ip`:`port`.  Returns the envelope of
    /// the frame if the datagram completed one.
    pub fn receive(&mut self, ip: [u8; 4], port: u16, datagram: &[u8]) -> (envelope: Option<Vec<u8>>)
        ensures
            ({
                let key = spec_key(ip@, port) as u64;
                let step = spec_step(old(self).gathered(key), datagram@);
                &&& final(self).gathered(key) == step.0
                &&& opt_bytes(envelope) == match step.1 {
                    Some(frame) => Some(spec_seal(key, frame)),
                    None => None,
                }
                &&& forall|other: u64|
                    other != key ==> #[trigger] final(self).gathered(other) == old(self).gathered(
                        other,
                    )
            }),
    {
        let key = LiDARKey::new(ip, port);
        let (_, frame) = self.push(key, datagram);
        match frame {
            Some(channel_data) => Some(channel_data.seal()),
            None => None,
        }
    }
}

/// What is sent to the devices: a frame for the port of the device it is
/// meant for, sent to the multicast group.
#[derive(Debug, Clone, PartialEq, Eq)]
pub struct Datagram {
    pub group: [u8; 4],
    pub port: u16,
    pub payload: Vec<u8>,
}

/// Turns an envelope that came from the session side into the datagram to
/// send; `None` where `envelope` opens with no envelope.
pub fn outgoing(envelope: &[u8]) -> (datagram: Option<Datagram>)
    ensures
        match spec_open(envelope@) {
            Some((key, raw)) => datagram matches Some(d) && d.group@ == seq![224u8, 0u8, 0u8, 5u8]
                && d.port == spec_key_port(key) && d.payload@ == raw,
            None => datagram is None,
        },
{
    match LiDARChannelData::open(envelope) {
        Some(channel_data) => {
            let group = MULTICAST_GROUP;
            assert(group@ =~= seq![224u8, 0u8, 0u8, 5u8]);
            Some(Datagram { group, port: channel_data.key.get_port(), payload: channel_data.raw_data })
        },
        None => None,
    }
}

} // verus!
