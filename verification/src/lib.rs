//! Gateway core for LiDAR sensors that speak a framed binary protocol over UDP.
//!
//! The library reassembles datagrams into frames, decodes frames into typed
//! records, seals frames into envelopes that cross the relay channels, and
//! decides which dashboard sessions a decoded record is delivered to.  Every
//! function is verified against the contract written on it.

pub mod codec;
pub mod config;
pub mod coordinate;
pub mod encode;
pub mod envelope;
pub mod error;
pub mod frame;
pub mod geometry;
pub mod identity;
pub mod key;
pub mod message;
pub mod parser;
pub mod reassembly;
pub mod registry;
pub mod round_trip;
pub mod server;
pub mod udp_handler;
pub mod ws_handler;
pub mod ws_message;
