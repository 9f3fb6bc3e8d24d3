//! Turning the frames of a device into what is sent to sessions.

use crate::codec::{parse_cf, parse_dd, spec_parse_cf, spec_parse_dd};
use crate::config::KMConfigData;
use crate::error::{outcome, LiDARError};
use crate::frame::MODE_NAK;
use crate::geometry::{spec_samples, PointCloudData};
use crate::identity::{DeviceIdentity, LiDARInfo};
use crate::message::{ResponseData, ResponseDataView, ResponseMessage, ResponseView};
use crate::parser::{
    decode_frame, spec_decode_frame, Content, ContentView, KanaviMobilityData,
    KanaviMobilityDataView,
};
use vstd::prelude::*;

verus! {

/// The message of a response to a negative acknowledgement.
pub open spec fn nak() -> Seq<char> {
    "NAK"@
}

/// The response that reports the frame `frame`, sent by the device at
/// `address`:`port`.
///
/// A record or a frame without content is a success, a negative
/// acknowledgement is an error with the message `NAK`, and the points of a
/// sweep come with the status `none`.
pub open spec fn spec_report(address: (u8, u8, u8, u8), port: u16, frame: KanaviMobilityDataView)
    -> ResponseView {
    let lidar_info = Some(
        DeviceIdentity {
            address,
            port,
            product_line: frame.product_line,
            lidar_id: frame.lidar_id,
        },
    );
    if frame.mode == 0xF0 {
        ResponseView { lidar_info, status: "error"@, message: nak(), data: None }
    } else {
        match frame.content {
            ContentView::Config(record) => ResponseView {
                lidar_info,
                status: "success"@,
                message: ""@,
                data: Some(ResponseDataView::Config(record)),
            },
            ContentView::Points(points) => ResponseView {
                lidar_info,
                status: "none"@,
                message: ""@,
                data: Some(ResponseDataView::PointCloud(points)),
            },
            ContentView::Empty => ResponseView {
                lidar_info,
                status: "success"@,
                message: ""@,
                data: None,
            },
        }
    }
}

/// The response to the frame `data` of the device at `address`:`port`, or
/// the reason why the frame gives none.
pub open spec fn spec_handle(address: (u8, u8, u8, u8), port: u16, data: Seq<u8>) -> Result<
    ResponseView,
    Seq<char>,
> {
    match spec_decode_frame(data) {
        Ok(frame) => Ok(spec_report(address, port, frame)),
        Err(e) => Err(e),
    }
}

/// Builds the response that reports a decoded frame.
pub fn report(ip: [u8; 4], port: u16, frame: KanaviMobilityData) -> (res: ResponseMessage)
    ensures
        res@ == spec_report((ip@[0], ip@[1], ip@[2], ip@[3]), port, frame@),
{
    let lidar_info = Some(LiDARInfo::new(ip, port, frame.product_line, frame.lidar_id));
    if frame.mode == MODE_NAK {
        return ResponseMessage::with(lidar_info, "error", "NAK", None);
    }
    match frame.content {
        Content::Config(record) => ResponseMessage::with(
            lidar_info,
            "success",
            "",
            Some(ResponseData::Config(record)),
        ),
        Content::Points(points) => ResponseMessage::with(
            lidar_info,
            "none",
            "",
            Some(ResponseData::PointCloud(points)),
        ),
        Content::Empty => ResponseMessage::with(lidar_info, "success", "", None),
    }
}

/// Decodes the frames of devices for the sessions that listen to them.
#[derive(Debug, Clone, Copy)]
pub struct KanaviUDPHandler;

impl KanaviUDPHandler {
    /// Decodes one complete frame that came from `ip`:`port` into the
    /// response that reports it.
    pub fn parse(&mut self, ip: [u8; 4], port: u16, data: &[u8]) -> (r: Result<
        ResponseMessage,
        LiDARError,
    >)
        ensures
            outcome(r) == spec_handle((ip@[0], ip@[1], ip@[2], ip@[3]), port, data@),
            r matches Ok(res) ==> res.lidar_info matches Some(info) && info.ip@ == ip@ && info.port
                == port && info.product_line == data@[1] && info.lidar_id == data@[2],
    {
        match decode_frame(data) {
            Ok(frame) => {
                let res = report(ip, port, frame);
                Ok(res)
            },
            Err(e) => Err(e),
        }
    }

    /// Decodes the payload of a configuration frame.
    pub fn parse_cf(&mut self, product_line: u8, param: u8, data: &[u8]) -> (r: Result<
        KMConfigData,
        LiDARError,
    >)
        ensures
            outcome(r) == spec_parse_cf(product_line, param, data@),
    {
        parse_cf(product_line, param, data)
    }

    /// Decodes the payload of a point-cloud frame.
    pub fn parse_dd(&mut self, product_line: u8, param: u8, data: &[u8]) -> (r: Result<
        PointCloudData,
        LiDARError,
    >)
        ensures
            outcome(r) == spec_parse_dd(product_line, param, data@),
            r matches Ok(cloud) ==> cloud@.point_cloud.len() == spec_samples(product_line),
    {
        parse_dd(product_line, param, data)
    }
}

} // verus!
