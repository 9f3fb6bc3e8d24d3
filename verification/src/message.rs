//! The messages exchanged with dashboard sessions.

use crate::config::{ConfigRecord, KMConfigData};
use crate::geometry::{PointCloudData, PointCloudDataView};
use crate::identity::{opt_identity, DeviceIdentity, LiDARInfo};
use vstd::prelude::*;
use vstd::string::StringExecFns;

verus! {

/// The command that asks for something.
pub const GET: &'static str = "get";

/// The command that changes something.
pub const SET: &'static str = "set";

/// The status of a request that was carried out.
pub const SUCCESS: &'static str = "success";

/// The status of a request that was refused, and of a device's refusal.
pub const ERROR: &'static str = "error";

/// The status of an outcome that is still to come.
pub const NONE: &'static str = "none";

/// The request type that records which device a session listens to.
pub const REGISTER_LIDAR: &'static str = "register_lidar";

/// The request type that asks which devices are there.
pub const LIDAR_LIST: &'static str = "lidar_list";

/// The request type that resets a device's configuration.
pub const RESET_CONFIG: &'static str = "reset_config";

/// The request type that asks for a device's basic configuration.
pub const BASIC_CONFIG: &'static str = "basic_config";

/// What the data of a response is in contracts.
pub enum ResponseDataView {
    Config(ConfigRecord),
    PointCloud(PointCloudDataView),
    LidarList(Seq<DeviceIdentity>),
}

/// What a response carries besides its status.
#[derive(Debug, Clone, PartialEq, Eq)]
pub enum ResponseData {
    /// A configuration record that a device reported.
    Config(KMConfigData),
    /// The points of one point-cloud frame.
    PointCloud(PointCloudData),
    /// The devices that were seen.
    LidarList(Vec<LiDARInfo>),
}

/// The identities of a list, each as it is in contracts.
pub open spec fn identities(list: Seq<LiDARInfo>) -> Seq<DeviceIdentity> {
    list.map_values(|i: LiDARInfo| i@)
}

impl View for ResponseData {
    type V = ResponseDataView;

    open spec fn view(&self) -> ResponseDataView {
        match self {
            ResponseData::Config(c) => ResponseDataView::Config(c@),
            ResponseData::PointCloud(p) => ResponseDataView::PointCloud(p@),
            ResponseData::LidarList(l) => ResponseDataView::LidarList(identities(l@)),
        }
    }
}

/// What a response is in contracts.
pub struct ResponseView {
    pub lidar_info: Option<DeviceIdentity>,
    pub status: Seq<char>,
    pub message: Seq<char>,
    pub data: Option<ResponseDataView>,
}

/// What is sent to a session: the answer to its request, or what a device reported.
#[derive(Debug, Clone, PartialEq, Eq)]
pub struct ResponseMessage {
    /// The device that the response is about, if it is about one.
    pub lidar_info: Option<LiDARInfo>,
    pub status: String,
    pub message: String,
    pub data: Option<ResponseData>,
}

impl View for ResponseMessage {
    type V = ResponseView;

    open spec fn view(&self) -> ResponseView {
        ResponseView {
            lidar_info: opt_identity(self.lidar_info),
            status: self.status@,
            message: self.message@,
            data: match self.data {
                Some(d) => Some(d@),
                None => None,
            },
        }
    }
}

impl ResponseMessage {
    /// The response that says nothing: no device, no status, no message, no data.
    pub open spec fn spec_new() -> ResponseView {
        ResponseView { lidar_info: None, status: Seq::empty(), message: Seq::empty(), data: None }
    }

    pub fn new() -> (res: Self)
        ensures
            res@ == Self::spec_new(),
    {
        Self { lidar_info: None, status: String::new(), message: String::new(), data: None }
    }

    /// The response with the given status and message about `lidar_info`.
    pub fn with(
        lidar_info: Option<LiDARInfo>,
        status: &str,
        message: &str,
        data: Option<ResponseData>,
    ) -> (res: Self)
        ensures
            res@ == (ResponseView {
                lidar_info: opt_identity(lidar_info),
                status: status@,
                message: message@,
                data: match data {
                    Some(d) => Some(d@),
                    None => None,
                },
            }),
    {
        Self {
            lidar_info,
            status: String::from_str(status),
            message: String::from_str(message),
            data,
        }
    }
}

/// What a request carries besides its type.
#[derive(Debug, Clone, PartialEq, Eq)]
pub enum RequestData {
    /// A basic configuration to be set.
    BasicConfig(crate::config::BasicConfig),
    /// Data of a shape that the library does not know.
    Other,
}

/// What a session asks for.
#[derive(Debug, Clone, PartialEq, Eq)]
pub struct RequestMessage {
    /// The device that the request is about, where the session named one well.
    pub lidar_info: Option<LiDARInfo>,
    /// Either [`GET`] or [`SET`].
    pub command: String,
    /// What to get or set.
    pub request_type: String,
    pub data: Option<RequestData>,
}

impl RequestMessage {
    pub fn new() -> (req: Self)
        ensures
            req.lidar_info is None,
            req.command@ == Seq::<char>::empty(),
            req.request_type@ == Seq::<char>::empty(),
            req.data is None,
    {
        Self {
            lidar_info: None,
            command: String::new(),
            request_type: String::new(),
            data: None,
        }
    }
}

/// Tells whether `text` is the word `word`.
pub fn is_word(text: &String, word: &str) -> (b: bool)
    ensures
        b == (text@ == word@),
{
    let w = String::from_str(word);
    *text == w
}

} // verus!
