//! The plain request and response messages, and the handler that answers
//! requests that need no device.

use crate::message::{is_word, RequestData, ResponseData, ResponseDataView};
use vstd::prelude::*;
use vstd::string::StringExecFns;

verus! {

/// The type of a request about the basic configuration.
pub const BASIC_CONFIG: &'static str = "basic_config";

/// The type of a request about the versions.
pub const VERSION_INFO: &'static str = "version_info";

/// The type of a request about the network source.
pub const NETWORK_SOURCE_INFO: &'static str = "network_source_info";

/// The type of a request about the teaching area.
pub const TEACHING_AREA: &'static str = "teaching_area";

/// The type of a request about the network destination.
pub const NETWORK_DESTINATION_IP: &'static str = "network_destination_ip";

/// The type of a request about the motor speed.
pub const MOTOR_SPEED: &'static str = "motor_speed";

/// The type of a request about the warning areas.
pub const WARNING_AREA: &'static str = "warning_area";

/// The type of a request about the fog filter.
pub const FOG_FILTER: &'static str = "fog_filter";

/// The type of a request about the radius filter.
pub const RADIUS_FILTER: &'static str = "radius_filter";

/// The type of a request about the largest distance of the radius filter.
pub const RADIUS_FILTER_MAX_DISTANCE: &'static str = "radius_filter_max_distance";

/// The type of a request about the detection of dirt on the window.
pub const WINDOW_CONTAMINATION_DETECTION_MODE: &'static str =
    "window_contamination_detection_mode";

/// The type of a request about the teaching mode.
pub const TEACHING_MODE: &'static str = "teaching_mode";

/// The type of a request about the smallest distance of the radius filter.
pub const RADIUS_FILTER_MIN_DISTANCE: &'static str = "radius_filter_min_distance";

/// What is to be got or set, and with what.
#[derive(Debug, Clone, PartialEq, Eq)]
pub struct RequestParams {
    pub request_type: String,
    pub data: Option<RequestData>,
}

/// A request: a command and what it applies to.
#[derive(Debug, Clone, PartialEq, Eq)]
pub struct RequestMessage {
    pub command: String,
    pub params: RequestParams,
}

/// What a plain response is in contracts.
pub struct PlainResponse {
    pub status: Seq<char>,
    pub message: Seq<char>,
    pub data: Option<ResponseDataView>,
}

/// A response: a status, a message for a reader, and data.
#[derive(Debug, Clone, PartialEq, Eq)]
pub struct ResponseMessage {
    pub status: String,
    pub message: String,
    pub data: Option<ResponseData>,
}

impl View for ResponseMessage {
    type V = PlainResponse;

    open spec fn view(&self) -> PlainResponse {
        PlainResponse {
            status: self.status@,
            message: self.message@,
            data: match self.data {
                Some(d) => Some(d@),
                None => None,
            },
        }
    }
}

/// The response that tells of a success.
pub open spec fn spec_success(data: Option<ResponseDataView>) -> PlainResponse {
    PlainResponse { status: "success"@, message: ""@, data }
}

/// The response that tells of an error.
pub open spec fn spec_error(message: Seq<char>) -> PlainResponse {
    PlainResponse { status: "error"@, message, data: None }
}

impl ResponseMessage {
    pub fn success(data: Option<ResponseData>) -> (res: Self)
        ensures
            res@ == spec_success(
                match data {
                    Some(d) => Some(d@),
                    None => None,
                },
            ),
    {
        Self { status: String::from_str("success"), message: String::from_str(""), data }
    }

    pub fn error(message: String) -> (res: Self)
        ensures
            res@ == spec_error(message@),
    {
        Self { status: String::from_str("error"), message, data: None }
    }
}

/// The answer to the request with the given command, type and data.
///
/// The versions can be got and a basic configuration can be set; setting
/// one needs the configuration as data.  Everything else is an error that
/// names what was not known.
pub open spec fn spec_answer(command: Seq<char>, request_type: Seq<char>, data: Option<RequestData>)
    -> PlainResponse {
    if command == "get"@ {
        if request_type == "version_info"@ {
            spec_success(None)
        } else {
            spec_error("Unknown type: "@ + request_type)
        }
    } else if command == "set"@ {
        if request_type == "basic_config"@ {
            match data {
                Some(RequestData::BasicConfig(_)) => spec_success(None),
                Some(RequestData::Other) => spec_error("Invalid basic config format"@),
                None => spec_error("Missing data for basic config"@),
            }
        } else {
            spec_error("Unknown type: "@ + request_type)
        }
    } else {
        spec_error("Unknown command: "@ + command)
    }
}

/// Answers the requests that need no device.
#[derive(Debug, Clone, Copy)]
pub struct MessageHandler;

impl MessageHandler {
    /// Answers one request.
    pub fn handle_message(&self, msg: RequestMessage) -> (res: ResponseMessage)
        ensures
            res@ == spec_answer(msg.command@, msg.params.request_type@, msg.params.data),
    {
        proof {
            reveal_strlit("get");
            reveal_strlit("set");
            assert("set"@[0] == 's' && "get"@[0] == 'g');
        }
        if is_word(&msg.command, "get") {
            self.handle_get(msg.params)
        } else if is_word(&msg.command, "set") {
            self.handle_set(msg.params)
        } else {
            ResponseMessage::error(
                String::from_str("Unknown command: ").concat(msg.command.as_str()),
            )
        }
    }

    fn handle_get(&self, params: RequestParams) -> (res: ResponseMessage)
        ensures
            res@ == spec_answer("get"@, params.request_type@, params.data),
    {
        if is_word(&params.request_type, VERSION_INFO) {
            ResponseMessage::success(None)
        } else {
            ResponseMessage::error(
                String::from_str("Unknown type: ").concat(params.request_type.as_str()),
            )
        }
    }

    fn handle_set(&self, params: RequestParams) -> (res: ResponseMessage)
        ensures
            res@ == spec_answer("set"@, params.request_type@, params.data),
    {
        proof {
            reveal_strlit("get");
            reveal_strlit("set");
            assert("set"@[0] == 's' && "get"@[0] == 'g');
        }
        if is_word(&params.request_type, BASIC_CONFIG) {
            match params.data {
                Some(RequestData::BasicConfig(_)) => ResponseMessage::success(None),
                Some(RequestData::Other) => ResponseMessage::error(
                    String::from_str("Invalid basic config format"),
                ),
                None => ResponseMessage::error(String::from_str("Missing data for basic config")),
            }
        } else {
            ResponseMessage::error(
                String::from_str("Unknown type: ").concat(params.request_type.as_str()),
            )
        }
    }
}

} // verus!
