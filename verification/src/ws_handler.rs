//! Carrying out what a session asks for.

use crate::error::LiDARError;
use crate::frame::{encode_frame, spec_frame, MODE_CONFIG};
use crate::identity::{opt_identity, DeviceIdentity, LiDARInfo};
use crate::message::{
    is_word, RequestMessage, ResponseData, ResponseDataView, ResponseMessage, ResponseView,
    BASIC_CONFIG, GET, LIDAR_LIST, REGISTER_LIDAR, SET,
};
use crate::registry::{spec_registered, AppState, AppStateView};
use vstd::prelude::*;

verus! {

/// The parameter of the command that asks a device for its basic configuration.
pub const PARAM_GET_BASIC_CONFIG: u8 = 0x10;

/// The payload of the command that asks a device for its configuration.
pub const GET_PAYLOAD: u8 = 0xED;

/// How long the devices are given to show themselves before the list of
/// devices is answered, in milliseconds.
pub const DEBOUNCE_MS: u64 = 1000;

/// Reason: the message of the session is no request.
pub open spec fn invalid_request() -> Seq<char> {
    "invalid request"@
}

/// Reason: the command is neither `get` nor `set`.
pub open spec fn not_supported_command() -> Seq<char> {
    "not supported request command"@
}

/// Reason: the type is not one that the command knows.
pub open spec fn not_supported_type() -> Seq<char> {
    "not supported request type"@
}

/// Reason: the request names no device, or names it badly.
pub open spec fn invalid_lidar_info() -> Seq<char> {
    "lidar_info is invalid"@
}

/// What a request is in contracts.
pub struct RequestView {
    pub lidar_info: Option<DeviceIdentity>,
    pub command: Seq<char>,
    pub request_type: Seq<char>,
}

impl View for RequestMessage {
    type V = RequestView;

    open spec fn view(&self) -> RequestView {
        RequestView {
            lidar_info: opt_identity(self.lidar_info),
            command: self.command@,
            request_type: self.request_type@,
        }
    }
}

/// What a request that may be absent is in contracts.
pub open spec fn opt_request(request: Option<&RequestMessage>) -> Option<RequestView> {
    match request {
        Some(r) => Some(r@),
        None => None,
    }
}

/// What a step is in contracts.
pub enum StepView {
    Done(ResponseView, Seq<u8>),
    Wait(u64),
}

/// What is to be done after a request was looked at.
#[derive(Debug, Clone, PartialEq, Eq)]
pub enum Step {
    /// The answer, and the frame to send to the device that the answer is
    /// about; the frame is empty where nothing is to be sent.
    Done(ResponseMessage, Vec<u8>),
    /// Wait for so many milliseconds, then answer with the devices that
    /// were seen in the meantime.
    Wait(u64),
}

impl View for Step {
    type V = StepView;

    open spec fn view(&self) -> StepView {
        match self {
            Step::Done(response, frame) => StepView::Done(response@, frame@),
            Step::Wait(ms) => StepView::Wait(*ms),
        }
    }
}

/// The answer without data about the device that the request named.
pub open spec fn spec_plain(lidar_info: Option<DeviceIdentity>, status: Seq<char>) -> ResponseView {
    ResponseView { lidar_info, status, message: ""@, data: None }
}

/// The frame that asks a device for its basic configuration.
pub open spec fn spec_get_basic_config(identity: DeviceIdentity) -> Seq<u8> {
    spec_frame(identity.product_line, identity.lidar_id, 0xCF, 0x10, seq![0xEDu8])
}

/// What becomes of the state when the session `client_id` sends `request`,
/// and what is to be done then.
///
/// - `set register_lidar` records that the session listens to the device
///   that the request names, and answers with a success.
/// - `get lidar_list` forgets the devices that were seen and asks for a wait.
/// - `get basic_config` answers with the status `none` and the frame that
///   asks the device for its configuration: the configuration itself comes
///   later, from the device.
/// - Anything else is an error and changes nothing.
pub open spec fn spec_route(state: AppStateView, client_id: u128, request: Option<RequestView>) -> (
    AppStateView,
    Result<StepView, Seq<char>>,
) {
    match request {
        None => (state, Err(invalid_request())),
        Some(req) => if req.command == "get"@ {
            if req.request_type == "lidar_list"@ {
                (
                    AppStateView { sessions: state.sessions, lidar_infos: Seq::empty() },
                    Ok(StepView::Wait(1000)),
                )
            } else if req.request_type == "basic_config"@ {
                match req.lidar_info {
                    Some(identity) => (
                        state,
                        Ok(
                            StepView::Done(
                                spec_plain(req.lidar_info, "none"@),
                                spec_get_basic_config(identity),
                            ),
                        ),
                    ),
                    None => (state, Err(invalid_lidar_info())),
                }
            } else {
                (state, Err(not_supported_type()))
            }
        } else if req.command == "set"@ {
            if req.request_type == "register_lidar"@ {
                match req.lidar_info {
                    Some(identity) => (
                        AppStateView {
                            sessions: spec_registered(state.sessions, client_id, identity),
                            lidar_infos: state.lidar_infos,
                        },
                        Ok(StepView::Done(spec_plain(req.lidar_info, "success"@), Seq::empty())),
                    ),
                    None => (state, Err(invalid_lidar_info())),
                }
            } else {
                (state, Err(not_supported_type()))
            }
        } else {
            (state, Err(not_supported_command()))
        },
    }
}

/// The answer to `get lidar_list` once the wait is over: the devices that
/// are listed then.
pub open spec fn spec_lidar_list(state: AppStateView, lidar_info: Option<DeviceIdentity>)
    -> ResponseView {
    ResponseView {
        lidar_info,
        status: "success"@,
        message: ""@,
        data: Some(ResponseDataView::LidarList(state.lidar_infos)),
    }
}

/// What the result of routing is in contracts.
pub open spec fn step_outcome(r: Result<Step, LiDARError>) -> Result<StepView, Seq<char>> {
    match r {
        Ok(step) => Ok(step@),
        Err(e) => Err(e.text()),
    }
}

/// Carries out the requests of one session.
#[derive(Debug, Clone, Copy)]
pub struct KanaviMobilityWsHandler {
    client_id: u128,
}

impl KanaviMobilityWsHandler {
    /// The session that the handler works for.
    pub closed spec fn spec_client_id(&self) -> u128 {
        self.client_id
    }

    /// The handler of the session `client_id`.
    pub fn new(client_id: u128) -> (handler: Self)
        ensures
            handler.spec_client_id() == client_id,
    {
        Self { client_id }
    }

    /// The session that the handler works for.
    pub fn client_id(&self) -> (id: u128)
        ensures
            id == self.spec_client_id(),
    {
        self.client_id
    }

    /// Carries out one request; `None` stands for a message that is no
    /// request.  The address and the port of the session play no part.
    pub fn parse(
        &mut self,
        state: &mut AppState,
        ip: [u8; 4],
        port: u16,
        data: Option<&RequestMessage>,
    ) -> (r: Result<Step, LiDARError>)
        ensures
            final(self).spec_client_id() == old(self).spec_client_id(),
            (final(state)@, step_outcome(r)) == spec_route(
                old(state)@,
                old(self).spec_client_id(),
                opt_request(data),
            ),
    {
        let request_message = match data {
            Some(request_message) => request_message,
            None => {
                return Err(LiDARError::invalid("invalid request"));
            },
        };
        if is_word(&request_message.command, GET) {
            self.parse_get(state, request_message)
        } else if is_word(&request_message.command, SET) {
            self.parse_set(state, request_message)
        } else {
            Err(LiDARError::invalid("not supported request command"))
        }
    }

    fn parse_set(&self, state: &mut AppState, request_message: &RequestMessage) -> (r: Result<
        Step,
        LiDARError,
    >)
        requires
            request_message@.command == "set"@,
        ensures
            (final(state)@, step_outcome(r)) == spec_route(
                old(state)@,
                self.spec_client_id(),
                Some(request_message@),
            ),
    {
        proof {
            reveal_strlit("get");
            reveal_strlit("set");
            assert("set"@[0] == 's' && "get"@[0] == 'g');
        }
        if is_word(&request_message.request_type, REGISTER_LIDAR) {
            match request_message.lidar_info {
                Some(lidar_info) => {
                    state.register(self.client_id, lidar_info);
                    let res = ResponseMessage::with(request_message.lidar_info, "success", "", None);
                    let raw_data: Vec<u8> = Vec::new();
                    Ok(Step::Done(res, raw_data))
                },
                None => Err(LiDARError::invalid("lidar_info is invalid")),
            }
        } else {
            Err(LiDARError::invalid("not supported request type"))
        }
    }

    fn parse_get(&self, state: &mut AppState, request_message: &RequestMessage) -> (r: Result<
        Step,
        LiDARError,
    >)
        requires
            request_message@.command == "get"@,
        ensures
            (final(state)@, step_outcome(r)) == spec_route(
                old(state)@,
                self.spec_client_id(),
                Some(request_message@),
            ),
    {
        if is_word(&request_message.request_type, LIDAR_LIST) {
            state.clear_known();
            Ok(Step::Wait(DEBOUNCE_MS))
        } else if is_word(&request_message.request_type, BASIC_CONFIG) {
            match request_message.lidar_info {
                Some(lidar_info) => {
                    let data: [u8; 1] = [GET_PAYLOAD];
                    assert(data@ =~= seq![0xEDu8]);
                    let raw_data = match encode_frame(
                        lidar_info.product_line,
                        lidar_info.lidar_id,
                        MODE_CONFIG,
                        PARAM_GET_BASIC_CONFIG,
                        data.as_slice(),
                    ) {
                        Ok(raw_data) => raw_data,
                        Err(_) => Vec::new(),
                    };
                    let res = ResponseMessage::with(request_message.lidar_info, "none", "", None);
                    Ok(Step::Done(res, raw_data))
                },
                None => Err(LiDARError::invalid("lidar_info is invalid")),
            }
        } else {
            Err(LiDARError::invalid("not supported request type"))
        }
    }

    /// Answers `get lidar_list` once the wait is over.
    pub fn lidar_list(&self, state: &AppState, lidar_info: Option<LiDARInfo>) -> (res:
        ResponseMessage)
        ensures
            res@ == spec_lidar_list(state@, opt_identity(lidar_info)),
    {
        let list = state.known_devices();
        ResponseMessage::with(lidar_info, "success", "", Some(ResponseData::LidarList(list)))
    }
}

} // verus!
