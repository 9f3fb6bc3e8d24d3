//! What the session side does with what comes in: the requests of
//! sessions, and the frames that devices sent.

use crate::envelope::{spec_open, spec_seal};
use crate::error::LiDARError;
use crate::identity::{opt_identity, DeviceIdentity, LiDARInfo};
use crate::key::{spec_key, spec_key_ip, spec_key_port, LiDARChannelData, LiDARKey};
use crate::message::{is_word, RequestMessage, ResponseMessage, ResponseView, NONE};
use crate::reassembly::opt_bytes;
use crate::registry::{spec_observed, spec_recipients, AppState, AppStateView};
use crate::udp_handler::{spec_handle, KanaviUDPHandler};
use crate::ws_handler::{
    opt_request, spec_route, KanaviMobilityWsHandler, RequestView, Step, StepView,
};
use vstd::prelude::*;

verus! {

/// Reason: the bytes that crossed the relay channel open with no envelope.
pub open spec fn invalid_envelope() -> Seq<char> {
    "invalid envelope"@
}

/// The answer that tells a session why its request was refused, and the
/// message that tells why a frame was dropped.
pub open spec fn spec_refusal(lidar_info: Option<DeviceIdentity>, reason: Seq<char>)
    -> ResponseView {
    ResponseView { lidar_info, status: "error"@, message: "Invalid data: "@ + reason, data: None }
}

/// The key of the device with the identity `identity`.
pub open spec fn spec_identity_key(identity: DeviceIdentity) -> u64 {
    spec_key(
        seq![identity.address.0, identity.address.1, identity.address.2, identity.address.3],
        identity.port,
    ) as u64
}

/// What a response that may be absent is in contracts.
pub open spec fn opt_response(response: Option<ResponseMessage>) -> Option<ResponseView> {
    match response {
        Some(r) => Some(r@),
        None => None,
    }
}

/// What a session step is in contracts.
pub struct SessionStepView {
    pub reply: Option<ResponseView>,
    pub envelope: Option<Seq<u8>>,
    pub wait_ms: Option<u64>,
}

/// What is to be done for a session after one of its requests.
#[derive(Debug, Clone, PartialEq, Eq)]
pub struct SessionStep {
    /// The answer to send to the session now.
    pub reply: Option<ResponseMessage>,
    /// The envelope to hand to the relay channel towards the devices.
    pub envelope: Option<Vec<u8>>,
    /// How long to wait before the list of devices is answered.
    pub wait_ms: Option<u64>,
}

impl View for SessionStep {
    type V = SessionStepView;

    open spec fn view(&self) -> SessionStepView {
        SessionStepView {
            reply: opt_response(self.reply),
            envelope: opt_bytes(self.envelope),
            wait_ms: self.wait_ms,
        }
    }
}

/// The device that a request names, if there is a request and it names one.
pub open spec fn spec_named(request: Option<RequestView>) -> Option<DeviceIdentity> {
    match request {
        Some(req) => req.lidar_info,
        None => None,
    }
}

/// What is to be done for the session after routing has given `routed`.
///
/// An answer with the status `none` is not sent.  A frame goes into an
/// envelope with the key of the device that the request named.  A refusal
/// is answered with an error that tells the reason.
pub open spec fn spec_session_step(request: Option<RequestView>, routed: Result<StepView, Seq<char>>)
    -> SessionStepView {
    match routed {
        Ok(StepView::Done(response, frame)) => SessionStepView {
            reply: if response.status == "none"@ {
                None
            } else {
                Some(response)
            },
            envelope: match spec_named(request) {
                Some(identity) => if frame.len() > 0 {
                    Some(spec_seal(spec_identity_key(identity), frame))
                } else {
                    None
                },
                None => None,
            },
            wait_ms: None,
        },
        Ok(StepView::Wait(ms)) => SessionStepView { reply: None, envelope: None, wait_ms: Some(ms) },
        Err(reason) => SessionStepView {
            reply: Some(spec_refusal(spec_named(request), reason)),
            envelope: None,
            wait_ms: None,
        },
    }
}

/// What a delivery is in contracts.
pub struct DeliveryView {
    pub message: ResponseView,
    pub recipients: Seq<u128>,
}

/// What a device reported, and the sessions that it goes to.
#[derive(Debug, Clone, PartialEq, Eq)]
pub struct Delivery {
    pub message: ResponseMessage,
    pub recipients: Vec<u128>,
}

impl View for Delivery {
    type V = DeliveryView;

    open spec fn view(&self) -> DeliveryView {
        DeliveryView { message: self.message@, recipients: self.recipients@ }
    }
}

/// What becomes of the state when `envelope` comes from the device side,
/// and what is delivered.
///
/// The frame in the envelope is decoded.  The device that sent it is
/// listed among the devices that were seen, and the response that reports
/// the frame goes to the sessions that listen to that device.  A frame that
/// cannot be decoded changes nothing and goes to nobody.
pub open spec fn spec_ingest(state: AppStateView, envelope: Seq<u8>) -> (AppStateView, DeliveryView) {
    match spec_open(envelope) {
        None => (
            state,
            DeliveryView {
                message: spec_refusal(None, invalid_envelope()),
                recipients: Seq::empty(),
            },
        ),
        Some((key, raw)) => {
            let ip = spec_key_ip(key);
            match spec_handle((ip[0], ip[1], ip[2], ip[3]), spec_key_port(key), raw) {
                Ok(message) => (
                    AppStateView {
                        sessions: state.sessions,
                        lidar_infos: match message.lidar_info {
                            Some(identity) => spec_observed(state.lidar_infos, identity),
                            None => state.lidar_infos,
                        },
                    },
                    DeliveryView {
                        message,
                        recipients: spec_recipients(state.sessions, message.lidar_info),
                    },
                ),
                Err(reason) => (
                    state,
                    DeliveryView { message: spec_refusal(None, reason), recipients: Seq::empty() },
                ),
            }
        },
    }
}

/// Builds the answer that tells why something was refused.
pub fn refusal(lidar_info: Option<LiDARInfo>, error: &LiDARError) -> (res: ResponseMessage)
    ensures
        res@ == spec_refusal(opt_identity(lidar_info), error.text()),
{
    let message = error.message();
    ResponseMessage::with(lidar_info, "error", message.as_str(), None)
}

impl AppState {
    /// Carries out one request of the session `client_id`; `None` stands
    /// for a message that is no request.
    pub fn handle_request(&mut self, client_id: u128, request: Option<&RequestMessage>) -> (step:
        SessionStep)
        ensures
            final(self)@ == spec_route(old(self)@, client_id, opt_request(request)).0,
            step@ == spec_session_step(
                opt_request(request),
                spec_route(old(self)@, client_id, opt_request(request)).1,
            ),
    {
        let named = match request {
            Some(r) => r.lidar_info,
            None => None,
        };
        let mut ws_handler = KanaviMobilityWsHandler::new(client_id);
        match ws_handler.parse(self, [0, 0, 0, 0], 5555, request) {
            Ok(Step::Done(response, raw_data)) => {
                let envelope = match named {
                    Some(lidar_info) => {
                        if raw_data.len() > 0 {
                            let channel_data = LiDARChannelData::new(
                                LiDARKey::new(lidar_info.ip, lidar_info.port),
                                raw_data,
                            );
                            assert(lidar_info.ip@ =~= seq![
                                lidar_info.ip@[0],
                                lidar_info.ip@[1],
                                lidar_info.ip@[2],
                                lidar_info.ip@[3],
                            ]);
                            Some(channel_data.seal())
                        } else {
                            None
                        }
                    },
                    None => None,
                };
                let reply = if is_word(&response.status, NONE) {
                    None
                } else {
                    Some(response)
                };
                SessionStep { reply, envelope, wait_ms: None }
            },
            Ok(Step::Wait(ms)) => SessionStep { reply: None, envelope: None, wait_ms: Some(ms) },
            Err(e) => SessionStep { reply: Some(refusal(named, &e)), envelope: None, wait_ms: None },
        }
    }

    /// Takes an envelope that came from the device side: decodes the frame
    /// in it, lists the device that sent it, and tells which sessions the
    /// report goes to.
    pub fn ingest(&mut self, envelope: &[u8]) -> (delivery: Delivery)
        ensures
            (final(self)@, delivery@) == spec_ingest(old(self)@, envelope@),
    {
        let lidar_channel_data = match LiDARChannelData::open(envelope) {
            Some(lidar_channel_data) => lidar_channel_data,
            None => {
                let e = LiDARError::invalid("invalid envelope");
                return Delivery { message: refusal(None, &e), recipients: Vec::new() };
            },
        };
        let ip = lidar_channel_data.key.get_ip();
        let port = lidar_channel_data.key.get_port();
        let mut handler = KanaviUDPHandler;
        match handler.parse(ip, port, lidar_channel_data.raw_data.as_slice()) {
            Ok(message) => {
                let recipients = self.broadcast_message(&message);
                match message.lidar_info {
                    Some(lidar_info) => {
                        self.observe(lidar_info);
                    },
                    None => {},
                }
                Delivery { message, recipients }
            },
            Err(e) => Delivery { message: refusal(None, &e), recipients: Vec::new() },
        }
    }
}

} // verus!
