use lidar_server::config::{KMConfigData, MotorSpeed};
use lidar_server::frame::encode_frame;
use lidar_server::identity::LiDARInfo;
use lidar_server::key::{LiDARChannelData, LiDARKey};
use lidar_server::message::{RequestData, RequestMessage, ResponseData, ResponseMessage};
use lidar_server::registry::AppState;
use lidar_server::server::{refusal, Delivery, SessionStep};
use lidar_server::error::LiDARError;
use lidar_server::udp_handler::KanaviUDPHandler;
use lidar_server::ws_handler::{KanaviMobilityWsHandler, Step};
use lidar_server::ws_message::{
    MessageHandler, RequestMessage as PlainRequest, RequestParams,
    ResponseMessage as PlainResponse,
};

fn device_a() -> LiDARInfo {
    LiDARInfo::new([192, 168, 0, 10], 5000, 0, 1)
}

fn device_b() -> LiDARInfo {
    LiDARInfo::new([192, 168, 0, 11], 5000, 0, 1)
}

fn envelope_from(info: LiDARInfo, mode: u8, param: u8, payload: &[u8]) -> Vec<u8> {
    let frame = encode_frame(info.product_line, info.lidar_id, mode, param, payload).unwrap();
    LiDARChannelData::new(LiDARKey::new(info.ip, info.port), frame).seal()
}

fn request(lidar_info: Option<LiDARInfo>, command: &str, request_type: &str) -> RequestMessage {
    RequestMessage {
        lidar_info,
        command: command.to_string(),
        request_type: request_type.to_string(),
        data: None,
    }
}

fn response(lidar_info: Option<LiDARInfo>, status: &str, message: &str, data: Option<ResponseData>) -> ResponseMessage {
    ResponseMessage {
        lidar_info,
        status: status.to_string(),
        message: message.to_string(),
        data,
    }
}

#[test]
fn identities_compare_by_every_part() {
    let a = device_a();
    assert_eq!(a, LiDARInfo::new([192, 168, 0, 10], 5000, 0, 1));
    assert_ne!(a, LiDARInfo::new([192, 168, 0, 11], 5000, 0, 1));
    assert_ne!(a, LiDARInfo::new([193, 168, 0, 10], 5000, 0, 1));
    assert_ne!(a, LiDARInfo::new([192, 168, 0, 10], 5001, 0, 1));
    assert_ne!(a, LiDARInfo::new([192, 168, 0, 10], 5000, 1, 1));
    assert_ne!(a, LiDARInfo::new([192, 168, 0, 10], 5000, 0, 2));
}

#[test]
fn udp_handler_reports_records() {
    let mut handler = KanaviUDPHandler;
    let frame = encode_frame(4, 2, 0xCF, 0x63, &[5]).unwrap();
    assert_eq!(
        handler.parse([10, 1, 2, 3], 4000, &frame),
        Ok(response(
            Some(LiDARInfo::new([10, 1, 2, 3], 4000, 4, 2)),
            "success",
            "",
            Some(ResponseData::Config(KMConfigData::MotorSpeed(MotorSpeed::new(5))))
        ))
    );
    let nak = encode_frame(4, 2, 0xF0, 0, &[]).unwrap();
    assert_eq!(
        handler.parse([10, 1, 2, 3], 4000, &nak),
        Ok(response(Some(LiDARInfo::new([10, 1, 2, 3], 4000, 4, 2)), "error", "NAK", None))
    );
    let other = encode_frame(4, 2, 0x55, 0, &[1]).unwrap();
    assert_eq!(
        handler.parse([10, 1, 2, 3], 4000, &other),
        Ok(response(Some(LiDARInfo::new([10, 1, 2, 3], 4000, 4, 2)), "success", "", None))
    );
    let mut payload = vec![0u8; 800];
    payload.push(3);
    let points = encode_frame(4, 2, 0xDD, 1, &payload).unwrap();
    let res = handler.parse([10, 1, 2, 3], 4000, &points).unwrap();
    assert_eq!(res.status, "none");
    match res.data {
        Some(ResponseData::PointCloud(cloud)) => {
            assert_eq!(cloud.point_cloud.points.len(), 400);
            assert_eq!(cloud.channel, 1);
            assert_eq!(cloud.detection_value, 3);
        }
        other => panic!("unexpected {:?}", other),
    }
    assert_eq!(
        handler.parse([10, 1, 2, 3], 4000, &frame[..7]),
        Err(LiDARError::InvalidData("not enough data".to_string()))
    );
    assert_eq!(
        handler.parse_cf(0, 0x63, &[1]),
        Ok(KMConfigData::MotorSpeed(MotorSpeed::new(1)))
    );
    assert!(handler.parse_dd(0, 0, &payload).is_ok());
}

#[test]
fn report_goes_only_to_the_session_that_listens() {
    let mut state = AppState::new();
    state.add_session(1);
    state.add_session(2);
    state.add_session(3);
    assert!(state.register(1, device_a()));
    assert!(state.register(2, device_b()));

    let delivery = state.ingest(&envelope_from(device_a(), 0xCF, 0x63, &[5]));
    assert_eq!(delivery.recipients, vec![1]);
    assert_eq!(delivery.message.lidar_info, Some(device_a()));
    assert_eq!(
        delivery.message.data,
        Some(ResponseData::Config(KMConfigData::MotorSpeed(MotorSpeed::new(5))))
    );

    let delivery = state.ingest(&envelope_from(device_b(), 0xCF, 0x63, &[6]));
    assert_eq!(delivery.recipients, vec![2]);

    let stranger = LiDARInfo::new([192, 168, 0, 10], 5000, 0, 2);
    let delivery = state.ingest(&envelope_from(stranger, 0xCF, 0x63, &[6]));
    assert!(delivery.recipients.is_empty());
}

#[test]
fn several_sessions_may_listen_to_one_device() {
    let mut state = AppState::new();
    for id in [5u128, 6, 7] {
        state.add_session(id);
    }
    state.register(5, device_a());
    state.register(7, device_a());
    state.register(6, device_b());
    let message = response(Some(device_a()), "success", "", None);
    assert_eq!(state.broadcast_message(&message), vec![5, 7]);
    let about_nobody = response(None, "error", "x", None);
    assert!(state.broadcast_message(&about_nobody).is_empty());
    state.register(5, device_b());
    assert_eq!(state.broadcast_message(&message), vec![7]);
}

#[test]
fn disconnect_ends_delivery_and_keeps_known_devices() {
    let mut state = AppState::new();
    state.add_session(1);
    state.register(1, device_a());
    state.observe(device_a());
    state.disconnect(1);
    assert!(!state.is_connected(1));
    assert_eq!(state.known_devices(), vec![device_a()]);
    let message = response(Some(device_a()), "success", "", None);
    assert!(state.broadcast_message(&message).is_empty());
    assert!(!state.send_message(1, &message));
    assert!(!state.register(1, device_a()));
    state.add_session(1);
    assert!(state.broadcast_message(&message).is_empty());
}

#[test]
fn reconnect_with_the_same_id_forgets_the_subscription() {
    let mut state = AppState::new();
    state.add_session(1);
    state.register(1, device_a());
    state.add_session(1);
    let message = response(Some(device_a()), "success", "", None);
    assert!(state.broadcast_message(&message).is_empty());
    assert!(state.send_message(1, &message));
}

#[test]
fn connect_gives_distinct_sessions() {
    let mut state = AppState::new();
    let a = state.connect();
    let b = state.connect();
    assert_ne!(a, b);
    assert!(state.is_connected(a));
    assert!(state.is_connected(b));
    let message = response(None, "success", "", None);
    assert!(state.send_message(a, &message));
    state.disconnect(a);
    assert!(!state.is_connected(a));
    assert!(state.is_connected(b));
}

#[test]
fn known_devices_hold_each_device_once() {
    let mut state = AppState::new();
    assert!(state.known_devices().is_empty());
    state.observe(device_a());
    state.observe(device_b());
    state.observe(device_a());
    assert_eq!(state.known_devices(), vec![device_a(), device_b()]);
    assert!(state.is_known(&device_a()));
    state.clear_known();
    assert!(state.known_devices().is_empty());
    assert!(!state.is_known(&device_a()));
}

#[test]
fn ingest_lists_the_device_that_sent_the_frame() {
    let mut state = AppState::new();
    state.ingest(&envelope_from(device_a(), 0xCF, 0x63, &[5]));
    state.ingest(&envelope_from(device_a(), 0xF0, 0, &[]));
    state.ingest(&envelope_from(device_b(), 0x33, 0, &[]));
    assert_eq!(state.known_devices(), vec![device_a(), device_b()]);
}

#[test]
fn ingest_drops_what_cannot_be_decoded() {
    let mut state = AppState::new();
    state.add_session(1);
    state.register(1, device_a());
    let delivery = state.ingest(&[255, 1, 2]);
    assert_eq!(
        delivery,
        Delivery {
            message: response(None, "error", "Invalid data: invalid envelope", None),
            recipients: vec![]
        }
    );
    let delivery = state.ingest(&envelope_from(device_a(), 0xCF, 0x99, &[5]));
    assert_eq!(
        delivery,
        Delivery {
            message: response(None, "error", "Invalid data: not supported param", None),
            recipients: vec![]
        }
    );
    assert!(state.known_devices().is_empty());
    let delivery = state.ingest(&envelope_from(device_a(), 0xCF, 0x63, &[5]));
    assert_eq!(delivery.recipients, vec![1]);
}

#[test]
fn lidar_list_answers_with_devices_seen_during_the_wait() {
    let mut state = AppState::new();
    state.add_session(1);
    state.observe(device_a());
    state.observe(device_b());
    let mut handler = KanaviMobilityWsHandler::new(1);
    let req = request(None, "get", "lidar_list");
    assert_eq!(handler.parse(&mut state, [0, 0, 0, 0], 5555, Some(&req)), Ok(Step::Wait(1000)));
    assert_eq!(
        handler.lidar_list(&state, req.lidar_info),
        response(None, "success", "", Some(ResponseData::LidarList(vec![])))
    );

    assert_eq!(handler.parse(&mut state, [0, 0, 0, 0], 5555, Some(&req)), Ok(Step::Wait(1000)));
    state.ingest(&envelope_from(device_b(), 0xCF, 0x63, &[5]));
    assert_eq!(
        handler.lidar_list(&state, Some(device_a())),
        response(Some(device_a()), "success", "", Some(ResponseData::LidarList(vec![device_b()])))
    );
}

#[test]
fn register_lidar_records_interest() {
    let mut state = AppState::new();
    state.add_session(1);
    let mut handler = KanaviMobilityWsHandler::new(1);
    assert_eq!(handler.client_id(), 1);
    let req = request(Some(device_a()), "set", "register_lidar");
    assert_eq!(
        handler.parse(&mut state, [0, 0, 0, 0], 5555, Some(&req)),
        Ok(Step::Done(response(Some(device_a()), "success", "", None), vec![]))
    );
    let message = response(Some(device_a()), "success", "", None);
    assert_eq!(state.broadcast_message(&message), vec![1]);
}

#[test]
fn basic_config_builds_the_command_frame() {
    let mut state = AppState::new();
    state.add_session(1);
    let mut handler = KanaviMobilityWsHandler::new(1);
    let info = LiDARInfo::new([192, 168, 0, 10], 5000, 3, 7);
    let req = request(Some(info), "get", "basic_config");
    let frame = vec![0xFA, 3, 7, 0xCF, 0x10, 0x00, 0x01, 0xED, 0xFA ^ 3 ^ 7 ^ 0xCF ^ 0x10 ^ 0x01 ^ 0xED];
    assert_eq!(
        handler.parse(&mut state, [0, 0, 0, 0], 5555, Some(&req)),
        Ok(Step::Done(response(Some(info), "none", "", None), frame.clone()))
    );
    let step = state.handle_request(1, Some(&req));
    assert_eq!(step.reply, None);
    assert_eq!(step.wait_ms, None);
    let envelope = step.envelope.unwrap();
    assert_eq!(
        LiDARChannelData::open(&envelope),
        Some(LiDARChannelData::new(LiDARKey::new([192, 168, 0, 10], 5000), frame))
    );
}

#[test]
fn router_refuses_what_it_does_not_know() {
    let mut state = AppState::new();
    state.add_session(1);
    state.observe(device_a());
    let mut handler = KanaviMobilityWsHandler::new(1);
    let invalid = |reason: &str| Err(LiDARError::InvalidData(reason.to_string()));
    assert_eq!(handler.parse(&mut state, [0, 0, 0, 0], 5555, None), invalid("invalid request"));
    let req = request(Some(device_a()), "put", "lidar_list");
    assert_eq!(
        handler.parse(&mut state, [0, 0, 0, 0], 5555, Some(&req)),
        invalid("not supported request command")
    );
    let req = request(Some(device_a()), "get", "register_lidar");
    assert_eq!(
        handler.parse(&mut state, [0, 0, 0, 0], 5555, Some(&req)),
        invalid("not supported request type")
    );
    let req = request(Some(device_a()), "set", "lidar_list");
    assert_eq!(
        handler.parse(&mut state, [0, 0, 0, 0], 5555, Some(&req)),
        invalid("not supported request type")
    );
    let req = request(None, "get", "basic_config");
    assert_eq!(
        handler.parse(&mut state, [0, 0, 0, 0], 5555, Some(&req)),
        invalid("lidar_info is invalid")
    );
    let req = request(None, "set", "register_lidar");
    assert_eq!(
        handler.parse(&mut state, [0, 0, 0, 0], 5555, Some(&req)),
        invalid("lidar_info is invalid")
    );
    assert_eq!(state.known_devices(), vec![device_a()]);
    assert_eq!(RequestMessage::new(), request(None, "", ""));
    assert_eq!(ResponseMessage::new(), response(None, "", "", None));
}

#[test]
fn session_step_answers_errors_to_the_session() {
    let mut state = AppState::new();
    state.add_session(1);
    let req = request(Some(device_a()), "get", "motor_speed");
    assert_eq!(
        state.handle_request(1, Some(&req)),
        SessionStep {
            reply: Some(response(
                Some(device_a()),
                "error",
                "Invalid data: not supported request type",
                None
            )),
            envelope: None,
            wait_ms: None
        }
    );
    assert_eq!(
        state.handle_request(1, None),
        SessionStep {
            reply: Some(response(None, "error", "Invalid data: invalid request", None)),
            envelope: None,
            wait_ms: None
        }
    );
    let req = request(Some(device_a()), "set", "register_lidar");
    assert_eq!(
        state.handle_request(1, Some(&req)),
        SessionStep {
            reply: Some(response(Some(device_a()), "success", "", None)),
            envelope: None,
            wait_ms: None
        }
    );
    let req = request(None, "get", "lidar_list");
    assert_eq!(
        state.handle_request(1, Some(&req)),
        SessionStep { reply: None, envelope: None, wait_ms: Some(1000) }
    );
    assert_eq!(
        refusal(None, &LiDARError::invalid("x")),
        response(None, "error", "Invalid data: x", None)
    );
}

#[test]
fn plain_handler_answers() {
    let ask = |command: &str, request_type: &str, data: Option<RequestData>| {
        MessageHandler.handle_message(PlainRequest {
            command: command.to_string(),
            params: RequestParams { request_type: request_type.to_string(), data },
        })
    };
    assert_eq!(ask("get", "version_info", None), PlainResponse::success(None));
    assert_eq!(
        ask("get", "basic_config", None),
        PlainResponse::error("Unknown type: basic_config".to_string())
    );
    assert_eq!(
        ask("set", "basic_config", None),
        PlainResponse::error("Missing data for basic config".to_string())
    );
    assert_eq!(
        ask("set", "basic_config", Some(RequestData::Other)),
        PlainResponse::error("Invalid basic config format".to_string())
    );
    let config = lidar_server::config::BasicConfig::new(0, 0, 0, 0, 0, 0, 0, 0, 0, 0, 0, 0, vec![]);
    assert_eq!(
        ask("set", "basic_config", Some(RequestData::BasicConfig(config))),
        PlainResponse::success(None)
    );
    assert_eq!(
        ask("set", "version_info", None),
        PlainResponse::error("Unknown type: version_info".to_string())
    );
    assert_eq!(ask("del", "x", None), PlainResponse::error("Unknown command: del".to_string()));
    let ok = PlainResponse::success(None);
    assert_eq!(ok.status, "success");
    assert_eq!(ok.message, "");
    assert_eq!(PlainResponse::error("e".to_string()).status, "error");
}
