use lidar_server::codec::{parse_cf, parse_dd};
use lidar_server::config::{
    Ack, AreaPoint, BasicConfig, FogFilter, KMConfigData, MotorSpeed, NetworkDestinationIP,
    NetworkSourceInfo, RadiusFilter, RadiusFilterMaxDistance, RadiusFilterMinDistance,
    TeachingArea, TeachingMode, UserArea, VersionInfo, WarningArea,
    WindowContaminationDetectionMode,
};
use lidar_server::coordinate::{signed_byte, unsigned_byte, Coordinate};
use lidar_server::error::LiDARError;
use lidar_server::frame::{checksum, encode_frame};
use lidar_server::geometry::{
    channels, h_fov, samples, total_samples, v_angle, PointCloud, PolarPoint,
};
use lidar_server::parser::{decode_frame, Content};

fn frame(product_line: u8, lidar_id: u8, mode: u8, param: u8, payload: &[u8]) -> Vec<u8> {
    encode_frame(product_line, lidar_id, mode, param, payload).unwrap()
}

fn invalid(reason: &str) -> LiDARError {
    LiDARError::InvalidData(reason.to_string())
}

fn round_trip(product_line: u8, record: KMConfigData) {
    let bytes = record.to_frame(product_line, 9).unwrap();
    let decoded = decode_frame(&bytes).unwrap();
    assert_eq!(decoded.product_line, product_line);
    assert_eq!(decoded.lidar_id, 9);
    assert_eq!(decoded.raw_data, bytes);
    assert_eq!(decoded.content, Content::Config(record));
}

#[test]
fn motor_speed_frame_decodes() {
    let mut bytes = vec![0xFA, 0x00, 0x01, 0xCF, 0x63, 0x00, 0x01, 0x05];
    let sum = bytes.iter().fold(0u8, |a, b| a ^ b);
    bytes.push(sum);
    let decoded = decode_frame(&bytes).unwrap();
    assert_eq!(decoded.product_line, 0);
    assert_eq!(decoded.lidar_id, 1);
    assert_eq!(decoded.mode, 0xCF);
    assert_eq!(decoded.param, 0x63);
    assert_eq!(decoded.content, Content::Config(KMConfigData::MotorSpeed(MotorSpeed::new(5))));
}

#[test]
fn encode_frame_lays_out_header_payload_and_checksum() {
    let bytes = frame(3, 7, 0xCF, 0x10, &[0xED]);
    assert_eq!(bytes, vec![0xFA, 3, 7, 0xCF, 0x10, 0x00, 0x01, 0xED, 0xFA ^ 3 ^ 7 ^ 0xCF ^ 0x10 ^ 0x01 ^ 0xED]);
    assert_eq!(checksum(&bytes), 0);
}

#[test]
fn encode_frame_writes_length_big_endian() {
    let payload = vec![0u8; 0x0123];
    let bytes = frame(0, 0, 0xDD, 0, &payload);
    assert_eq!(bytes[5], 0x01);
    assert_eq!(bytes[6], 0x23);
    assert_eq!(bytes.len(), 0x0123 + 8);
}

#[test]
fn encode_frame_refuses_long_payload() {
    let payload = vec![0u8; 65536];
    assert_eq!(encode_frame(0, 0, 0xCF, 0x63, &payload), Err(invalid("payload too long")));
    assert!(encode_frame(0, 0, 0xCF, 0x63, &payload[..65535]).is_ok());
}

#[test]
fn checksum_is_xor_of_all_bytes() {
    assert_eq!(checksum(&[]), 0);
    assert_eq!(checksum(&[0xFA, 0x00, 0x01, 0xCF, 0x63, 0x00, 0x01, 0x05]), 0x53);
}

#[test]
fn decode_frame_reports_short_and_unsynced_frames() {
    assert_eq!(decode_frame(&[0xFA, 0, 0, 0xCF, 0x63, 0, 0]), Err(invalid("not enough data")));
    assert_eq!(decode_frame(&[0xFB, 0, 0, 0xCF, 0x63, 0, 1, 5, 0]), Err(invalid("invalid header")));
    assert_eq!(decode_frame(&[0xFA, 0, 0, 0xCF, 0x63, 0, 2, 5, 0]), Err(invalid("not enough data")));
    assert_eq!(decode_frame(&[0xFA, 0, 0, 0xCF, 0x63, 0, 0, 5, 0]), Err(invalid("not enough data")));
}

#[test]
fn decode_frame_does_not_compare_the_checksum() {
    let mut bytes = frame(0, 1, 0xCF, 0x63, &[5]);
    let last = bytes.len() - 1;
    bytes[last] ^= 0xFF;
    let decoded = decode_frame(&bytes).unwrap();
    assert_eq!(decoded.content, Content::Config(KMConfigData::MotorSpeed(MotorSpeed::new(5))));
}

#[test]
fn nak_mode_yields_nak_zero() {
    let decoded = decode_frame(&frame(1, 2, 0xF0, 0x77, &[9, 9])).unwrap();
    assert_eq!(decoded.content, Content::Config(KMConfigData::Nak(0)));
}

#[test]
fn other_modes_yield_no_record() {
    let decoded = decode_frame(&frame(1, 2, 0x12, 0x34, &[1, 2, 3])).unwrap();
    assert_eq!(decoded.content, Content::Empty);
    assert_eq!(decoded.mode, 0x12);
    assert_eq!(decoded.param, 0x34);
}

#[test]
fn unsupported_parameter_is_rejected() {
    assert_eq!(parse_cf(0, 0x10, &[1, 2, 3]), Err(invalid("not supported param")));
    assert_eq!(parse_cf(0, 0xFF, &[]), Err(invalid("not supported param")));
    assert_eq!(
        decode_frame(&frame(0, 0, 0xCF, 0x99, &[1])),
        Err(invalid("not supported param"))
    );
}

#[test]
fn every_ack_parameter_yields_ack() {
    let params = [
        0x01, 0x21, 0x31, 0x41, 0x51, 0x61, 0x81, 0x91, 0xA1, 0xB1, 0xC1, 0xE1, 0x03, 0x13, 0x23,
        0x33, 0x53, 0x73, 0x9D, 0xB3, 0xD3, 0xF3, 0x25, 0x45,
    ];
    for param in params {
        assert_eq!(parse_cf(0, param, &[0x42, 1]), Ok(KMConfigData::Ack(Ack::new(0x42))));
        assert_eq!(parse_cf(0, param, &[]), Err(invalid("not enough data")));
    }
}

#[test]
fn single_byte_records_decode() {
    assert_eq!(parse_cf(0, 0x63, &[7]), Ok(KMConfigData::MotorSpeed(MotorSpeed::new(7))));
    assert_eq!(parse_cf(0, 0xA3, &[8]), Ok(KMConfigData::FogFilter(FogFilter::new(8))));
    assert_eq!(parse_cf(0, 0xC3, &[9]), Ok(KMConfigData::RadiusFilter(RadiusFilter::new(9))));
    assert_eq!(
        parse_cf(0, 0xE3, &[10]),
        Ok(KMConfigData::RadiusFilterMaxDistance(RadiusFilterMaxDistance::new(10)))
    );
    assert_eq!(
        parse_cf(0, 0x05, &[11]),
        Ok(KMConfigData::WindowContaminationDetectionMode(WindowContaminationDetectionMode::new(11)))
    );
    assert_eq!(
        parse_cf(0, 0x35, &[12]),
        Ok(KMConfigData::RadiusFilterMinDistance(RadiusFilterMinDistance::new(12)))
    );
    for param in [0x63, 0xA3, 0xC3, 0xE3, 0x05, 0x35] {
        assert_eq!(parse_cf(0, param, &[]), Err(invalid("not enough data")));
    }
}

#[test]
fn fixed_records_decode() {
    assert_eq!(
        parse_cf(0, 0x71, &[1, 2, 3, 4, 5, 6, 7]),
        Ok(KMConfigData::VersionInfo(VersionInfo::new([1, 2, 3], [4, 5, 6], 7)))
    );
    assert_eq!(parse_cf(0, 0x71, &[1, 2, 3, 4, 5, 6]), Err(invalid("not enough data")));
    let net: Vec<u8> = (1..=20).collect();
    assert_eq!(
        parse_cf(0, 0xD1, &net),
        Ok(KMConfigData::NetworkSourceInfo(NetworkSourceInfo::new(
            [1, 2, 3, 4],
            [5, 6, 7, 8, 9, 10],
            [11, 12, 13, 14],
            [15, 16, 17, 18],
            19 * 256 + 20
        )))
    );
    assert_eq!(parse_cf(0, 0xD1, &net[..19]), Err(invalid("not enough data")));
    assert_eq!(
        parse_cf(0, 0x43, &[10, 0, 0, 1]),
        Ok(KMConfigData::NetworkDestinationIP(NetworkDestinationIP::new([10, 0, 0, 1])))
    );
    assert_eq!(parse_cf(0, 0x43, &[10, 0, 0]), Err(invalid("not enough data")));
    assert_eq!(
        parse_cf(0, 0x83, &[1, 2, 3, 4, 5, 6]),
        Ok(KMConfigData::WarningArea(WarningArea::new([1, 2], [3, 4], [5, 6])))
    );
    assert_eq!(parse_cf(0, 0x83, &[1, 2, 3, 4, 5]), Err(invalid("not enough data")));
    assert_eq!(
        parse_cf(0, 0x15, &[30, 40]),
        Ok(KMConfigData::TeachingMode(TeachingMode::new(30, 40)))
    );
    assert_eq!(parse_cf(0, 0x15, &[30]), Err(invalid("not enough data")));
}

#[test]
fn bytes_after_a_record_are_ignored() {
    assert_eq!(parse_cf(0, 0x63, &[7, 1, 2, 3]), Ok(KMConfigData::MotorSpeed(MotorSpeed::new(7))));
}

fn sample_basic_config() -> (Vec<u8>, BasicConfig) {
    let payload = vec![
        1, 2, 3, 4, 5, 6, 0x01, 0x2C, 0x02, 0x58, 7, 8, 9, 2, // fixed part, two areas
        2, 0x01, 0x32, 0xFF, 0x0A, 0x80, 0x7F, 0x00, 0x9C, // area with two corners
        0, // area without corners
    ];
    let config = BasicConfig::new(
        1,
        2,
        3,
        4,
        5,
        6,
        300,
        600,
        7,
        8,
        9,
        2,
        vec![
            UserArea::new(
                2,
                vec![
                    AreaPoint {
                        x: Coordinate { integer: 1, hundredths: 50 },
                        y: Coordinate { integer: -1, hundredths: 10 },
                    },
                    AreaPoint {
                        x: Coordinate { integer: -128, hundredths: 127 },
                        y: Coordinate { integer: 0, hundredths: -100 },
                    },
                ],
            ),
            UserArea::new(0, vec![]),
        ],
    );
    (payload, config)
}

#[test]
fn basic_config_decodes_with_its_areas() {
    let (payload, config) = sample_basic_config();
    assert_eq!(parse_cf(0, 0x11, &payload), Ok(KMConfigData::BasicConfig(config)));
}

#[test]
fn basic_config_with_missing_bytes_is_rejected() {
    let (payload, _) = sample_basic_config();
    for cut in 0..payload.len() {
        assert_eq!(parse_cf(0, 0x11, &payload[..cut]), Err(invalid("not enough data")));
    }
}

#[test]
fn basic_config_with_large_point_count_reads_all_corners() {
    let mut payload = vec![0u8; 14];
    payload[13] = 1;
    payload.push(200);
    payload.extend(std::iter::repeat(3u8).take(800));
    match parse_cf(0, 0x11, &payload) {
        Ok(KMConfigData::BasicConfig(config)) => {
            assert_eq!(config.areas.len(), 1);
            assert_eq!(config.areas[0].point_count, 200);
            assert_eq!(config.areas[0].points.len(), 200);
        }
        other => panic!("unexpected {:?}", other),
    }
    payload.pop();
    assert_eq!(parse_cf(0, 0x11, &payload), Err(invalid("not enough data")));
}

#[test]
fn user_area_from_bytes_ignores_a_partial_corner() {
    let area = UserArea::from_bytes(1, vec![1, 2, 3, 4, 5, 6]);
    assert_eq!(
        area.points,
        vec![AreaPoint {
            x: Coordinate { integer: 1, hundredths: 2 },
            y: Coordinate { integer: 3, hundredths: 4 }
        }]
    );
}

#[test]
fn coordinate_sign_correction() {
    assert_eq!(signed_byte(0x00), 0);
    assert_eq!(signed_byte(0x7F), 127);
    assert_eq!(signed_byte(0x80), -128);
    assert_eq!(signed_byte(0xFF), -1);
    assert_eq!(signed_byte(0x9C), -100);
    let c = Coordinate::decode(0xFE, 0xCE);
    assert_eq!(c, Coordinate { integer: -2, hundredths: -50 });
    assert_eq!(c.scaled(), -250);
    assert_eq!(Coordinate::decode(12, 34).scaled(), 1234);
}

#[test]
fn coordinate_decode_is_total_and_invertible() {
    for hi in 0..=255u8 {
        for lo in 0..=255u8 {
            let c = Coordinate::decode(hi, lo);
            assert_eq!(c.integer, hi as i8);
            assert_eq!(c.hundredths, lo as i8);
            assert_eq!(c.encode(), [hi, lo]);
            assert!((-12928..=12827).contains(&c.scaled()));
            assert_eq!(Coordinate::decode(hi, lo), c);
        }
        assert_eq!(unsigned_byte(signed_byte(hi)), hi);
    }
}

#[test]
fn geometry_tables() {
    for product_line in 0..=255u8 {
        let (fov, lines, count) = match product_line {
            2 | 3 => (120, 2, 480),
            7 => (270, 1, 1080),
            _ => (100, 4, 400),
        };
        assert_eq!(h_fov(product_line), fov);
        assert_eq!(channels(product_line), lines);
        assert_eq!(samples(product_line), count);
        assert_eq!(total_samples(product_line), lines as usize * count);
    }
    assert_eq!(v_angle(0, 0), Some(-107));
    assert_eq!(v_angle(0, 1), Some(0));
    assert_eq!(v_angle(0, 2), Some(107));
    assert_eq!(v_angle(0, 3), Some(214));
    assert_eq!(v_angle(0, 4), None);
    assert_eq!(v_angle(2, 0), Some(0));
    assert_eq!(v_angle(3, 1), Some(300));
    assert_eq!(v_angle(3, 2), None);
    assert_eq!(v_angle(7, 0), Some(0));
    assert_eq!(v_angle(7, 1), None);
}

fn distances(count: usize) -> Vec<u8> {
    let mut data = Vec::new();
    for i in 0..count {
        data.push((i % 200) as u8);
        data.push((i % 100) as u8);
    }
    data
}

#[test]
fn point_cloud_has_one_point_for_each_step() {
    for (product_line, count) in [(0u8, 400usize), (1, 400), (2, 480), (3, 480), (7, 1080), (200, 400)] {
        for channel in 0..channels(product_line) {
            let mut payload = distances(count);
            payload.push(0xAB);
            let cloud = parse_dd(product_line, 0xF0 | channel, &payload).unwrap();
            assert_eq!(cloud.point_cloud.points.len(), count);
            assert_eq!(cloud.channel, channel);
            assert_eq!(cloud.detection_value, 0xAB);
            let framed = frame(product_line, 1, 0xDD, channel, &payload);
            match decode_frame(&framed).unwrap().content {
                Content::Points(points) => assert_eq!(points, cloud),
                other => panic!("unexpected {:?}", other),
            }
        }
    }
}

#[test]
fn point_cloud_points_carry_distance_and_angles() {
    let mut payload = distances(400);
    payload.push(1);
    let cloud = parse_dd(0, 0x03, &payload).unwrap();
    assert_eq!(
        cloud.point_cloud.points[0],
        PolarPoint { meters: 0, hundredths: 0, v_angle: 214, h_angle: 160 }
    );
    assert_eq!(
        cloud.point_cloud.points[250],
        PolarPoint { meters: 50, hundredths: 50, v_angle: 214, h_angle: 410 }
    );
    assert_eq!(cloud.point_cloud.points[250].distance(), 5050);
    assert_eq!(cloud.point_cloud.points[399].h_angle, 559);
}

#[test]
fn point_cloud_errors() {
    assert_eq!(parse_dd(0, 0, &[]), Err(invalid("not enough data")));
    assert_eq!(parse_dd(0, 4, &distances(400)), Err(invalid("not supported channel")));
    assert_eq!(parse_dd(2, 2, &distances(480)), Err(invalid("not supported channel")));
    assert_eq!(parse_dd(7, 1, &distances(1080)), Err(invalid("not supported channel")));
    assert_eq!(parse_dd(0, 0, &distances(400)[..799]), Err(invalid("not enough data")));
    assert!(parse_dd(0, 0, &distances(400)).is_ok());
    assert_eq!(parse_dd(7, 0, &distances(1079)), Err(invalid("not enough data")));
}

#[test]
fn horizontal_angles_are_centred_on_ninety_degrees() {
    for (product_line, count, first, last) in
        [(0u8, 400usize, 160i16, 559i16), (2, 480, 120, 599), (7, 1080, -180, 899)]
    {
        let cloud = parse_dd(product_line, 0, &distances(count)).unwrap();
        let points = cloud.point_cloud.points;
        assert_eq!(points[0].h_angle, first);
        assert_eq!(points[count - 1].h_angle, last);
        assert_eq!(first + last, 2 * 360 - 1);
    }
}

#[test]
fn point_cloud_collects_points() {
    let mut cloud = PointCloud::new();
    assert!(cloud.points.is_empty());
    let p = PolarPoint { meters: 1, hundredths: 2, v_angle: 3, h_angle: 4 };
    cloud.add_point(p);
    cloud.add_point(PolarPoint { meters: 5, ..p });
    assert_eq!(cloud.points.len(), 2);
    assert_eq!(cloud.points[0], p);
    assert_eq!(cloud.points[1].meters, 5);
}

#[test]
fn teaching_area_decodes_every_channel() {
    for (product_line, lines, count) in [(0u8, 4usize, 400usize), (2, 2, 480), (7, 1, 1080)] {
        let data = distances(lines * count);
        let area = TeachingArea::parse(product_line, 1, data.clone()).unwrap();
        assert_eq!(area.is_set, 1);
        assert_eq!(area.points.len(), lines);
        for (channel, points) in area.points.iter().enumerate() {
            assert_eq!(points.len(), count);
            let start = 2 * channel * count;
            let alone = parse_dd(product_line, channel as u8, &data[start..start + 2 * count]).unwrap();
            assert_eq!(*points, alone.point_cloud.points);
            assert_eq!(points[1].meters, data[start + 2]);
            assert_eq!(points[1].hundredths, data[start + 3]);
            assert_eq!(Some(points[1].v_angle), v_angle(product_line, channel as u8));
        }
        let mut payload = vec![1u8];
        payload.extend(&data);
        assert_eq!(parse_cf(product_line, 0xF1, &payload), Ok(KMConfigData::TeachingArea(area)));
        payload.pop();
        assert_eq!(parse_cf(product_line, 0xF1, &payload), Err(invalid("not enough data")));
    }
}

#[test]
fn teaching_area_that_is_not_set_has_no_points() {
    assert_eq!(TeachingArea::parse(0, 0, vec![1, 2, 3]), Ok(TeachingArea::new(0, vec![])));
    assert_eq!(TeachingArea::parse(0, 2, vec![]), Ok(TeachingArea::new(2, vec![])));
    assert_eq!(parse_cf(0, 0xF1, &[0]), Ok(KMConfigData::TeachingArea(TeachingArea::new(0, vec![]))));
    assert_eq!(parse_cf(0, 0xF1, &[]), Err(invalid("not enough data")));
    assert_eq!(TeachingArea::parse_points(0, vec![0; 3199]), Err(invalid("not enough data")));
}

#[test]
fn records_round_trip_through_frames() {
    let (_, config) = sample_basic_config();
    round_trip(0, KMConfigData::BasicConfig(config));
    round_trip(0, KMConfigData::BasicConfig(BasicConfig::new(0, 0, 0, 0, 0, 0, 0, 65535, 255, 0, 0, 0, vec![])));
    round_trip(1, KMConfigData::VersionInfo(VersionInfo::new([0, 128, 255], [1, 2, 3], 9)));
    round_trip(
        1,
        KMConfigData::NetworkSourceInfo(NetworkSourceInfo::new(
            [192, 168, 0, 10],
            [0xDE, 0xAD, 0xBE, 0xEF, 0, 1],
            [255, 255, 255, 0],
            [192, 168, 0, 1],
            5000,
        )),
    );
    round_trip(1, KMConfigData::NetworkDestinationIP(NetworkDestinationIP::new([224, 0, 0, 5])));
    round_trip(1, KMConfigData::WarningArea(WarningArea::new([0, 1], [2, 3], [254, 255])));
    round_trip(1, KMConfigData::TeachingMode(TeachingMode::new(0, 255)));
    for value in [0u8, 1, 127, 128, 255] {
        round_trip(5, KMConfigData::MotorSpeed(MotorSpeed::new(value)));
        round_trip(5, KMConfigData::FogFilter(FogFilter::new(value)));
        round_trip(5, KMConfigData::RadiusFilter(RadiusFilter::new(value)));
        round_trip(5, KMConfigData::RadiusFilterMaxDistance(RadiusFilterMaxDistance::new(value)));
        round_trip(
            5,
            KMConfigData::WindowContaminationDetectionMode(WindowContaminationDetectionMode::new(value)),
        );
        round_trip(5, KMConfigData::RadiusFilterMinDistance(RadiusFilterMinDistance::new(value)));
        round_trip(5, KMConfigData::Ack(Ack::new(value)));
    }
    round_trip(5, KMConfigData::Nak(0));
    round_trip(0, KMConfigData::TeachingArea(TeachingArea::new(0, vec![])));
    for product_line in [0u8, 3, 7] {
        let data = distances(total_samples(product_line));
        let area = TeachingArea::parse(product_line, 1, data).unwrap();
        round_trip(product_line, KMConfigData::TeachingArea(area));
    }
}

#[test]
fn nak_with_a_code_comes_back_as_nak_zero() {
    let bytes = KMConfigData::Nak(7).to_frame(0, 1).unwrap();
    assert_eq!(bytes[3], 0xF0);
    assert_eq!(decode_frame(&bytes).unwrap().content, Content::Config(KMConfigData::Nak(0)));
}

#[test]
fn record_payloads_are_laid_out_as_decoded() {
    let (payload, config) = sample_basic_config();
    let record = KMConfigData::BasicConfig(config);
    assert_eq!(record.payload(), payload);
    assert_eq!(record.param(), 0x11);
    assert_eq!(record.mode(), 0xCF);
    assert_eq!(KMConfigData::Ack(Ack::new(3)).param(), 0x01);
    assert_eq!(KMConfigData::Nak(3).mode(), 0xF0);
    assert_eq!(
        KMConfigData::NetworkSourceInfo(NetworkSourceInfo::new([1; 4], [2; 6], [3; 4], [4; 4], 0x1234)).payload(),
        vec![1, 1, 1, 1, 2, 2, 2, 2, 2, 2, 3, 3, 3, 3, 4, 4, 4, 4, 0x12, 0x34]
    );
}

#[test]
fn record_that_is_too_long_is_refused() {
    let area = UserArea::new(255, vec![AreaPoint { x: Coordinate { integer: 0, hundredths: 0 }, y: Coordinate { integer: 0, hundredths: 0 } }; 255]);
    let config = BasicConfig::new(0, 0, 0, 0, 0, 0, 0, 0, 0, 0, 0, 65, vec![area; 65]);
    assert_eq!(
        KMConfigData::BasicConfig(config).to_frame(0, 0),
        Err(invalid("payload too long"))
    );
}

#[test]
fn error_message_has_prefix() {
    let e = LiDARError::invalid("not enough data");
    assert_eq!(e, invalid("not enough data"));
    assert_eq!(e.message(), "Invalid data: not enough data");
}
