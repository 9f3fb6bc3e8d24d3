use lidar_server::config::{KMConfigData, MotorSpeed};
use lidar_server::error::LiDARError;
use lidar_server::frame::{accumulate, encode_frame, progress, Progress};
use lidar_server::key::{CompanyInfo, LiDARChannelData, LiDARKey};
use lidar_server::parser::{decode_frame, Content, KanaviMobilityParser};
use lidar_server::reassembly::{outgoing, Datagram, Reassembler};

fn motor_frame(speed: u8) -> Vec<u8> {
    encode_frame(0, 1, 0xCF, 0x63, &[speed]).unwrap()
}

fn invalid(reason: &str) -> LiDARError {
    LiDARError::InvalidData(reason.to_string())
}

#[test]
fn key_packs_address_and_port() {
    let key = LiDARKey::new([192, 168, 0, 10], 5000);
    assert_eq!(key.key, (192u64 << 40) | (168u64 << 32) | (0u64 << 24) | (10u64 << 16) | 5000);
    assert_eq!(key.get_ip(), [192, 168, 0, 10]);
    assert_eq!(key.get_port(), 5000);
    assert!(key.key < (1u64 << 48));
}

#[test]
fn key_round_trips_at_the_edges() {
    for ip in [[0u8, 0, 0, 0], [255, 255, 255, 255], [1, 2, 3, 4], [0, 0, 0, 255], [255, 0, 0, 0]] {
        for port in [0u16, 1, 255, 256, 65535] {
            let key = LiDARKey::new(ip, port);
            assert_eq!(key.get_ip(), ip);
            assert_eq!(key.get_port(), port);
        }
    }
    assert_ne!(LiDARKey::new([1, 2, 3, 4], 5), LiDARKey::new([1, 2, 3, 5], 4));
    assert_ne!(LiDARKey::new([0, 0, 0, 1], 0), LiDARKey::new([0, 0, 0, 0], 1));
}

#[test]
fn key_reads_only_its_own_bits() {
    let key = LiDARKey { key: u64::MAX };
    assert_eq!(key.get_ip(), [255, 255, 255, 255]);
    assert_eq!(key.get_port(), 65535);
    let key = LiDARKey { key: 0xABCD_0102_0304_0506 };
    assert_eq!(key.get_ip(), [1, 2, 3, 4]);
    assert_eq!(key.get_port(), 0x0506);
}

#[test]
fn channel_data_keeps_what_it_is_given() {
    let data = LiDARChannelData::new(LiDARKey::new([1, 2, 3, 4], 5), vec![6, 7]);
    assert_eq!(data.key.key, LiDARKey::new([1, 2, 3, 4], 5).key);
    assert_eq!(data.raw_data, vec![6, 7]);
}

#[test]
fn company_is_told_by_tag_and_by_sync_byte() {
    assert_eq!(CompanyInfo::try_from(0u8), Ok(CompanyInfo::KanaviMobility));
    assert_eq!(CompanyInfo::try_from(1u8), Ok(CompanyInfo::Unknown));
    assert_eq!(CompanyInfo::try_from(255u8), Ok(CompanyInfo::Unknown));
    assert_eq!(CompanyInfo::detect(0xFA), CompanyInfo::KanaviMobility);
    assert_eq!(CompanyInfo::detect(0x00), CompanyInfo::Unknown);
}

#[test]
fn progress_of_gathered_bytes() {
    let frame = motor_frame(5);
    assert_eq!(progress(&[]), Progress::Empty);
    assert_eq!(progress(&[0x00]), Progress::BadSync);
    assert_eq!(progress(&[0xFB, 1, 2, 3, 4, 5, 6, 7, 8]), Progress::BadSync);
    for cut in 1..frame.len() {
        assert_eq!(progress(&frame[..cut]), Progress::Partial);
    }
    assert_eq!(progress(&frame), Progress::Complete);
    let mut longer = frame.clone();
    longer.push(0);
    assert_eq!(progress(&longer), Progress::Overrun);
}

#[test]
fn frame_is_complete_only_at_its_declared_length() {
    for declared in [0usize, 1, 2, 255, 256, 4095, 65535] {
        let payload = vec![0x5Au8; declared];
        let frame = encode_frame(9, 9, 0x12, 0x34, &payload).unwrap();
        assert_eq!(frame.len(), declared + 8);
        let mut reassembler = Reassembler::new();
        let key = LiDARKey::new([10, 0, 0, 1], 4000);
        let (state, out) = reassembler.push(key, &frame[..frame.len() - 1]);
        assert_eq!(state, Progress::Partial);
        assert!(out.is_none());
        assert_eq!(reassembler.pending(key), frame.len() - 1);
        let (state, out) = reassembler.push(key, &frame[frame.len() - 1..]);
        assert_eq!(state, Progress::Complete);
        assert_eq!(out, Some(LiDARChannelData::new(key, frame.clone())));
        assert_eq!(reassembler.pending(key), 0);
    }
}

#[test]
fn byte_at_a_time_equals_all_at_once() {
    let frame = motor_frame(5);
    let key = LiDARKey::new([10, 0, 0, 1], 4000);

    let mut whole = Reassembler::new();
    let (state, at_once) = whole.push(key, &frame);
    assert_eq!(state, Progress::Complete);

    let mut bytewise = Reassembler::new();
    let mut last = None;
    for (i, byte) in frame.iter().enumerate() {
        let (state, out) = bytewise.push(key, &[*byte]);
        if i + 1 < frame.len() {
            assert_eq!(state, Progress::Partial);
            assert!(out.is_none());
            assert_eq!(bytewise.pending(key), i + 1);
        } else {
            last = out;
        }
    }
    assert_eq!(last, at_once);
    let data = last.unwrap();
    assert_eq!(
        decode_frame(&data.raw_data).unwrap().content,
        Content::Config(KMConfigData::MotorSpeed(MotorSpeed::new(5)))
    );
    assert_eq!(decode_frame(&data.raw_data), decode_frame(&frame));
}

#[test]
fn bad_sync_discards_and_next_frame_decodes() {
    let mut reassembler = Reassembler::new();
    let key = LiDARKey::new([10, 0, 0, 1], 4000);
    let mut bad = motor_frame(5);
    bad[0] = 0x00;
    let (state, out) = reassembler.push(key, &bad);
    assert_eq!(state, Progress::BadSync);
    assert!(out.is_none());
    assert_eq!(reassembler.pending(key), 0);
    let (state, out) = reassembler.push(key, &motor_frame(6));
    assert_eq!(state, Progress::Complete);
    let data = out.unwrap();
    assert_eq!(
        decode_frame(&data.raw_data).unwrap().content,
        Content::Config(KMConfigData::MotorSpeed(MotorSpeed::new(6)))
    );
}

#[test]
fn overrun_discards_the_whole_buffer() {
    let mut reassembler = Reassembler::new();
    let key = LiDARKey::new([10, 0, 0, 1], 4000);
    let frame = motor_frame(5);
    assert_eq!(reassembler.push(key, &frame[..4]).0, Progress::Partial);
    let mut rest = frame[4..].to_vec();
    rest.extend_from_slice(&[1, 2, 3]);
    let (state, out) = reassembler.push(key, &rest);
    assert_eq!(state, Progress::Overrun);
    assert!(out.is_none());
    assert_eq!(reassembler.pending(key), 0);
    assert_eq!(reassembler.push(key, &frame).0, Progress::Complete);
}

#[test]
fn empty_datagram_changes_nothing() {
    let mut reassembler = Reassembler::new();
    let key = LiDARKey::new([10, 0, 0, 1], 4000);
    assert_eq!(reassembler.push(key, &[]), (Progress::Empty, None));
    assert_eq!(reassembler.push(key, &[0xFA, 1]).0, Progress::Partial);
    assert_eq!(reassembler.push(key, &[]).0, Progress::Partial);
    assert_eq!(reassembler.pending(key), 2);
}

#[test]
fn devices_are_gathered_apart() {
    let mut reassembler = Reassembler::new();
    let a = LiDARKey::new([10, 0, 0, 1], 4000);
    let b = LiDARKey::new([10, 0, 0, 2], 4000);
    let c = LiDARKey::new([10, 0, 0, 1], 4001);
    let fa = motor_frame(1);
    let fb = motor_frame(2);
    assert!(reassembler.push(a, &fa[..5]).1.is_none());
    assert!(reassembler.push(b, &fb[..3]).1.is_none());
    assert_eq!(reassembler.pending(a), 5);
    assert_eq!(reassembler.pending(b), 3);
    assert_eq!(reassembler.pending(c), 0);
    assert_eq!(reassembler.push(b, &[0xCF, 0x63, 0, 0, 1, 2, 3]).0, Progress::Overrun);
    assert_eq!(reassembler.pending(a), 5);
    let out = reassembler.push(a, &fa[5..]).1.unwrap();
    assert_eq!(out.raw_data, fa);
    assert_eq!(out.key, a);
}

#[test]
fn accumulate_takes_the_frame_out_of_the_buffer() {
    let frame = motor_frame(5);
    let mut buffer = frame[..3].to_vec();
    let (state, out) = accumulate(&mut buffer, &frame[3..]);
    assert_eq!(state, Progress::Complete);
    assert_eq!(out, Some(frame));
    assert!(buffer.is_empty());
    let (state, out) = accumulate(&mut buffer, &[0xFA, 0, 0]);
    assert_eq!(state, Progress::Partial);
    assert_eq!(out, None);
    assert_eq!(buffer, vec![0xFA, 0, 0]);
}

#[test]
fn parser_gathers_and_decodes() {
    let frame = motor_frame(5);
    let mut parser = KanaviMobilityParser::new();
    assert_eq!(parser.parse(&[]), Err(invalid("not enough data")));
    assert_eq!(parser.parse(&frame[..4]), Err(invalid("not enough data")));
    assert_eq!(parser.pending(), 4);
    let decoded = parser.parse(&frame[4..]).unwrap();
    assert_eq!(decoded.content, Content::Config(KMConfigData::MotorSpeed(MotorSpeed::new(5))));
    assert_eq!(decoded.raw_data, frame);
    assert_eq!(parser.pending(), 0);
    assert_eq!(parser.parse(&[0x01, 0x02]), Err(invalid("header not found")));
    assert_eq!(parser.pending(), 0);
    let mut longer = frame.clone();
    longer.push(1);
    assert_eq!(parser.parse(&longer), Err(invalid("too much data")));
    assert_eq!(parser.pending(), 0);
    let unsupported = encode_frame(0, 1, 0xCF, 0x99, &[1]).unwrap();
    assert_eq!(parser.parse(&unsupported), Err(invalid("not supported param")));
    assert_eq!(parser.pending(), 0);
    assert_eq!(
        parser.parse_cf(0, 0x63, &[4]),
        Ok(KMConfigData::MotorSpeed(MotorSpeed::new(4)))
    );
}

#[test]
fn receive_seals_the_completed_frame() {
    let frame = motor_frame(5);
    let mut reassembler = Reassembler::new();
    assert_eq!(reassembler.receive([10, 0, 0, 1], 4000, &frame[..2]), None);
    let envelope = reassembler.receive([10, 0, 0, 1], 4000, &frame[2..]).unwrap();
    let opened = LiDARChannelData::open(&envelope).unwrap();
    assert_eq!(opened.key, LiDARKey::new([10, 0, 0, 1], 4000));
    assert_eq!(opened.raw_data, frame);
}

#[test]
fn envelope_bytes_are_the_standard_encoding() {
    let small = LiDARChannelData::new(LiDARKey { key: 5 }, vec![1, 2]);
    assert_eq!(small.seal(), vec![5, 2, 1, 2]);
    let edge = LiDARChannelData::new(LiDARKey { key: 250 }, vec![]);
    assert_eq!(edge.seal(), vec![250, 0]);
    let two = LiDARChannelData::new(LiDARKey { key: 251 }, vec![9]);
    assert_eq!(two.seal(), vec![251, 251, 0, 1, 9]);
    let four = LiDARChannelData::new(LiDARKey { key: 0x0001_0000 }, vec![9]);
    assert_eq!(four.seal(), vec![252, 0, 0, 1, 0, 1, 9]);
    let eight = LiDARChannelData::new(LiDARKey { key: 0x0102_0304_0506_0708 }, vec![]);
    assert_eq!(eight.seal(), vec![253, 8, 7, 6, 5, 4, 3, 2, 1, 0]);
    let long = LiDARChannelData::new(LiDARKey { key: 0 }, vec![7; 300]);
    let sealed = long.seal();
    assert_eq!(&sealed[..4], &[0, 251, 0x2C, 0x01]);
    assert_eq!(sealed.len(), 304);
}

#[test]
fn envelope_round_trips() {
    for key in [0u64, 250, 251, 65535, 65536, 0xFFFF_FFFF, 0x1_0000_0000, u64::MAX] {
        for len in [0usize, 1, 250, 251, 70000] {
            let data = LiDARChannelData::new(LiDARKey { key }, vec![0xA5; len]);
            let sealed = data.seal();
            assert_eq!(LiDARChannelData::open(&sealed), Some(data.clone()));
            let mut followed = sealed.clone();
            followed.extend_from_slice(&[1, 2, 3]);
            assert_eq!(LiDARChannelData::open(&followed), Some(data));
        }
    }
}

#[test]
fn open_refuses_what_is_no_envelope() {
    assert_eq!(LiDARChannelData::open(&[]), None);
    assert_eq!(LiDARChannelData::open(&[5]), None);
    assert_eq!(LiDARChannelData::open(&[5, 2, 1]), None);
    assert_eq!(LiDARChannelData::open(&[254, 0, 0]), None);
    assert_eq!(LiDARChannelData::open(&[255, 0, 0]), None);
    assert_eq!(LiDARChannelData::open(&[251, 1]), None);
    assert_eq!(LiDARChannelData::open(&[0, 253, 255, 255, 255, 255, 255, 255, 255, 255]), None);
    assert_eq!(
        LiDARChannelData::open(&[251, 5, 0, 0]),
        Some(LiDARChannelData::new(LiDARKey { key: 5 }, vec![]))
    );
}

#[test]
fn outgoing_addresses_the_group_on_the_device_port() {
    let data = LiDARChannelData::new(LiDARKey::new([192, 168, 0, 10], 5000), vec![1, 2, 3]);
    assert_eq!(
        outgoing(&data.seal()),
        Some(Datagram { group: [224, 0, 0, 5], port: 5000, payload: vec![1, 2, 3] })
    );
    assert_eq!(outgoing(&[254]), None);
}
