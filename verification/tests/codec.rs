use driverstation::recv::udp::{Battery, Status, Tag as RecvTag, Trace, UdpParseError, UdpResponse};
use driverstation::send::udp::{Buttons, Control, Packet, Request, Tag};
use driverstation::{ip_from_team, Alliance, GameData, Mode};

fn bytes_of_packet(p: &Packet) -> Vec<u8> {
    let mut out = Vec::new();
    p.write_bytes(&mut out);
    out
}

#[test]
fn status_round_trip() {
    let control = Control::default()
        .with_mode(Mode::Autonomous)
        .with_enabled(true)
        .with_estopped(false);
    assert_eq!(control.mode(), Mode::Autonomous);
    assert!(control.enabled());
    assert!(!control.estopped());

    let mut out = Vec::new();
    control.write_bytes(&mut out);
    assert_eq!(out, vec![0x06]);
}

#[test]
fn battery_decode() {
    let battery = Battery::from_bits([0x0C, 0x80]);
    let bits = battery.to_bits();
    let voltage = (bits >> 8) as f32 + (bits & 0xFF) as f32 / 256.0;
    assert_eq!(voltage, 12.5);
}

#[test]
fn minimal_udp_response() {
    let frame = [0x00, 0x05, 0x01, 0x04, 0x22, 0x0C, 0x80, 0x01];
    let resp = UdpResponse::try_from(&frame).unwrap();
    assert_eq!(resp.sequence, 5);
    assert_eq!(resp.comm_version, 1);
    assert!(resp.status.enabled());
    assert!(!resp.status.estopped());
    assert_eq!(resp.trace.robot_code(), driverstation::recv::udp::CodeStatus::Running);
    let bits = resp.battery.to_bits();
    assert_eq!((bits >> 8) as f32 + (bits & 0xFF) as f32 / 256.0, 12.5);
    assert!(resp.first_conn);
    assert!(resp.tags.is_empty());
}

#[test]
fn short_frame_is_invalid_length() {
    let frame = [0u8; 7];
    assert_eq!(UdpResponse::try_from(&frame).unwrap_err(), UdpParseError::InvalidLength);
}

#[test]
fn tag_running_past_buffer_is_invalid_tag() {
    // header of 8 bytes, then a tag that declares more bytes than remain
    let frame = [0, 1, 1, 0, 0, 0, 0, 0, 5, 0x01];
    assert_eq!(UdpResponse::try_from(&frame).unwrap_err(), UdpParseError::InvalidTag);
}

#[test]
fn wrong_fixed_tag_size_is_invalid_tag() {
    let frame = [0, 1, 1, 0, 0, 0, 0, 0, 3, 0x01, 0xaa, 0xbb];
    assert_eq!(UdpResponse::try_from(&frame).unwrap_err(), UdpParseError::InvalidTag);
}

#[test]
fn unknown_tags_are_skipped() {
    // an unknown identifier and the silent 0x09 identifier both skip
    let frame = [0, 1, 1, 0, 0, 0, 0, 0, 2, 0x55, 0xaa, 3, 0x09, 1, 2];
    let resp = UdpResponse::try_from(&frame).unwrap();
    assert!(resp.tags.is_empty());
}

#[test]
fn zero_length_byte_is_skipped() {
    let frame = [0, 1, 1, 0, 0, 0, 0, 0, 0, 9, 0x06, 0, 0, 0, 1, 0, 0, 0, 2];
    let resp = UdpResponse::try_from(&frame).unwrap();
    assert_eq!(resp.tags, vec![RecvTag::RAMInfo { block: 1, free_space: 2 }]);
}

#[test]
fn ram_and_disk_tags_decode() {
    let frame = [
        0, 1, 1, 0, 0, 0, 0, 0, // header
        9, 0x06, 0, 0, 0, 7, 0, 0, 1, 0, // ram: block 7, free 256
        9, 0x04, 9, 9, 9, 9, 0, 0, 0, 42, // disk: 4 ignored bytes, free 42
    ];
    let resp = UdpResponse::try_from(&frame).unwrap();
    assert_eq!(
        resp.tags,
        vec![
            RecvTag::RAMInfo { block: 7, free_space: 256 },
            RecvTag::DiskInfo { free_space: 42 },
        ]
    );
}

#[test]
fn joystick_output_tag_decodes() {
    let frame = [
        0, 1, 1, 0, 0, 0, 0, 0, //
        9, 0x01, 0, 0, 0, 5, 0x12, 0x34, 0x56, 0x78,
    ];
    let resp = UdpResponse::try_from(&frame).unwrap();
    assert_eq!(
        resp.tags,
        vec![RecvTag::JoystickOutput {
            outputs: 5,
            left_rumble: 0x1234,
            right_rumble: 0x5678,
        }]
    );
}

#[test]
fn cpu_info_tag_decodes() {
    let mut frame = vec![0, 1, 1, 0, 0, 0, 0, 0, 34, 0x05];
    let mut payload = vec![0u8; 33];
    payload[0] = 2; // cpus
    payload[1..5].copy_from_slice(&1.0f32.to_be_bytes());
    payload[13..17].copy_from_slice(&2.0f32.to_be_bytes());
    payload[17..21].copy_from_slice(&3.0f32.to_be_bytes());
    payload[29..33].copy_from_slice(&4.0f32.to_be_bytes());
    frame.extend_from_slice(&payload);
    let resp = UdpResponse::try_from(&frame).unwrap();
    assert_eq!(
        resp.tags,
        vec![RecvTag::CPUInfo {
            num_cpus: 2,
            critical: 1.0f32.to_bits(),
            above_normal: 2.0f32.to_bits(),
            normal: 3.0f32.to_bits(),
            low: 4.0f32.to_bits(),
        }]
    );
}

#[test]
fn can_metrics_tag_decodes() {
    let mut frame = vec![0, 1, 1, 0, 0, 0, 0, 0, 15, 0x0e];
    frame.extend_from_slice(&0.5f32.to_be_bytes());
    frame.extend_from_slice(&[0, 0, 0, 1, 0, 0, 0, 2, 3, 4]);
    let resp = UdpResponse::try_from(&frame).unwrap();
    assert_eq!(
        resp.tags,
        vec![RecvTag::CANMetrics {
            utilization: 0.5f32.to_bits(),
            bus_off: 1,
            tx_full: 2,
            rx_errors: 3,
            tx_errors: 4,
        }]
    );
}

#[test]
fn pdp_log_tag_decodes() {
    let mut frame = vec![0, 1, 1, 0, 0, 0, 0, 0, 26, 0x08];
    let mut payload = vec![0u8; 25];
    // leading identifier byte, then 21 packed bytes: the first sample is the
    // top ten bits of the packed stream
    payload[1] = 0x80;
    frame.extend_from_slice(&payload);
    let resp = UdpResponse::try_from(&frame).unwrap();
    match &resp.tags[0] {
        RecvTag::PDPLog { stats } => {
            assert_eq!(stats.len(), 16);
            assert_eq!(stats[0], 512);
            for k in 1..16 {
                assert_eq!(stats[k], 0);
            }
        }
        other => panic!("expected a power-panel log, got {:?}", other),
    }
    assert_eq!(resp.tags.len(), 1);
}

#[test]
fn default_udp_packet_bytes() {
    let packet = Packet::default().with_sequence(1);
    assert_eq!(bytes_of_packet(&packet), vec![0x00, 0x01, 0x01, 0x00, 0x10, 0x00]);
}

#[test]
fn udp_packet_header_fields_encode() {
    let packet = Packet::default()
        .with_sequence(0x1234)
        .with_enabled(true)
        .with_estopped(false)
        .with_fms_connected(true)
        .with_mode(Mode::Test)
        .with_alliance(Alliance::Blue2)
        .with_reboot_roborio(true)
        .with_restart_code(false)
        .with_ds_connected(true);
    // control: test mode (1) | enable (4) | fms (8); request: ds (0x10) | reboot (8)
    assert_eq!(bytes_of_packet(&packet), vec![0x12, 0x34, 0x01, 0x0d, 0x18, 0x04]);
}

#[test]
fn countdown_tag_encodes() {
    let packet = Packet::default().with_sequence(1).with_tag(Tag::Countdown(2.0f32.to_bits()));
    let mut expected = vec![0x00, 0x01, 0x01, 0x00, 0x10, 0x00];
    expected.extend_from_slice(&[5, 0x07, 0x40, 0x00, 0x00, 0x00]);
    assert_eq!(bytes_of_packet(&packet), expected);
}

#[test]
fn date_and_timezone_tags_encode() {
    let packet = Packet::default().with_sequence(1).with_tags(vec![
        Tag::Date {
            microseconds: 1,
            second: 2,
            minute: 3,
            hour: 4,
            day: 5,
            month: 6,
            year: 7,
        },
        Tag::Timezone(b"UTC\0".to_vec()),
    ]);
    let mut expected = vec![0x00, 0x01, 0x01, 0x00, 0x10, 0x00];
    expected.extend_from_slice(&[11, 0x0f, 0, 0, 0, 1, 2, 3, 4, 5, 6, 7]);
    expected.extend_from_slice(&[5, 0x10, b'U', b'T', b'C', 0]);
    assert_eq!(bytes_of_packet(&packet), expected);
}

#[test]
fn joystick_tag_encodes() {
    let mut buttons = Buttons::new(10);
    buttons.set_button(0, true);
    assert_eq!(buttons.len(), 10);
    let packet = Packet::default().with_sequence(1).with_tag(Tag::Joystick {
        axes: vec![-1i8, 0x7f],
        buttons,
        povs: vec![-1i16],
    });
    let mut expected = vec![0x00, 0x01, 0x01, 0x00, 0x10, 0x00];
    // length 10 = payload 9 + identifier; axes, count-prefixed bitmap, povs
    expected.extend_from_slice(&[10, 0x0c, 2, 0xff, 0x7f, 10, 0x00, 0x01, 1, 0xff, 0xff]);
    assert_eq!(bytes_of_packet(&packet), expected);
}

#[test]
fn buttons_bitmap_is_big_endian() {
    let mut buttons = Buttons::new(10);
    buttons.set_button(3, true);
    let mut out = Vec::new();
    buttons.write_bytes(&mut out);
    assert_eq!(out, vec![0x00, 0x08]);
}

#[test]
fn oversized_tags_do_not_fit() {
    assert!(Tag::Countdown(0).fits());
    assert!(!Tag::Timezone(vec![0; 255]).fits());
    assert!(Tag::Timezone(vec![0; 254]).fits());
}

#[test]
fn request_byte_defaults_to_ds_connected() {
    let req = Request::default();
    assert!(req.ds_connected());
    assert!(!req.reboot_roborio());
    assert!(!req.restart_code());
    let set = req.with_restart_code(true).with_ds_connected(false);
    assert!(set.restart_code());
    assert!(!set.ds_connected());
}

#[test]
fn trace_bits_read_back() {
    let trace = Trace::from_bits(0x22);
    assert!(!trace.is_roborio());
    assert!(!trace.test_mode());
    assert!(!trace.autonomous_mode());
    assert!(trace.teleop_mode());
    assert!(trace.enabled());
    let disabled = Trace::from_bits(0x01);
    assert!(!disabled.enabled());
}

#[test]
fn status_bits_read_back() {
    let status = Status::from_bits(0x94);
    assert!(status.estopped());
    assert!(status.brownout());
    assert!(status.enabled());
    assert_eq!(status.mode(), Mode::Teleoperated);
    assert_eq!(Status::from_bits(0x02).mode(), Mode::Autonomous);
    // the protocol quirk: any other bit pattern reads as test mode
    assert_eq!(Status::from_bits(0x03).mode(), Mode::Test);
}

#[test]
fn mode_bits_round_trip() {
    assert_eq!(Mode::from_bits(Mode::Teleoperated.into_bits()), Mode::Teleoperated);
    assert_eq!(Mode::from_bits(Mode::Autonomous.into_bits()), Mode::Autonomous);
    assert_eq!(Mode::from_bits(Mode::Test.into_bits()), Mode::Test);
    assert_eq!(Mode::from_bits(3), Mode::Test);
}

#[test]
fn game_data_round_trips() {
    let double = GameData::double(b'L', b'R');
    let mut out = Vec::new();
    double.write_bytes(&mut out);
    assert_eq!(out, vec![b'L', b'R']);
    assert_eq!(GameData::from_bytes(&out), double);
    assert_eq!(double.len(), 2);

    let empty = GameData::empty();
    let mut out = Vec::new();
    empty.write_bytes(&mut out);
    assert!(out.is_empty());
    assert_eq!(GameData::from_bytes(&out), empty);

    let triple = GameData::triple(b'A', b'B', b'C');
    assert_eq!(triple.len(), 3);
    assert_eq!(GameData::single(b'Q').len(), 1);
}

#[test]
fn team_ip_formula() {
    assert_eq!(ip_from_team(1234), [10, 12, 34, 2]);
    assert_eq!(ip_from_team(8891), [10, 88, 91, 2]);
    assert_eq!(ip_from_team(1), [10, 0, 1, 2]);
}

#[test]
fn alliance_bytes_are_ordinals() {
    let stations = [
        Alliance::Red1,
        Alliance::Red2,
        Alliance::Red3,
        Alliance::Blue1,
        Alliance::Blue2,
        Alliance::Blue3,
    ];
    for (i, station) in stations.iter().enumerate() {
        let mut out = Vec::new();
        station.write_bytes(&mut out);
        assert_eq!(out, vec![i as u8]);
    }
}
