use driverstation::recv::udp::{CodeStatus, UdpResponse};
use driverstation::send::tcp::{
    Joystick, JoystickType, MatchInfo, MatchType, Packet as TcpPacket, TcpEvent,
};
use driverstation::send::udp::UdpEvent;
use driverstation::{
    connection_alive, Alliance, GameData, Mode, State, TcpLoopState, TcpStep, UdpLoopState,
    UdpStep,
};

fn udp_bytes(p: &driverstation::send::udp::Packet) -> Vec<u8> {
    let mut out = Vec::new();
    p.write_bytes(&mut out);
    out
}

fn tcp_bytes(p: &TcpPacket) -> Vec<u8> {
    let mut out = Vec::new();
    p.write_bytes(&mut out);
    out
}

#[test]
fn empty_tcp_packet() {
    assert_eq!(tcp_bytes(&TcpPacket::default()), vec![0x00, 0x00]);
}

#[test]
fn tcp_packet_records_in_order() {
    let packet = TcpPacket::default()
        .with_game_data(Some(GameData::triple(b'A', b'A', b'A')))
        .with_match_info(Some(MatchInfo::new(Some(b"AB".to_vec()), MatchType::Practice)))
        .with_joystick(Joystick {
            index: 0,
            is_xbox: false,
            ty: JoystickType::Unknown,
            name: b"AB".to_vec(),
            axis_types: vec![driverstation::send::tcp::AxisType::X],
            button_count: 10,
            pov_count: 1,
        });
    let mut expected = vec![4, 0x0e, b'A', b'A', b'A'];
    expected.extend_from_slice(&[5, 0x07, 2, b'A', b'B', 1]);
    expected.extend_from_slice(&[10, 0x02, 0, 0, 0xff, b'A', b'B', 1, 0, 10, 1]);
    let bytes = tcp_bytes(&packet);
    assert_eq!(bytes, expected);
    // the packet length is the sum over present records of two bytes plus
    // each record's payload
    assert_eq!(bytes.len(), (2 + 3) + (2 + 4) + (2 + 9));
}

#[test]
fn absent_match_name_is_five_zero_bytes() {
    let packet =
        TcpPacket::default().with_match_info(Some(MatchInfo::new(None, MatchType::NoMatch)));
    assert_eq!(tcp_bytes(&packet), vec![8, 0x07, 5, 0, 0, 0, 0, 0, 0]);
}

#[test]
fn liveness_window() {
    assert!(connection_alive(1000, 600));
    assert!(connection_alive(600, 600));
    assert!(connection_alive(1100, 600));
    assert!(!connection_alive(1101, 600));
}

#[test]
fn state_tracks_responses() {
    let mut state = State::new(1234);
    assert!(!state.connected);
    assert_eq!(state.team, 1234);
    assert_eq!(state.code, CodeStatus::Initializing);

    let frame = [0x00, 0x05, 0x01, 0x04, 0x22, 0x0C, 0x80, 0x01];
    let resp = UdpResponse::try_from(&frame).unwrap();
    state.apply_response(&resp);
    assert!(state.connected);
    assert!(state.enabled);
    assert!(!state.estopped);
    assert_eq!(state.mode, Mode::Teleoperated);
    assert_eq!(state.code, CodeStatus::Running);
    assert_eq!(state.battery.to_bits(), 0x0C80);

    state.set_disconnected();
    assert!(!state.connected);
    assert!(state.enabled, "only the connection flag changes on loss");
}

#[test]
fn udp_loop_builds_heartbeats() {
    let mut udp = UdpLoopState::new(1234);
    assert_eq!(udp.sequence, 1);
    assert_eq!(udp.apply_event(UdpEvent::Enabled(true)), UdpStep::Continue);
    assert_eq!(udp.apply_event(UdpEvent::Mode(Mode::Autonomous)), UdpStep::Continue);
    assert_eq!(udp.apply_event(UdpEvent::Alliance(Alliance::Blue1)), UdpStep::Continue);
    assert_eq!(udp.apply_event(UdpEvent::RestartCode), UdpStep::Continue);

    let packet = udp.build_packet(false);
    // control: autonomous (2) | enable (4); request: restart code alone
    assert_eq!(udp_bytes(&packet), vec![0x00, 0x01, 0x01, 0x06, 0x04, 0x03]);
    assert_eq!(udp.sequence, 2);
    assert!(!udp.restarting_code, "one-shot requests clear after one frame");

    let packet = udp.build_packet(true);
    assert_eq!(udp_bytes(&packet), vec![0x00, 0x02, 0x01, 0x06, 0x10, 0x03]);
    assert_eq!(udp.sequence, 3);
}

#[test]
fn udp_sequence_wraps() {
    let mut udp = UdpLoopState::new(1);
    udp.sequence = 0xffff;
    let packet = udp.build_packet(false);
    let bytes = udp_bytes(&packet);
    assert_eq!(&bytes[0..2], &[0xff, 0xff]);
    assert_eq!(udp.sequence, 0);
    let packet = udp.build_packet(false);
    assert_eq!(&udp_bytes(&packet)[0..2], &[0x00, 0x00]);
    assert_eq!(udp.sequence, 1);
}

#[test]
fn udp_sequence_is_strictly_monotone() {
    let mut udp = UdpLoopState::new(1);
    let mut previous: Option<u16> = None;
    for _ in 0..5 {
        let packet = udp.build_packet(false);
        let bytes = udp_bytes(&packet);
        let on_wire = u16::from_be_bytes([bytes[0], bytes[1]]);
        if let Some(prev) = previous {
            assert_ne!(on_wire, prev);
            assert_eq!(on_wire, prev.wrapping_add(1));
        }
        previous = Some(on_wire);
    }
}

#[test]
fn udp_loop_reacts_to_commands() {
    let mut udp = UdpLoopState::new(1);
    assert_eq!(udp.apply_event(UdpEvent::TeamNumber(77)), UdpStep::Rebind);
    assert_eq!(udp.team, 77);
    assert_eq!(udp.apply_event(UdpEvent::Exit), UdpStep::Exit);
    assert_eq!(udp.apply_event(UdpEvent::Estopped(true)), UdpStep::Continue);
    let packet = udp.build_packet(false);
    assert_eq!(udp_bytes(&packet)[3], 0x80);
}

#[test]
fn udp_loop_drains_tags() {
    let mut udp = UdpLoopState::new(1);
    let tag = driverstation::send::udp::Tag::Countdown(0);
    assert!(tag.fits());
    assert_eq!(udp.apply_event(UdpEvent::Tag(tag)), UdpStep::Continue);
    let packet = udp.build_packet(false);
    assert_eq!(
        udp_bytes(&packet),
        vec![0x00, 0x01, 0x01, 0x00, 0x00, 0x00, 5, 0x07, 0, 0, 0, 0]
    );
    let packet = udp.build_packet(false);
    assert_eq!(udp_bytes(&packet).len(), 6, "the tag queue drained");
}

#[test]
fn tcp_loop_one_shot_semantics() {
    let mut tcp = TcpLoopState::new();
    assert_eq!(
        tcp.apply_event(TcpEvent::GameData(GameData::single(b'L'))),
        TcpStep::Continue
    );
    let mi = MatchInfo::new(None, MatchType::Qualifications);
    assert!(mi.fits());
    assert_eq!(tcp.apply_event(TcpEvent::MatchInfo(mi)), TcpStep::Continue);

    let packet = tcp.take_packet();
    let mut expected = vec![2, 0x0e, b'L'];
    expected.extend_from_slice(&[8, 0x07, 5, 0, 0, 0, 0, 0, 2]);
    assert_eq!(tcp_bytes(&packet), expected);

    // game data and match info are one-shot: the next packet is empty
    let packet = tcp.take_packet();
    assert_eq!(tcp_bytes(&packet), vec![0x00, 0x00]);
}

#[test]
fn tcp_loop_queues_joysticks() {
    let mut tcp = TcpLoopState::new();
    let js = Joystick {
        index: 1,
        is_xbox: true,
        ty: JoystickType::HIDGamepad,
        name: b"P".to_vec(),
        axis_types: vec![],
        button_count: 4,
        pov_count: 0,
    };
    assert!(js.fits());
    assert_eq!(tcp.apply_event(TcpEvent::Joystick(js)), TcpStep::Continue);
    let packet = tcp.take_packet();
    assert_eq!(tcp_bytes(&packet), vec![8, 0x02, 1, 1, 21, b'P', 0, 4, 0]);
    assert_eq!(tcp_bytes(&tcp.take_packet()), vec![0x00, 0x00]);
}

#[test]
fn tcp_loop_reacts_to_commands() {
    let mut tcp = TcpLoopState::new();
    assert_eq!(tcp.apply_event(TcpEvent::TeamNumber), TcpStep::Reconnect);
    assert_eq!(tcp.apply_event(TcpEvent::Exit), TcpStep::Exit);
}

#[test]
fn oversized_records_do_not_fit() {
    assert!(!MatchInfo::new(Some(vec![0u8; 253]), MatchType::NoMatch).fits());
    assert!(MatchInfo::new(Some(vec![0u8; 252]), MatchType::NoMatch).fits());
    let js = Joystick {
        index: 0,
        is_xbox: false,
        ty: JoystickType::Unknown,
        name: vec![0u8; 249],
        axis_types: vec![],
        button_count: 0,
        pov_count: 0,
    };
    assert!(!js.fits());
}
