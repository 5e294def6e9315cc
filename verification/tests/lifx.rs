use my_home::lifx::codec::{unpack_would_panic, LifxCodec, LifxError};
use my_home::lifx::{
    Color, Handled, Hsbk, LifxMessage, Manager, PowerLevel, Request, SendOptions, SOURCE,
};

fn options(target: Option<u64>, source: u32) -> SendOptions {
    SendOptions { target, ack_required: false, res_required: true, sequence: 0, source }
}

#[test]
fn encode_and_decode() {
    let options = options(Some(1), 2);

    let orig_color = Hsbk { hue: 5, saturation: 6, brightness: 7, kelvin: 8 };
    let message = Request::LightSetColor { reserved: 0, color: orig_color, duration: 9 };

    // Encode two messages back to back
    let mut buffer = Vec::new();
    LifxCodec.encode((options, message), &mut buffer).unwrap();
    LifxCodec.encode((options, message), &mut buffer).unwrap();

    let test = |res| match res {
        Ok(Some((address, LifxMessage::LightSetColor { reserved, color, duration }))) => {
            let address: my_home::lifx::codec::FrameAddress = address;
            assert_eq!(address.target, 1);
            assert_eq!(reserved, 0);
            assert_eq!(color, orig_color);
            assert_eq!(duration, 9);
        }
        r => assert!(false, "result {:?} was not expected", r),
    };

    // There are two messages following each other. A decoder should remove a decoded message
    // from the buffer once it has read it.
    test(LifxCodec.decode(&mut buffer));
    test(LifxCodec.decode(&mut buffer));
    assert!(buffer.is_empty());
}

#[test]
fn encoded_bytes_of_a_broadcast_get_service() {
    let mut buffer = vec![0xEE];
    LifxCodec.encode((options(None, 0x72757374), Request::GetService), &mut buffer).unwrap();
    assert_eq!(
        buffer,
        vec![
            0xEE, // what was already there
            36, 0, // size
            0x00, 0x34, // tagged, addressable, protocol 1024
            0x74, 0x73, 0x75, 0x72, // source
            0, 0, 0, 0, 0, 0, 0, 0, // target
            0, 0, 0, 0, 0, 0, // reserved
            1, 0, // res_required, sequence
            0, 0, 0, 0, 0, 0, 0, 0, // reserved
            2, 0, // GetService
            0, 0, // reserved
        ]
    );
}

#[test]
fn encoded_payload_of_set_power() {
    let mut buffer = Vec::new();
    LifxCodec
        .encode((options(Some(0x0102), 1), Request::SetPower { level: PowerLevel::Enabled }), &mut buffer)
        .unwrap();
    assert_eq!(buffer.len(), 38);
    assert_eq!(&buffer[0..2], &[38, 0]);
    assert_eq!(&buffer[8..16], &[0x02, 0x01, 0, 0, 0, 0, 0, 0]);
    assert_eq!(&buffer[32..34], &[21, 0]);
    assert_eq!(&buffer[36..38], &[0xFF, 0xFF]);
}

#[test]
fn decode_waits_for_a_whole_header() {
    let mut full = Vec::new();
    LifxCodec.encode((options(Some(3), 1), Request::GetLabel), &mut full).unwrap();
    let mut part = full[0..20].to_vec();
    assert!(matches!(LifxCodec.decode(&mut part), Ok(None)));
    assert_eq!(part, full[0..20].to_vec());
    let mut empty = Vec::new();
    assert!(matches!(LifxCodec.decode(&mut empty), Ok(None)));
}

#[test]
fn decode_refuses_another_protocol() {
    let mut full = Vec::new();
    LifxCodec.encode((options(Some(3), 1), Request::GetLabel), &mut full).unwrap();
    full[2] = 0x01; // protocol 1025
    assert!(matches!(LifxCodec.decode(&mut full), Err(LifxError::ProtocolError(_))));
}

#[test]
fn decode_reports_an_unknown_message_type() {
    let mut full = Vec::new();
    LifxCodec.encode((options(Some(3), 1), Request::GetLabel), &mut full).unwrap();
    full[32] = 0xFF;
    full[33] = 0x7F;
    assert!(matches!(LifxCodec.decode(&mut full), Err(LifxError::UnknownMessageType(0x7FFF))));
    assert!(full.is_empty());
}

#[test]
fn decode_eof_refuses_bytes_left_over() {
    let mut left = vec![1, 2, 3];
    match LifxCodec.decode_eof(&mut left) {
        Err(LifxError::Io(m)) => assert_eq!(m, "bytes remaining on stream"),
        r => panic!("unexpected {:?}", r),
    }
    let mut empty = Vec::new();
    assert!(matches!(LifxCodec.decode_eof(&mut empty), Ok(None)));
}

#[test]
fn frames_the_reader_would_choke_on() {
    let mut full = Vec::new();
    LifxCodec.encode((options(Some(3), 1), Request::GetLabel), &mut full).unwrap();
    assert!(!unpack_would_panic(&full));
    let mut too_big = full.clone();
    too_big[0] = 40; // says 40 bytes, holds 36
    assert!(unpack_would_panic(&too_big));
    let mut not_addressable = full.clone();
    not_addressable[3] &= !0x10;
    assert!(unpack_would_panic(&not_addressable));
    assert!(!unpack_would_panic(&[1, 2]));
}

fn known_bulb(manager: &mut Manager<u32, u64>, target: u64, group: &str, color: Hsbk, level: u16) {
    manager.receive(target, LifxMessage::StateVersion { vendor: 1, product: 1 }, 10, 56700, 1);
    manager.receive(target, LifxMessage::StateGroup { label: group.to_string() }, 10, 56700, 2);
    manager.receive(
        target,
        LifxMessage::LightState { color, power: level, label: format!("bulb {}", target) },
        10,
        56700,
        3,
    );
}

#[test]
fn a_zero_target_is_skipped() {
    let mut manager: Manager<u32, u64> = Manager::new(99);
    assert_eq!(manager.receive(0, LifxMessage::StateLabel { label: "x".to_string() }, 1, 56700, 0), None);
    assert!(manager.refresh().is_empty());
}

#[test]
fn a_bulb_is_recorded_then_updated() {
    let mut manager: Manager<u32, u64> = Manager::new(99);
    let h = manager.receive(7, LifxMessage::StateService { service: 1, port: 56700 }, 1, 56700, 0);
    assert_eq!(h, Some(Handled::Updated));
    let h = manager.receive(7, LifxMessage::StateService { service: 1, port: 1234 }, 1, 56700, 0);
    assert_eq!(h, Some(Handled::UnsupportedService { service: 1, port: 1234 }));
    let h = manager.receive(7, LifxMessage::GetService, 2, 56700, 5);
    assert_eq!(h, Some(Handled::Unsupported));
    let out = manager.refresh();
    assert_eq!(out.len(), 6);
    assert_eq!(out[0].request, Request::GetLabel);
    assert_eq!(out[5].request, Request::LightGet);
    assert_eq!(out[0].address, 2);
    assert_eq!(out[0].options.target, Some(7));
    assert_eq!(out[0].options.source, SOURCE);
}

#[test]
fn discovery_is_a_broadcast() {
    let manager: Manager<u32, u64> = Manager::new(99);
    let d = manager.discovery();
    assert_eq!(d.request, Request::GetService);
    assert_eq!(d.address, 99);
    assert_eq!(d.options.target, None);
    assert_eq!(d.options.source, 0x72757374);
}

#[test]
fn the_product_table_decides_single_or_multizone() {
    let mut manager: Manager<u32, u64> = Manager::new(99);
    // LIFX Original 1000 is a single zone light
    manager.receive(1, LifxMessage::StateVersion { vendor: 1, product: 1 }, 1, 56700, 0);
    // LIFX Z is a multizone light
    manager.receive(2, LifxMessage::StateVersion { vendor: 1, product: 31 }, 1, 56700, 0);
    assert!(matches!(manager.get(1).unwrap().color, Color::Single(None)));
    assert!(matches!(manager.get(2).unwrap().color, Color::Multi(None)));
    assert!(manager.get(3).is_none());
}

#[test]
fn group_brightness_sets_color_then_power() {
    let mut manager: Manager<u32, u64> = Manager::new(99);
    let c = Hsbk { hue: 7461, saturation: 0, brightness: 1966, kelvin: 3500 };
    known_bulb(&mut manager, 1, "desk", c, 65535);
    known_bulb(&mut manager, 2, "kitchen", c, 65535);
    known_bulb(&mut manager, 3, "desk", c, 0);

    let colors = manager.get_group_colors("desk");
    assert_eq!(colors.len(), 2);
    assert_eq!(colors[0].0, 1);
    assert_eq!(colors[0].3, Some(PowerLevel::Enabled));
    assert_eq!(colors[1].3, Some(PowerLevel::Standby));
    let bulb = manager.get(1).unwrap();
    assert_eq!(bulb.name.as_deref(), Some("bulb 1"));
    assert_eq!(bulb.last_seen, 3);

    // Dim to 500: the enabled bulb goes to standby, the other stays so.
    let out = manager.set_group_brightness("desk", 500);
    assert_eq!(out.len(), 3);
    assert_eq!(
        out[0].request,
        Request::LightSetColor { reserved: 0, color: Hsbk { brightness: 500, ..c }, duration: 5 }
    );
    assert_eq!(out[1].request, Request::SetPower { level: PowerLevel::Standby });
    assert_eq!(out[2].options.target, Some(3));

    // Brighten to 2000: the bulb in standby is enabled.
    let out = manager.set_group_brightness("desk", 2000);
    assert_eq!(out.len(), 3);
    assert_eq!(out[2].request, Request::SetPower { level: PowerLevel::Enabled });
    assert_eq!(out[2].options.target, Some(3));
}

#[test]
fn a_brightness_of_1000_keeps_an_enabled_bulb_on() {
    let mut manager: Manager<u32, u64> = Manager::new(99);
    let c = Hsbk { hue: 1, saturation: 2, brightness: 3, kelvin: 4 };
    known_bulb(&mut manager, 1, "desk", c, 65535);
    let out = manager.set_group_brightness("desk", 1000);
    assert_eq!(out.len(), 1);
    assert_eq!(out[0].request, Request::LightSetColor { reserved: 0, color: Hsbk { brightness: 1000, ..c }, duration: 5 });
    let out = manager.set_group_brightness("desk", 999);
    assert_eq!(out.len(), 2);
    assert_eq!(out[1].request, Request::SetPower { level: PowerLevel::Standby });
}
