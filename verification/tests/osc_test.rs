use mycelium::event::{BusEvent, ControlEvent, InputSource};
use mycelium::osc::{collect_packet_events, handle_packet, message_event, OscPacket};

fn continuous(ev: Option<ControlEvent<f32>>) -> Option<(u8, f32)> {
    match ev {
        Some(ControlEvent::Continuous { source: InputSource::Osc, channel, value }) => Some((channel, value)),
        _ => None,
    }
}

fn trigger(ev: Option<ControlEvent<f32>>) -> Option<u8> {
    match ev {
        Some(ControlEvent::Trigger { source: InputSource::Osc, channel }) => Some(channel),
        _ => None,
    }
}

#[test]
fn cc_address_moves_numbered_channel() {
    assert_eq!(continuous(message_event("/cc/5", Some(0.5))), Some((5, 0.5)));
    assert_eq!(continuous(message_event("/control/12", Some(1.0))), Some((12, 1.0)));
    assert_eq!(continuous(message_event("//cc//7/", Some(0.25))), Some((7, 0.25)));
    assert_eq!(continuous(message_event("/cc/+9", Some(0.1))), Some((9, 0.1)));
}

#[test]
fn cc_without_valid_number_uses_channel_zero() {
    assert_eq!(continuous(message_event("/cc", Some(0.5))), Some((0, 0.5)));
    assert_eq!(continuous(message_event("/cc/300", Some(0.5))), Some((0, 0.5)));
    assert_eq!(continuous(message_event("/cc/x", Some(0.5))), Some((0, 0.5)));
    assert_eq!(continuous(message_event("/cc/-1", Some(0.5))), Some((0, 0.5)));
    assert_eq!(continuous(message_event("/cc/255", Some(0.5))), Some((255, 0.5)));
}

#[test]
fn trigger_and_note_addresses_trigger() {
    assert_eq!(trigger(message_event("/trigger/3", Some(1.0))), Some(3));
    assert_eq!(trigger(message_event("/note/64", Some(0.0))), Some(64));
    assert_eq!(trigger(message_event("/note", Some(0.0))), Some(0));
}

#[test]
fn other_addresses_hash_to_a_channel() {
    // "/param/zoom" byte sum 1076, 1076 % 128 = 52
    assert_eq!(continuous(message_event("/param/zoom", Some(0.3))), Some((52, 0.3)));
    // "/a" = 47 + 97 = 144, 144 % 128 = 16
    assert_eq!(continuous(message_event("/a", Some(0.3))), Some((16, 0.3)));
}

#[test]
fn messages_without_value_or_address_do_nothing() {
    assert!(message_event::<f32>("/cc/1", None).is_none());
    assert!(message_event("/", Some(1.0f32)).is_none());
    assert!(message_event("", Some(1.0f32)).is_none());
}

#[test]
fn bundles_are_walked_depth_first() {
    let packet = OscPacket::Bundle {
        content: vec![
            OscPacket::Message { addr: "/cc/1".to_string(), value: Some(0.1f32) },
            OscPacket::Bundle {
                content: vec![
                    OscPacket::Message { addr: "/trigger/2".to_string(), value: Some(1.0) },
                    OscPacket::Message { addr: "/cc/3".to_string(), value: None },
                ],
            },
            OscPacket::Message { addr: "/cc/4".to_string(), value: Some(0.4) },
        ],
    };
    let mut out = Vec::new();
    collect_packet_events(&packet, &mut out);
    assert_eq!(out.len(), 3);
    assert_eq!(continuous(Some(out[0])), Some((1, 0.1)));
    assert_eq!(trigger(Some(out[1])), Some(2));
    assert_eq!(continuous(Some(out[2])), Some((4, 0.4)));
}

#[test]
fn handled_packets_reach_the_bus() {
    let (tx, rx) = crossbeam::channel::bounded::<BusEvent<f32>>(8);
    let packet = OscPacket::Message { addr: "/trigger/6".to_string(), value: Some(1.0) };
    handle_packet(&packet, &tx);
    match rx.try_recv() {
        Ok(BusEvent::Control(ControlEvent::Trigger { source: InputSource::Osc, channel })) => {
            assert_eq!(channel, 6)
        }
        other => panic!("unexpected {:?}", other),
    }
    assert!(rx.try_recv().is_err());
}
