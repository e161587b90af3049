use mycelium::bus::{fill_in_priority_order, AudioTripleBuffer, PluginBus, TripleBuffer};
use mycelium::event::{BusEvent, ControlEvent, InputSource, NodeId, ParamId, RuntimeMode};

#[derive(Clone, Copy, Default, Debug, PartialEq)]
struct AudioFrame {
    bands: [f32; 6],
    energy: f32,
}

#[test]
fn test_discrete_events_drain_in_priority_order() {
    let bus: PluginBus<f32, AudioFrame> = PluginBus::new();
    let sender = bus.event_sender();

    sender.send(BusEvent::ConfigReload).unwrap();
    sender
        .send(BusEvent::ParamChange {
            node: NodeId(1),
            param: ParamId(0),
            value: 0.5,
        })
        .unwrap();
    sender
        .send(BusEvent::Control(ControlEvent::Trigger {
            source: InputSource::Midi,
            channel: 0,
        }))
        .unwrap();

    let mut buf = Vec::new();
    bus.drain_events(&mut buf);

    assert_eq!(buf.len(), 3);
    assert_eq!(buf[0].priority(), 0); // control first
    assert_eq!(buf[1].priority(), 1); // ParamChange second
    assert_eq!(buf[2].priority(), 3); // ConfigReload last
}

#[test]
fn test_audio_triple_buffer_latest_value_wins() {
    let bus: PluginBus<f32, AudioFrame> = PluginBus::new();
    let audio_buf = bus.audio_buffer();

    let mut frame = AudioFrame::default();
    frame.bands[0] = 0.5;
    audio_buf.write(&frame);

    frame.bands[0] = 0.9;
    audio_buf.write(&frame);

    let mut target = AudioFrame::default();
    bus.read_audio(&mut target);

    assert!(target.bands[0] > 0.4);
}

#[test]
fn test_drain_reuses_buffer() {
    let bus: PluginBus<f32, AudioFrame> = PluginBus::new();
    let sender = bus.event_sender();

    let mut buf = Vec::with_capacity(100);

    sender.send(BusEvent::ConfigReload).unwrap();
    bus.drain_events(&mut buf);
    assert_eq!(buf.len(), 1);

    sender.send(BusEvent::ConfigReload).unwrap();
    bus.drain_events(&mut buf);
    assert_eq!(buf.len(), 1);
    assert!(buf.capacity() >= 100);
}

#[test]
fn priorities_of_every_event_kind() {
    let c: BusEvent<f32> = BusEvent::Control(ControlEvent::Continuous {
        source: InputSource::Osc,
        channel: 3,
        value: 0.2,
    });
    assert_eq!(c.priority(), 0);
    assert_eq!(BusEvent::BeatTrigger { bpm: 120.0f32, phase: 0.0 }.priority(), 0);
    assert_eq!(
        BusEvent::ParamChange { node: NodeId(0), param: ParamId(2), value: 1.0f32 }.priority(),
        1
    );
    assert_eq!(BusEvent::<f32>::NodeGraphUpdate.priority(), 2);
    assert_eq!(BusEvent::<f32>::ModeSwitch(RuntimeMode::Live).priority(), 2);
    assert_eq!(BusEvent::<f32>::ConfigReload.priority(), 3);
}

#[test]
fn equal_priorities_keep_arrival_order() {
    let events: Vec<BusEvent<u32>> = vec![
        BusEvent::ConfigReload,
        BusEvent::ParamChange { node: NodeId(1), param: ParamId(1), value: 10 },
        BusEvent::NodeGraphUpdate,
        BusEvent::BeatTrigger { bpm: 1, phase: 2 },
        BusEvent::ParamChange { node: NodeId(2), param: ParamId(2), value: 20 },
        BusEvent::ModeSwitch(RuntimeMode::Ambient),
        BusEvent::Control(ControlEvent::Trigger { source: InputSource::Keyboard, channel: 4 }),
    ];
    let mut buf = vec![BusEvent::NodeGraphUpdate; 9];
    fill_in_priority_order(&events, &mut buf);
    let summary: Vec<String> = buf.iter().map(|e| format!("{:?}", e)).collect();
    assert_eq!(
        summary,
        vec![
            format!("{:?}", events[3]),
            format!("{:?}", events[6]),
            format!("{:?}", events[1]),
            format!("{:?}", events[4]),
            format!("{:?}", events[2]),
            format!("{:?}", events[5]),
            format!("{:?}", events[0]),
        ]
    );
}

#[test]
fn drain_with_nothing_sent_is_empty() {
    let bus: PluginBus<f32, AudioFrame> = PluginBus::new();
    let mut buf = vec![BusEvent::ConfigReload];
    bus.drain_events(&mut buf);
    assert!(buf.is_empty());
}

#[test]
fn read_without_new_frame_keeps_target() {
    let bus: PluginBus<f32, AudioFrame> = PluginBus::new();
    let mut target = AudioFrame { bands: [1.0; 6], energy: 2.0 };
    bus.read_audio(&mut target);
    assert_eq!(target, AudioFrame { bands: [1.0; 6], energy: 2.0 });

    let frame = AudioFrame { bands: [0.25; 6], energy: 0.5 };
    bus.audio_buffer().write(&frame);
    bus.read_audio(&mut target);
    assert_eq!(target, frame);

    let mut other = AudioFrame::default();
    bus.read_audio(&mut other);
    assert_eq!(other, AudioFrame::default());
}

#[test]
fn triple_buffer_hands_out_latest_write() {
    let mut tb = TripleBuffer::new(0u64);
    let mut target = 99u64;
    tb.read(&mut target);
    assert_eq!(target, 99);
    for v in 1..=5u64 {
        tb.write(v);
    }
    tb.read(&mut target);
    assert_eq!(target, 5);
    tb.write(6);
    tb.read(&mut target);
    assert_eq!(target, 6);
    tb.read(&mut target);
    assert_eq!(target, 6);
}

#[test]
fn default_bus_and_buffer_start_empty() {
    let bus: PluginBus<f32, AudioFrame> = PluginBus::default();
    bus.event_sender().send(BusEvent::NodeGraphUpdate).unwrap();
    let mut buf = Vec::new();
    bus.drain_events(&mut buf);
    assert_eq!(buf.len(), 1);
    assert_eq!(buf[0].priority(), 2);

    let shared: AudioTripleBuffer<AudioFrame> = AudioTripleBuffer::default();
    let mut target = AudioFrame { bands: [3.0; 6], energy: 1.0 };
    shared.read(&mut target);
    assert_eq!(target, AudioFrame { bands: [3.0; 6], energy: 1.0 });
    let frame = AudioFrame { bands: [0.5; 6], energy: 0.25 };
    shared.write(&frame);
    shared.read(&mut target);
    assert_eq!(target, frame);
}
