use mycelium::event::{ControlEvent, InputSource};
use mycelium::gamepad::{gamepad_control, GamepadInput};

#[test]
fn axis_moves_its_channel() {
    match gamepad_control(GamepadInput::Axis { axis: 3, position: 0.75f32 }) {
        Some(ControlEvent::Continuous { source: InputSource::Gamepad, channel: 3, value }) => {
            assert_eq!(value, 0.75)
        }
        other => panic!("unexpected {other:?}"),
    }
}

#[test]
fn button_triggers_its_channel() {
    assert!(matches!(
        gamepad_control(GamepadInput::<f32>::Button { button: 9 }),
        Some(ControlEvent::Trigger { source: InputSource::Gamepad, channel: 9 })
    ));
}

#[test]
fn other_gamepad_events_send_nothing() {
    assert!(gamepad_control(GamepadInput::<f32>::Other).is_none());
}
