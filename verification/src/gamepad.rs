//! Mapping of gamepad events onto control events.
use vstd::prelude::*;

use crate::event::{ControlEvent, InputSource};

verus! {

/// A gamepad event, as far as the engine tells them apart.
#[derive(Clone, Copy, Debug)]
pub enum GamepadInput<V> {
    /// axis number `axis` moved to `position`, scaled to 0..1.
    Axis { axis: u8, position: V },
    /// button number `button` was pressed.
    Button { button: u8 },
    /// anything else.
    Other,
}

/// The control event of a gamepad event: an axis moves the continuous
/// channel of its number, a button triggers the channel of its number.
pub open spec fn gamepad_event<V>(input: GamepadInput<V>) -> Option<ControlEvent<V>> {
    match input {
        GamepadInput::Axis { axis, position } => Some(
            ControlEvent::Continuous { source: InputSource::Gamepad, channel: axis, value: position },
        ),
        GamepadInput::Button { button } => Some(
            ControlEvent::Trigger { source: InputSource::Gamepad, channel: button },
        ),
        GamepadInput::Other => None,
    }
}

/// The control event that a gamepad event sends to the bus, if any.
pub fn gamepad_control<V>(input: GamepadInput<V>) -> (r: Option<ControlEvent<V>>)
    ensures
        r == gamepad_event(input),
{
    match input {
        GamepadInput::Axis { axis, position } => Some(
            ControlEvent::Continuous { source: InputSource::Gamepad, channel: axis, value: position },
        ),
        GamepadInput::Button { button } => Some(
            ControlEvent::Trigger { source: InputSource::Gamepad, channel: button },
        ),
        GamepadInput::Other => None,
    }
}

} // verus!
