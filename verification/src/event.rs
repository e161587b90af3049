//! Events that travel over the plugin bus.
//!
//! Continuous values (a controller position, a tempo) are carried as a type
//! parameter `V`; the engine instantiates it with its sample type.
use vstd::prelude::*;

verus! {

/// Numeric node id.
#[derive(Clone, Copy, PartialEq, Eq, Debug, Hash, Structural)]
pub struct NodeId(pub u32);

/// Numeric parameter id.
#[derive(Clone, Copy, PartialEq, Eq, Debug, Hash, Structural)]
pub struct ParamId(pub u32);

/// Which input device produced a control event.
#[derive(Clone, Copy, PartialEq, Eq, Debug, Structural)]
pub enum InputSource {
    Midi,
    Osc,
    Gamepad,
    Mouse,
    Keyboard,
}

/// The engine's operating mode.
#[derive(Clone, Copy, PartialEq, Eq, Debug, Structural)]
pub enum RuntimeMode {
    Live,
    Studio,
    Render,
    Ambient,
}

/// A control event from an input device.
#[derive(Clone, Copy, Debug)]
pub enum ControlEvent<V> {
    Continuous { source: InputSource, channel: u8, value: V },
    Trigger { source: InputSource, channel: u8 },
    Position { source: InputSource, x: V, y: V },
}

/// A discrete event sent through the plugin bus.
#[derive(Clone, Copy, Debug)]
pub enum BusEvent<V> {
    Control(ControlEvent<V>),
    BeatTrigger { bpm: V, phase: V },
    ParamChange { node: NodeId, param: ParamId, value: V },
    NodeGraphUpdate,
    ConfigReload,
    ModeSwitch(RuntimeMode),
}

/// Render-loop priority of an event; a lower number is handled first.
pub open spec fn event_priority<V>(e: BusEvent<V>) -> u8 {
    match e {
        BusEvent::Control(_) => 0,
        BusEvent::BeatTrigger { .. } => 0,
        BusEvent::ParamChange { .. } => 1,
        BusEvent::NodeGraphUpdate => 2,
        BusEvent::ModeSwitch(_) => 2,
        BusEvent::ConfigReload => 3,
    }
}

impl<V> BusEvent<V> {
    /// priority for render loop event ordering. lower number = higher priority.
    pub fn priority(&self) -> (p: u8)
        ensures
            p == event_priority(*self),
            p <= 3,
    {
        match self {
            BusEvent::Control(_) => 0,
            BusEvent::BeatTrigger { .. } => 0,
            BusEvent::ParamChange { .. } => 1,
            BusEvent::NodeGraphUpdate => 2,
            BusEvent::ModeSwitch(_) => 2,
            BusEvent::ConfigReload => 3,
        }
    }
}

} // verus!
