//! The overlay's shader navigation: which shader is drawn, and how keys,
//! controller events, the auto-cycle timer and the GUI buttons move it.
use vstd::prelude::*;

use crate::event::ControlEvent;
use crate::mapping::{param_value, ParamValues, ShaderParam};

verus! {

/// A shader as the engine receives it.
pub struct ShaderSource {
    pub name: String,
    pub wgsl: String,
    /// file path for hot-reload, e.g. "assets/shaders/fractal.wgsl".
    pub path: Option<String>,
}

/// A key press, as far as the overlay tells keys apart.
#[derive(Clone, Copy, PartialEq, Eq, Debug, Structural)]
pub enum KeyInput {
    Tab,
    Escape,
    F11,
    /// a key that types text; its first character.
    Character(char),
    /// a key that types text, pressed with Ctrl held; its first character.
    CtrlCharacter(char),
    Other,
}

/// What the engine does with a key press.
#[derive(Clone, Copy, PartialEq, Eq, Debug, Structural)]
pub enum KeyAction {
    /// the overlay was shown or hidden.
    ToggledOverlay,
    /// quit.
    Exit,
    /// switch between windowed and fullscreen.
    ToggleFullscreen,
    /// a shader was selected; apply its defaults.
    SelectedShader,
    /// save the current settings as the named preset.
    SavePreset,
    /// not handled here; hand the key to the GUI.
    PassThrough,
}

/// What the engine does with a control event.
#[derive(Clone, Copy, PartialEq, Eq, Debug, Structural)]
pub enum ControlAction {
    /// set `param` from the event's value.
    SetParam(ShaderParam),
    /// a shader was selected; keep the current parameter values.
    SelectedShader,
    /// the next shader was selected; apply its defaults.
    NextShader,
    /// nothing.
    Ignore,
}

/// The parameter that continuous control channels 0 to 7 drive, in order.
pub open spec fn channel_param(channel: u8) -> Option<ShaderParam> {
    if channel == 0 {
        Some(ShaderParam::Speed)
    } else if channel == 1 {
        Some(ShaderParam::Intensity)
    } else if channel == 2 {
        Some(ShaderParam::Zoom)
    } else if channel == 3 {
        Some(ShaderParam::ColorShift)
    } else if channel == 4 {
        Some(ShaderParam::RotationSpeed)
    } else if channel == 5 {
        Some(ShaderParam::BassReactivity)
    } else if channel == 6 {
        Some(ShaderParam::FlashIntensity)
    } else if channel == 7 {
        Some(ShaderParam::Brightness)
    } else {
        None
    }
}

/// Continuous control channels 0 to 7 drive the eight shader parameters in
/// order: speed, intensity, zoom, colour shift, rotation speed, bass
/// reactivity, flash intensity, brightness; each drives its own parameter,
/// and no other channel drives one.
pub proof fn control_channels_follow_param_order(vals: ParamValues<int>)
    ensures
        channel_param(0) == Some(ShaderParam::Speed),
        channel_param(1) == Some(ShaderParam::Intensity),
        channel_param(2) == Some(ShaderParam::Zoom),
        channel_param(3) == Some(ShaderParam::ColorShift),
        channel_param(4) == Some(ShaderParam::RotationSpeed),
        channel_param(5) == Some(ShaderParam::BassReactivity),
        channel_param(6) == Some(ShaderParam::FlashIntensity),
        channel_param(7) == Some(ShaderParam::Brightness),
        param_value(vals, channel_param(4)->0) == vals.rotation_speed,
        param_value(vals, channel_param(5)->0) == vals.bass_reactivity,
        forall|c: u8| c > 7 ==> #[trigger] channel_param(c) is None,
        forall|c: u8, d: u8| c <= 7 && d <= 7 && c != d ==> #[trigger] channel_param(c) != #[trigger] channel_param(d),
{
}

/// The shader that digit key `c` selects: keys 1-9 select shaders 0-8, key 0
/// selects shader 9.
pub open spec fn digit_shader(c: char) -> Option<nat> {
    if c == '0' {
        Some(9)
    } else if '1' <= c && c <= '9' {
        Some(((c as nat) - ('1' as nat)) as nat)
    } else {
        None
    }
}

/// The texts of `names`.
pub open spec fn string_views(names: Seq<String>) -> Seq<Seq<char>> {
    names.map_values(|s: String| s@)
}

/// The first position of `name` in `names`.
pub open spec fn first_index(names: Seq<Seq<char>>, name: Seq<char>) -> Option<nat>
    decreases names.len(),
{
    if names.len() == 0 {
        None
    } else {
        match first_index(names.drop_last(), name) {
            Some(i) => Some(i),
            None => if names.last() == name {
                Some((names.len() - 1) as nat)
            } else {
                None
            },
        }
    }
}

/// The selected shader and overlay visibility.
pub struct ShaderNav {
    visible: bool,
    current: usize,
    count: usize,
}

impl ShaderNav {
    /// The selected shader is one of the shaders, or 0 when there is none.
    pub closed spec fn wf(&self) -> bool {
        if self.count == 0 {
            self.current == 0
        } else {
            self.current < self.count
        }
    }

    pub closed spec fn spec_current(&self) -> nat {
        self.current as nat
    }

    pub closed spec fn spec_count(&self) -> nat {
        self.count as nat
    }

    pub closed spec fn spec_visible(&self) -> bool {
        self.visible
    }

    /// The selection is in range: one of the shaders, or shader 0 when there
    /// is none. Every method keeps `wf`, so this holds after any sequence of
    /// keys, control events, auto-cycle steps and GUI buttons.
    pub proof fn lemma_selection_in_range(&self)
        requires
            self.wf(),
        ensures
            self.spec_count() > 0 ==> self.spec_current() < self.spec_count(),
            self.spec_count() == 0 ==> self.spec_current() == 0,
    {
    }

    /// Navigation over `shader_count` shaders, at the first, overlay hidden.
    pub fn new(shader_count: usize) -> (nav: Self)
        ensures
            nav.wf(),
            nav.spec_current() == 0,
            nav.spec_count() == shader_count,
            !nav.spec_visible(),
    {
        ShaderNav { visible: false, current: 0, count: shader_count }
    }

    pub fn current(&self) -> (i: usize)
        ensures
            i == self.spec_current(),
    {
        self.current
    }

    pub fn visible(&self) -> (b: bool)
        ensures
            b == self.spec_visible(),
    {
        self.visible
    }

    /// The position of `name` in `names`, if there.
    pub fn find(names: &[String], name: &str) -> (r: Option<usize>)
        ensures
            match first_index(string_views(names@), name@) {
                Some(i) => i < names@.len() && r == Some(i as usize),
                None => r is None,
            },
    {
        let ghost ns = string_views(names@);
        let key = name.to_owned();
        let n = names.len();
        let mut i: usize = 0;
        while i < n
            invariant
                n == names@.len(),
                ns == string_views(names@),
                key@ == name@,
                i <= n,
                first_index(ns.take(i as int), name@) is None,
            decreases n - i,
        {
            proof {
                assert(ns.take(i + 1).drop_last() =~= ns.take(i as int));
            }
            if names[i] == key {
                proof {
                    lemma_first_index_prefix(ns, (i + 1) as nat, name@);
                }
                return Some(i);
            }
            i = i + 1;
        }
        assert(ns.take(n as int) =~= ns);
        None
    }

    /// Selects the start shader named `start` among `names` (the shaders in
    /// order), or the first shader when no name is given or it is not found.
    /// Returns false when a name was given but not found.
    pub fn start_at(&mut self, names: &[String], start: Option<&str>) -> (found: bool)
        requires
            old(self).wf(),
            names@.len() == old(self).spec_count(),
        ensures
            final(self).wf(),
            final(self).spec_count() == old(self).spec_count(),
            final(self).spec_visible() == old(self).spec_visible(),
            match start {
                Some(name) => match first_index(string_views(names@), name@) {
                    Some(i) => found && final(self).spec_current() == i,
                    None => !found && final(self).spec_current() == 0,
                },
                None => found && final(self).spec_current() == 0,
            },
    {
        match start {
            Some(name) => match Self::find(names, name) {
                Some(i) => {
                    self.current = i;
                    true
                },
                None => {
                    self.current = 0;
                    false
                },
            },
            None => {
                self.current = 0;
                true
            },
        }
    }

    /// Selects the shader `name` (a loaded preset's) if it is among `names`;
    /// else keeps the selection.
    pub fn select_by_name(&mut self, names: &[String], name: &str)
        requires
            old(self).wf(),
            names@.len() == old(self).spec_count(),
        ensures
            final(self).wf(),
            final(self).spec_count() == old(self).spec_count(),
            final(self).spec_visible() == old(self).spec_visible(),
            final(self).spec_current() == match first_index(string_views(names@), name@) {
                Some(i) => i,
                None => old(self).spec_current(),
            },
    {
        if let Some(i) = Self::find(names, name) {
            self.current = i;
        }
    }

    /// A typed character: while the overlay is hidden, digit keys select a
    /// shader (1-9 the first nine, 0 the tenth) when it exists.
    fn on_character(&mut self, c: char) -> (action: KeyAction)
        requires
            old(self).wf(),
        ensures
            final(self).wf(),
            final(self).spec_count() == old(self).spec_count(),
            typed_effect(*old(self), *final(self), action, c),
    {
        if !self.visible && '0' <= c && c <= '9' {
            let idx: usize = if c == '0' {
                9
            } else {
                ((c as u32) - ('1' as u32)) as usize
            };
            if idx < self.count {
                self.current = idx;
                return KeyAction::SelectedShader;
            }
        }
        KeyAction::PassThrough
    }

    /// A key press. Tab shows or hides the overlay, Escape quits, F11 toggles
    /// fullscreen, Ctrl+S saves the preset; while the overlay is hidden,
    /// digit keys select a shader (1-9 the first nine, 0 the tenth) when it
    /// exists, with or without Ctrl.
    pub fn on_key(&mut self, key: KeyInput) -> (action: KeyAction)
        requires
            old(self).wf(),
        ensures
            final(self).wf(),
            final(self).spec_count() == old(self).spec_count(),
            match key {
                KeyInput::Tab => action == KeyAction::ToggledOverlay
                    && final(self).spec_visible() == !old(self).spec_visible()
                    && final(self).spec_current() == old(self).spec_current(),
                KeyInput::Escape => action == KeyAction::Exit && *final(self) == *old(self),
                KeyInput::F11 => action == KeyAction::ToggleFullscreen && *final(self) == *old(self),
                KeyInput::Character(c) => typed_effect(*old(self), *final(self), action, c),
                KeyInput::CtrlCharacter(c) => if c == 's' || c == 'S' {
                    action == KeyAction::SavePreset && *final(self) == *old(self)
                } else {
                    typed_effect(*old(self), *final(self), action, c)
                },
                KeyInput::Other => action == KeyAction::PassThrough && *final(self) == *old(self),
            },
    {
        match key {
            KeyInput::Tab => {
                self.visible = !self.visible;
                KeyAction::ToggledOverlay
            },
            KeyInput::Escape => KeyAction::Exit,
            KeyInput::F11 => KeyAction::ToggleFullscreen,
            KeyInput::Character(c) => self.on_character(c),
            KeyInput::CtrlCharacter(c) => {
                if c == 's' || c == 'S' {
                    KeyAction::SavePreset
                } else {
                    self.on_character(c)
                }
            },
            KeyInput::Other => KeyAction::PassThrough,
        }
    }

    /// A control event from MIDI, OSC or a gamepad. Continuous channels 0-7
    /// drive the eight shader parameters, channels 10-16 select shaders 0-6
    /// when they exist; a trigger advances to the next shader.
    pub fn on_control<V>(&mut self, event: &ControlEvent<V>) -> (action: ControlAction)
        requires
            old(self).wf(),
        ensures
            final(self).wf(),
            final(self).spec_count() == old(self).spec_count(),
            final(self).spec_visible() == old(self).spec_visible(),
            match *event {
                ControlEvent::Continuous { channel, .. } => {
                    if channel <= 7 {
                        action == ControlAction::SetParam(channel_param(channel)->0)
                            && final(self).spec_current() == old(self).spec_current()
                    } else if 10 <= channel <= 16 && channel - 10 < old(self).spec_count() {
                        action == ControlAction::SelectedShader
                            && final(self).spec_current() == channel - 10
                    } else {
                        action == ControlAction::Ignore
                            && final(self).spec_current() == old(self).spec_current()
                    }
                },
                ControlEvent::Trigger { .. } => action == ControlAction::NextShader
                    && final(self).spec_current() == next_index(old(self).spec_current(), old(self).spec_count()),
                ControlEvent::Position { .. } => action == ControlAction::Ignore
                    && final(self).spec_current() == old(self).spec_current(),
            },
    {
        match event {
            ControlEvent::Continuous { channel, .. } => {
                let ch = *channel;
                if ch == 0 {
                    ControlAction::SetParam(ShaderParam::Speed)
                } else if ch == 1 {
                    ControlAction::SetParam(ShaderParam::Intensity)
                } else if ch == 2 {
                    ControlAction::SetParam(ShaderParam::Zoom)
                } else if ch == 3 {
                    ControlAction::SetParam(ShaderParam::ColorShift)
                } else if ch == 4 {
                    ControlAction::SetParam(ShaderParam::RotationSpeed)
                } else if ch == 5 {
                    ControlAction::SetParam(ShaderParam::BassReactivity)
                } else if ch == 6 {
                    ControlAction::SetParam(ShaderParam::FlashIntensity)
                } else if ch == 7 {
                    ControlAction::SetParam(ShaderParam::Brightness)
                } else if 10 <= ch && ch <= 16 {
                    let idx = (ch - 10) as usize;
                    if idx < self.count {
                        self.current = idx;
                        ControlAction::SelectedShader
                    } else {
                        ControlAction::Ignore
                    }
                } else {
                    ControlAction::Ignore
                }
            },
            ControlEvent::Trigger { .. } => {
                self.advance();
                ControlAction::NextShader
            },
            ControlEvent::Position { .. } => ControlAction::Ignore,
        }
    }

    /// Selects the next shader, wrapping around to the first.
    fn advance(&mut self)
        requires
            old(self).wf(),
        ensures
            final(self).wf(),
            final(self).spec_count() == old(self).spec_count(),
            final(self).spec_visible() == old(self).spec_visible(),
            final(self).spec_current() == next_index(old(self).spec_current(), old(self).spec_count()),
    {
        let modulus = if self.count > 1 { self.count } else { 1 };
        self.current = (self.current + 1) % modulus;
    }

    /// The auto-cycle timer fired on frame `frame_count`: selects the next
    /// shader, or a pseudo-random one derived from the frame count.
    pub fn auto_cycle(&mut self, random: bool, frame_count: u64)
        requires
            old(self).wf(),
            old(self).spec_count() > 0,
            random ==> frame_count * 7 + 3 <= usize::MAX,
        ensures
            final(self).wf(),
            final(self).spec_count() == old(self).spec_count(),
            final(self).spec_visible() == old(self).spec_visible(),
            final(self).spec_current() == if random {
                ((frame_count * 7 + 3) % (old(self).spec_count() as int)) as nat
            } else {
                next_index(old(self).spec_current(), old(self).spec_count())
            },
    {
        if random {
            let f = frame_count as usize;
            self.current = (f * 7 + 3) % self.count;
        } else {
            self.current = (self.current + 1) % self.count;
        }
    }

    /// The GUI's "<" button: the previous shader, if there is one.
    pub fn gui_previous(&mut self)
        requires
            old(self).wf(),
        ensures
            final(self).wf(),
            final(self).spec_count() == old(self).spec_count(),
            final(self).spec_visible() == old(self).spec_visible(),
            final(self).spec_current() == if old(self).spec_current() > 0 {
                (old(self).spec_current() - 1) as nat
            } else {
                0
            },
    {
        if self.current > 0 {
            self.current = self.current - 1;
        }
    }

    /// The GUI's ">" button: the next shader, if there is one.
    pub fn gui_next(&mut self)
        requires
            old(self).wf(),
        ensures
            final(self).wf(),
            final(self).spec_count() == old(self).spec_count(),
            final(self).spec_visible() == old(self).spec_visible(),
            final(self).spec_current() == if old(self).spec_current() + 1 < old(self).spec_count() {
                old(self).spec_current() + 1
            } else {
                old(self).spec_current()
            },
    {
        if self.current + 1 < self.count {
            self.current = self.current + 1;
        }
    }
}

/// What typing `c` does to the navigation `old`, giving `new` and `action`:
/// while the overlay is hidden, a digit key whose shader exists selects it;
/// any other typed key is handed on with nothing changed.
pub open spec fn typed_effect(old: ShaderNav, new: ShaderNav, action: KeyAction, c: char) -> bool {
    if !old.spec_visible() && digit_shader(c) is Some && digit_shader(c)->0 < old.spec_count() {
        action == KeyAction::SelectedShader && new.spec_current() == digit_shader(c)->0
            && new.spec_visible() == old.spec_visible()
    } else {
        action == KeyAction::PassThrough && new == old
    }
}

/// The shader after `current` among `count`, wrapping around.
pub open spec fn next_index(current: nat, count: nat) -> nat {
    ((current + 1) % (if count > 1 { count } else { 1 })) as nat
}

/// The shader reached from `current` after `k` triggers.
pub open spec fn after_triggers(current: nat, count: nat, k: nat) -> nat
    decreases k,
{
    if k == 0 {
        current
    } else {
        next_index(after_triggers(current, count, (k - 1) as nat), count)
    }
}

/// Triggers walk through the shaders in order: `k` triggers from shader
/// `current` reach shader `(current + k) mod count`; after `count` triggers
/// the selection is back where it started.
pub proof fn triggers_walk_in_order(current: nat, count: nat, k: nat)
    requires
        current < count,
    ensures
        after_triggers(current, count, k) == (current + k) as int % (count as int),
        after_triggers(current, count, count) == current,
{
    lemma_after_triggers_mod(current, count, k);
    lemma_after_triggers_full(current, count);
}

proof fn lemma_after_triggers_full(current: nat, count: nat)
    requires
        current < count,
    ensures
        after_triggers(current, count, count) == current,
{
    lemma_after_triggers_mod(current, count, count);
    vstd::arithmetic::div_mod::lemma_add_mod_noop(current as int, count as int, count as int);
    vstd::arithmetic::div_mod::lemma_mod_self_0(count as int);
    vstd::arithmetic::div_mod::lemma_small_mod(current, count);
}

proof fn lemma_after_triggers_mod(current: nat, count: nat, k: nat)
    requires
        current < count,
    ensures
        after_triggers(current, count, k) == (current + k) as int % (count as int),
    decreases k,
{
    if k > 0 {
        lemma_after_triggers_mod(current, count, (k - 1) as nat);
        if count > 1 {
            vstd::arithmetic::div_mod::lemma_add_mod_noop((current + k - 1) as int, 1, count as int);
            vstd::arithmetic::div_mod::lemma_small_mod(1, count);
        }
    } else {
        vstd::arithmetic::div_mod::lemma_small_mod(current, count);
    }
}

/// The spectrum bin that bar `i` of `bars` shows, for a spectrum of `len`
/// bins.
pub open spec fn bar_bin(i: nat, bars: nat, len: nat) -> nat {
    i * (len / bars)
}

/// The spectrum bins the overlay's bar display shows: at most 64 bars,
/// evenly spaced from the first bin.
pub fn spectrum_bar_bins(spectrum_len: usize) -> (bins: Vec<usize>)
    ensures
        bins@.len() == if spectrum_len < 64 { spectrum_len as nat } else { 64 },
        forall|i: int|
            0 <= i < bins@.len() ==> #[trigger] bins@[i] == bar_bin(i as nat, bins@.len(), spectrum_len as nat),
        forall|i: int| 0 <= i < bins@.len() ==> #[trigger] bins@[i] < spectrum_len,
{
    let num_bars: usize = if spectrum_len < 64 { spectrum_len } else { 64 };
    let mut bins: Vec<usize> = Vec::new();
    if num_bars == 0 {
        return bins;
    }
    let step = spectrum_len / num_bars;
    proof {
        vstd::arithmetic::div_mod::lemma_fundamental_div_mod(spectrum_len as int, num_bars as int);
    }
    let mut i: usize = 0;
    while i < num_bars
        invariant
            0 < num_bars <= 64,
            num_bars <= spectrum_len,
            step == spectrum_len / num_bars,
            num_bars * step <= spectrum_len,
            i <= num_bars,
            bins@.len() == i,
            forall|k: int| 0 <= k < i ==> #[trigger] bins@[k] == bar_bin(k as nat, num_bars as nat, spectrum_len as nat),
            forall|k: int| 0 <= k < i ==> #[trigger] bins@[k] < spectrum_len,
        decreases num_bars - i,
    {
        proof {
            vstd::arithmetic::mul::lemma_mul_inequality(i as int, (num_bars - 1) as int, step as int);
            vstd::arithmetic::mul::lemma_mul_is_distributive_sub_other_way(step as int, num_bars as int, 1);
            assert(step >= 1) by {
                vstd::arithmetic::div_mod::lemma_div_non_zero(spectrum_len as int, num_bars as int);
            }
        }
        bins.push(i * step);
        i = i + 1;
    }
    bins
}

proof fn lemma_first_index_prefix(ns: Seq<Seq<char>>, k: nat, name: Seq<char>)
    requires
        0 < k <= ns.len(),
        first_index(ns.take(k - 1), name) is None,
        ns[k - 1] == name,
    ensures
        first_index(ns, name) == Some((k - 1) as nat),
    decreases ns.len(),
{
    if k < ns.len() {
        assert(ns.drop_last().take(k as int) =~= ns.take(k as int));
        assert(ns.drop_last().take(k - 1) =~= ns.take(k - 1));
        lemma_first_index_prefix(ns.drop_last(), k, name);
    } else {
        assert(ns.take(k - 1) =~= ns.drop_last());
    }
}

} // verus!
