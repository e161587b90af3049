//! Routing of audio-driven values onto shader parameters.
//!
//! A mapping graph evaluates each mapping to a value (in the engine's sample
//! type `V`) and routes it to one shader parameter; where several mappings
//! drive one parameter, the last one wins, and a parameter that no mapping
//! drives keeps the value the GUI gave it.
use vstd::prelude::*;

verus! {

/// audio feature that can drive a shader parameter.
#[derive(Debug, Clone, Copy, PartialEq, Eq, Structural)]
pub enum AudioFeature {
    Band(usize),
    SmoothedBand(usize),
    PeakBand(usize),
    Energy,
    /// spectral centroid (brightness) in Hz.
    SpectralCentroid,
    /// beat phase, 0.0 at beat, 1.0 just before next.
    BeatPhase,
    Bpm,
    /// onset detection flag, 1.0 on onset else 0.0.
    Onset,
    /// elapsed time in seconds.
    Time,
}

/// shader parameter that can be driven by a mapping.
#[derive(Debug, Clone, Copy, PartialEq, Eq, Hash, Structural)]
pub enum ShaderParam {
    Speed,
    Intensity,
    Zoom,
    ColorShift,
    RotationSpeed,
    BassReactivity,
    FlashIntensity,
    Brightness,
}

/// The eight mappable shader parameters.
#[derive(Debug, Clone, Copy)]
pub struct ParamValues<V> {
    pub speed: V,
    pub intensity: V,
    pub zoom: V,
    pub color_shift: V,
    pub rotation_speed: V,
    pub bass_reactivity: V,
    pub flash_intensity: V,
    pub brightness: V,
}

pub open spec fn param_value<V>(vals: ParamValues<V>, p: ShaderParam) -> V {
    match p {
        ShaderParam::Speed => vals.speed,
        ShaderParam::Intensity => vals.intensity,
        ShaderParam::Zoom => vals.zoom,
        ShaderParam::ColorShift => vals.color_shift,
        ShaderParam::RotationSpeed => vals.rotation_speed,
        ShaderParam::BassReactivity => vals.bass_reactivity,
        ShaderParam::FlashIntensity => vals.flash_intensity,
        ShaderParam::Brightness => vals.brightness,
    }
}

/// result of evaluating the mapping graph. `None` means "use GUI slider value".
#[derive(Debug, Clone, Copy)]
pub struct EvalResult<V> {
    pub speed: Option<V>,
    pub intensity: Option<V>,
    pub zoom: Option<V>,
    pub color_shift: Option<V>,
    pub rotation_speed: Option<V>,
    pub bass_reactivity: Option<V>,
    pub flash_intensity: Option<V>,
    pub brightness: Option<V>,
}

/// output from a script update; `None` means don't override that param.
pub type ScriptOutput<V> = EvalResult<V>;

pub open spec fn override_of<V>(r: EvalResult<V>, p: ShaderParam) -> Option<V> {
    match p {
        ShaderParam::Speed => r.speed,
        ShaderParam::Intensity => r.intensity,
        ShaderParam::Zoom => r.zoom,
        ShaderParam::ColorShift => r.color_shift,
        ShaderParam::RotationSpeed => r.rotation_speed,
        ShaderParam::BassReactivity => r.bass_reactivity,
        ShaderParam::FlashIntensity => r.flash_intensity,
        ShaderParam::Brightness => r.brightness,
    }
}

/// The value the last of `params` equal to `p` is paired with in `values`,
/// or `None` if `p` is not among `params`.
pub open spec fn last_routed<V>(params: Seq<ShaderParam>, values: Seq<V>, p: ShaderParam) -> Option<V>
    decreases params.len(),
{
    if params.len() == 0 {
        None
    } else if params.last() == p {
        Some(values[params.len() - 1])
    } else {
        last_routed(params.drop_last(), values, p)
    }
}

/// A value with the mapped parameters replaced.
pub open spec fn applied<V>(r: EvalResult<V>, vals: ParamValues<V>, p: ShaderParam) -> V {
    match override_of(r, p) {
        Some(v) => v,
        None => param_value(vals, p),
    }
}

impl<V> Default for EvalResult<V> {
    /// No parameter overridden.
    fn default() -> (r: Self)
        ensures
            forall|p: ShaderParam| override_of(r, p) is None,
    {
        EvalResult {
            speed: None,
            intensity: None,
            zoom: None,
            color_shift: None,
            rotation_speed: None,
            bass_reactivity: None,
            flash_intensity: None,
            brightness: None,
        }
    }
}

impl<V> EvalResult<V> {
    /// Overrides `param` with `value`.
    pub fn set(&mut self, param: ShaderParam, value: V)
        ensures
            forall|p: ShaderParam|
                override_of(*final(self), p) == if p == param {
                    Some(value)
                } else {
                    override_of(*old(self), p)
                },
    {
        match param {
            ShaderParam::Speed => self.speed = Some(value),
            ShaderParam::Intensity => self.intensity = Some(value),
            ShaderParam::Zoom => self.zoom = Some(value),
            ShaderParam::ColorShift => self.color_shift = Some(value),
            ShaderParam::RotationSpeed => self.rotation_speed = Some(value),
            ShaderParam::BassReactivity => self.bass_reactivity = Some(value),
            ShaderParam::FlashIntensity => self.flash_intensity = Some(value),
            ShaderParam::Brightness => self.brightness = Some(value),
        }
    }

    /// Routes the evaluated value of each mapping (`values[i]` for the
    /// mapping driving `params[i]`, in mapping order) to its parameter.
    pub fn route(params: &[ShaderParam], values: &[V]) -> (r: Self)
        where V: Copy,
        requires
            params@.len() == values@.len(),
        ensures
            forall|p: ShaderParam| override_of(r, p) == last_routed(params@, values@, p),
    {
        let mut r = EvalResult::default();
        let n = params.len();
        let mut i: usize = 0;
        while i < n
            invariant
                n == params@.len(),
                n == values@.len(),
                i <= n,
                forall|p: ShaderParam|
                    override_of(r, p) == last_routed(params@.take(i as int), values@, p),
            decreases n - i,
        {
            r.set(params[i], values[i]);
            proof {
                assert(params@.take(i + 1).drop_last() =~= params@.take(i as int));
            }
            i = i + 1;
        }
        assert(params@.take(n as int) =~= params@);
        r
    }

    /// apply mapped values to the parameters. non-mapped params keep their
    /// current value.
    pub fn apply_to(&self, params: &mut ParamValues<V>)
        where V: Copy,
        ensures
            forall|p: ShaderParam| param_value(*final(params), p) == applied(*self, *old(params), p),
    {
        if let Some(v) = self.speed {
            params.speed = v;
        }
        if let Some(v) = self.intensity {
            params.intensity = v;
        }
        if let Some(v) = self.zoom {
            params.zoom = v;
        }
        if let Some(v) = self.color_shift {
            params.color_shift = v;
        }
        if let Some(v) = self.rotation_speed {
            params.rotation_speed = v;
        }
        if let Some(v) = self.bass_reactivity {
            params.bass_reactivity = v;
        }
        if let Some(v) = self.flash_intensity {
            params.flash_intensity = v;
        }
        if let Some(v) = self.brightness {
            params.brightness = v;
        }
    }
}

} // verus!
