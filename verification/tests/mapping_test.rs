use mycelium::mapping::{EvalResult, ParamValues, ScriptOutput, ShaderParam};

fn params(v: f32) -> ParamValues<f32> {
    ParamValues {
        speed: v,
        intensity: v,
        zoom: v,
        color_shift: v,
        rotation_speed: v,
        bass_reactivity: v,
        flash_intensity: v,
        brightness: v,
    }
}

#[test]
fn routed_params_are_some_and_unmapped_none() {
    let r = EvalResult::route(&[ShaderParam::Brightness], &[0.5f32]);
    assert_eq!(r.brightness, Some(0.5));
    assert!(r.speed.is_none());
    assert!(r.zoom.is_none());
    assert!(r.color_shift.is_none());
    assert!(r.intensity.is_none());
    assert!(r.rotation_speed.is_none());
    assert!(r.bass_reactivity.is_none());
    assert!(r.flash_intensity.is_none());
}

#[test]
fn last_mapping_of_a_param_wins() {
    let r = EvalResult::route(
        &[ShaderParam::Zoom, ShaderParam::Speed, ShaderParam::Zoom],
        &[1.0f32, 2.0, 3.0],
    );
    assert_eq!(r.zoom, Some(3.0));
    assert_eq!(r.speed, Some(2.0));
    assert!(r.brightness.is_none());
}

#[test]
fn routing_every_param() {
    let all = [
        ShaderParam::Speed,
        ShaderParam::Intensity,
        ShaderParam::Zoom,
        ShaderParam::ColorShift,
        ShaderParam::RotationSpeed,
        ShaderParam::BassReactivity,
        ShaderParam::FlashIntensity,
        ShaderParam::Brightness,
    ];
    let r = EvalResult::route(&all, &[1u8, 2, 3, 4, 5, 6, 7, 8]);
    assert_eq!(
        [r.speed, r.intensity, r.zoom, r.color_shift, r.rotation_speed, r.bass_reactivity, r.flash_intensity, r.brightness],
        [Some(1), Some(2), Some(3), Some(4), Some(5), Some(6), Some(7), Some(8)]
    );
}

#[test]
fn apply_keeps_unmapped_values() {
    let mut r: EvalResult<f32> = EvalResult::default();
    r.set(ShaderParam::Speed, 4.0);
    r.set(ShaderParam::Brightness, 0.25);
    let mut p = params(1.0);
    r.apply_to(&mut p);
    assert_eq!(p.speed, 4.0);
    assert_eq!(p.brightness, 0.25);
    assert_eq!(p.zoom, 1.0);
    assert_eq!(p.intensity, 1.0);
    assert_eq!(p.flash_intensity, 1.0);
}

#[test]
fn empty_result_changes_nothing() {
    let r: ScriptOutput<f32> = ScriptOutput::default();
    let mut p = params(0.7);
    r.apply_to(&mut p);
    assert_eq!(p.speed, 0.7);
    assert_eq!(p.color_shift, 0.7);
    assert_eq!(p.bass_reactivity, 0.7);
}

#[test]
fn set_overrides_earlier_value() {
    let mut r: EvalResult<i32> = EvalResult::default();
    r.set(ShaderParam::ColorShift, 1);
    r.set(ShaderParam::ColorShift, -2);
    assert_eq!(r.color_shift, Some(-2));
    assert!(r.rotation_speed.is_none());
}
