use mycelium::event::{ControlEvent, InputSource};
use mycelium::mapping::ShaderParam;
use mycelium::overlay::{spectrum_bar_bins, ControlAction, KeyAction, KeyInput, ShaderNav};

fn names() -> Vec<String> {
    ["fractal", "hypnotic", "voronoi", "kaleidoscope", "neural", "strobe", "geometry", "nebula", "electric", "liquid"]
        .iter()
        .map(|s| s.to_string())
        .collect()
}

#[test]
fn start_shader_by_name_or_first() {
    let n = names();
    let mut nav = ShaderNav::new(n.len());
    assert!(nav.start_at(&n, Some("voronoi")));
    assert_eq!(nav.current(), 2);
    assert!(!nav.start_at(&n, Some("plasma")));
    assert_eq!(nav.current(), 0);
    nav.gui_next();
    assert!(nav.start_at(&n, None));
    assert_eq!(nav.current(), 0);
}

#[test]
fn digit_keys_select_shaders_when_overlay_hidden() {
    let mut nav = ShaderNav::new(10);
    assert_eq!(nav.on_key(KeyInput::Character('3')), KeyAction::SelectedShader);
    assert_eq!(nav.current(), 2);
    assert_eq!(nav.on_key(KeyInput::Character('0')), KeyAction::SelectedShader);
    assert_eq!(nav.current(), 9);
    assert_eq!(nav.on_key(KeyInput::Character('a')), KeyAction::PassThrough);
    assert_eq!(nav.current(), 9);
    assert_eq!(nav.on_key(KeyInput::Tab), KeyAction::ToggledOverlay);
    assert!(nav.visible());
    assert_eq!(nav.on_key(KeyInput::Character('1')), KeyAction::PassThrough);
    assert_eq!(nav.current(), 9);
    assert_eq!(nav.on_key(KeyInput::Tab), KeyAction::ToggledOverlay);
    assert!(!nav.visible());
}

#[test]
fn digit_key_beyond_shader_count_passes_through() {
    let mut nav = ShaderNav::new(3);
    assert_eq!(nav.on_key(KeyInput::Character('4')), KeyAction::PassThrough);
    assert_eq!(nav.on_key(KeyInput::Character('0')), KeyAction::PassThrough);
    assert_eq!(nav.current(), 0);
}

#[test]
fn escape_and_f11() {
    let mut nav = ShaderNav::new(2);
    assert_eq!(nav.on_key(KeyInput::Escape), KeyAction::Exit);
    assert_eq!(nav.on_key(KeyInput::F11), KeyAction::ToggleFullscreen);
    assert_eq!(nav.on_key(KeyInput::Other), KeyAction::PassThrough);
    assert_eq!(nav.current(), 0);
    assert!(!nav.visible());
}

#[test]
fn control_channels_drive_params_and_select_shaders() {
    let mut nav = ShaderNav::new(5);
    let cc = |channel: u8| ControlEvent::Continuous { source: InputSource::Midi, channel, value: 0.5f32 };
    assert_eq!(nav.on_control(&cc(0)), ControlAction::SetParam(ShaderParam::Speed));
    assert_eq!(nav.on_control(&cc(2)), ControlAction::SetParam(ShaderParam::Zoom));
    assert_eq!(nav.on_control(&cc(7)), ControlAction::SetParam(ShaderParam::Brightness));
    assert_eq!(nav.on_control(&cc(8)), ControlAction::Ignore);
    assert_eq!(nav.on_control(&cc(13)), ControlAction::SelectedShader);
    assert_eq!(nav.current(), 3);
    assert_eq!(nav.on_control(&cc(16)), ControlAction::Ignore);
    assert_eq!(nav.current(), 3);
    assert_eq!(nav.on_control(&cc(200)), ControlAction::Ignore);
}

#[test]
fn triggers_advance_and_wrap() {
    let mut nav = ShaderNav::new(3);
    let t = ControlEvent::<f32>::Trigger { source: InputSource::Osc, channel: 0 };
    assert_eq!(nav.on_control(&t), ControlAction::NextShader);
    assert_eq!(nav.current(), 1);
    nav.on_control(&t);
    nav.on_control(&t);
    assert_eq!(nav.current(), 0);
    let mut empty = ShaderNav::new(0);
    assert_eq!(empty.on_control(&t), ControlAction::NextShader);
    assert_eq!(empty.current(), 0);
}

#[test]
fn auto_cycle_sequential_and_random() {
    let mut nav = ShaderNav::new(10);
    nav.auto_cycle(false, 0);
    assert_eq!(nav.current(), 1);
    nav.auto_cycle(true, 5);
    assert_eq!(nav.current(), (5 * 7 + 3) % 10);
    let mut nav = ShaderNav::new(4);
    for _ in 0..4 {
        nav.auto_cycle(false, 0);
    }
    assert_eq!(nav.current(), 0);
}

#[test]
fn gui_buttons_stop_at_the_ends() {
    let mut nav = ShaderNav::new(2);
    nav.gui_previous();
    assert_eq!(nav.current(), 0);
    nav.gui_next();
    assert_eq!(nav.current(), 1);
    nav.gui_next();
    assert_eq!(nav.current(), 1);
    nav.gui_previous();
    assert_eq!(nav.current(), 0);
}

#[test]
fn preset_shader_selected_by_name() {
    let n = names();
    let mut nav = ShaderNav::new(n.len());
    nav.select_by_name(&n, "nebula");
    assert_eq!(nav.current(), 7);
    nav.select_by_name(&n, "unknown");
    assert_eq!(nav.current(), 7);
    assert_eq!(ShaderNav::find(&n, "liquid"), Some(9));
    assert_eq!(ShaderNav::find(&n, "Liquid"), None);
}

#[test]
fn spectrum_bars_sample_evenly() {
    let bins = spectrum_bar_bins(1024);
    assert_eq!(bins.len(), 64);
    assert_eq!(bins[0], 0);
    assert_eq!(bins[1], 16);
    assert_eq!(bins[63], 1008);
    assert_eq!(spectrum_bar_bins(10), (0..10).collect::<Vec<usize>>());
    assert!(spectrum_bar_bins(0).is_empty());
    let odd = spectrum_bar_bins(100);
    assert_eq!(odd.len(), 64);
    assert_eq!(odd[63], 63);
}

#[test]
fn ctrl_s_saves_the_preset_in_any_state() {
    let mut nav = ShaderNav::new(4);
    nav.gui_next();
    assert_eq!(nav.on_key(KeyInput::CtrlCharacter('s')), KeyAction::SavePreset);
    assert_eq!(nav.current(), 1);
    assert_eq!(nav.on_key(KeyInput::Tab), KeyAction::ToggledOverlay);
    assert_eq!(nav.on_key(KeyInput::CtrlCharacter('S')), KeyAction::SavePreset);
    assert!(nav.visible());
    assert_eq!(nav.current(), 1);
    assert_eq!(nav.on_key(KeyInput::Character('s')), KeyAction::PassThrough);
}

#[test]
fn ctrl_digit_still_selects_a_shader() {
    let mut nav = ShaderNav::new(4);
    assert_eq!(nav.on_key(KeyInput::CtrlCharacter('3')), KeyAction::SelectedShader);
    assert_eq!(nav.current(), 2);
    assert_eq!(nav.on_key(KeyInput::CtrlCharacter('x')), KeyAction::PassThrough);
    assert_eq!(nav.current(), 2);
}
