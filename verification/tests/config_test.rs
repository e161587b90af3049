use mycelium::config::{AudioInput, FftSize, IoConfig, MsaaSamples, ScriptConfig, WindowConfig};
use mycelium::event::{NodeId, ParamId, RuntimeMode};

#[test]
fn fft_sizes() {
    assert_eq!(FftSize::S512.as_usize(), 512);
    assert_eq!(FftSize::S1024.as_usize(), 1024);
    assert_eq!(FftSize::S2048.as_usize(), 2048);
    assert_eq!(FftSize::S4096.as_usize(), 4096);
    for s in [FftSize::S512, FftSize::S1024, FftSize::S2048, FftSize::S4096] {
        assert!(s.as_usize().is_power_of_two());
    }
}

#[test]
fn msaa_counts() {
    assert_eq!(MsaaSamples::S1.as_u32(), 1);
    assert_eq!(MsaaSamples::S2.as_u32(), 2);
    assert_eq!(MsaaSamples::S4.as_u32(), 4);
    assert_eq!(MsaaSamples::S8.as_u32(), 8);
}

#[test]
fn plain_config_values() {
    let w = WindowConfig { width: 1920, height: 1080, fullscreen: false, vsync: false, target_fps: 144 };
    assert_eq!(w.width * w.height, 2_073_600);
    let s = ScriptConfig { lua_enabled: true, wasm_enabled: false, script_dir: "scripts".to_string() };
    assert_eq!(s.script_dir, "scripts");
    let io = IoConfig { midi_enabled: true, osc_enabled: true, osc_port: 9000, gamepad_enabled: false };
    assert_eq!(io.osc_port, 9000);
    assert_ne!(AudioInput::Mic, AudioInput::Loopback);
    assert_ne!(RuntimeMode::Live, RuntimeMode::Studio);
    assert_eq!(NodeId(3), NodeId(3));
    assert_ne!(ParamId(1), ParamId(2));
}
