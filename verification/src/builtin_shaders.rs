//! WGSL sources of the built-in shaders. Each draws a full-screen triangle
//! and reads the engine's `Uniforms` block.
use vstd::prelude::*;

verus! {

/// WGSL source of the `fractal` shader.
pub const FRACTAL_WGSL: &'static str = r#"struct Uniforms {
    time: f32, res_x: f32, res_y: f32, beat_phase: f32,
    band0: f32, band1: f32, band2: f32, band3: f32, band4: f32, band5: f32,
    bpm: f32, onset: f32,
    sband0: f32, sband1: f32, sband2: f32, sband3: f32, sband4: f32, sband5: f32,
    energy: f32, spectral_centroid: f32,
    speed: f32, intensity: f32, zoom: f32, color_shift: f32,
    rotation_speed: f32, bass_reactivity: f32, flash_intensity: f32, brightness: f32,
    pband0: f32, pband1: f32, pband2: f32, pband3: f32,
};

@group(0) @binding(0) var<uniform> u: Uniforms;

@vertex
fn vs_main(@builtin(vertex_index) vi: u32) -> @builtin(position) vec4<f32> {
    let x = f32(i32(vi) / 2) * 4.0 - 1.0;
    let y = f32(i32(vi) % 2) * 4.0 - 1.0;
    return vec4<f32>(x, y, 0.0, 1.0);
}

fn palette(t: f32) -> vec3<f32> {
    let c = t + u.color_shift;
    return 0.5 + 0.5 * cos(6.28318 * (vec3<f32>(c, c + 0.33, c + 0.67)));
}

fn rot(a: f32) -> mat2x2<f32> {
    let s = sin(a);
    let c = cos(a);
    return mat2x2<f32>(c, -s, s, c);
}

fn screen_uv(pos: vec4<f32>) -> vec2<f32> {
    let res = vec2<f32>(u.res_x, u.res_y);
    return (pos.xy - 0.5 * res) / max(u.res_y, 1.0) / max(u.zoom, 0.01);
}

fn finish(col: vec3<f32>) -> vec4<f32> {
    let flash = u.onset * u.flash_intensity;
    let c = (col * u.intensity + vec3<f32>(flash)) * u.brightness;
    return vec4<f32>(clamp(c, vec3<f32>(0.0), vec3<f32>(1.0)), 1.0);
}

@fragment
fn fs_main(@builtin(position) pos: vec4<f32>) -> @location(0) vec4<f32> {
    var p = vec3<f32>(screen_uv(pos), 0.5 + 0.2 * sin(u.time * u.speed * 0.3));
    p = vec3<f32>(rot(u.time * u.rotation_speed * 0.1) * p.xy, p.z);
    var acc = 0.0;
    for (var i = 0; i < 12; i = i + 1) {
        p = abs(p) / dot(p, p) - vec3<f32>(0.9 + 0.05 * u.sband0 * u.bass_reactivity);
        acc = acc + exp(-abs(p.z) * 4.0);
    }
    return finish(palette(acc * 0.08 + u.time * 0.02) * acc * 0.12);
}
"#;

/// WGSL source of the `hypnotic` shader.
pub const HYPNOTIC_WGSL: &'static str = r#"struct Uniforms {
    time: f32, res_x: f32, res_y: f32, beat_phase: f32,
    band0: f32, band1: f32, band2: f32, band3: f32, band4: f32, band5: f32,
    bpm: f32, onset: f32,
    sband0: f32, sband1: f32, sband2: f32, sband3: f32, sband4: f32, sband5: f32,
    energy: f32, spectral_centroid: f32,
    speed: f32, intensity: f32, zoom: f32, color_shift: f32,
    rotation_speed: f32, bass_reactivity: f32, flash_intensity: f32, brightness: f32,
    pband0: f32, pband1: f32, pband2: f32, pband3: f32,
};

@group(0) @binding(0) var<uniform> u: Uniforms;

@vertex
fn vs_main(@builtin(vertex_index) vi: u32) -> @builtin(position) vec4<f32> {
    let x = f32(i32(vi) / 2) * 4.0 - 1.0;
    let y = f32(i32(vi) % 2) * 4.0 - 1.0;
    return vec4<f32>(x, y, 0.0, 1.0);
}

fn palette(t: f32) -> vec3<f32> {
    let c = t + u.color_shift;
    return 0.5 + 0.5 * cos(6.28318 * (vec3<f32>(c, c + 0.33, c + 0.67)));
}

fn rot(a: f32) -> mat2x2<f32> {
    let s = sin(a);
    let c = cos(a);
    return mat2x2<f32>(c, -s, s, c);
}

fn screen_uv(pos: vec4<f32>) -> vec2<f32> {
    let res = vec2<f32>(u.res_x, u.res_y);
    return (pos.xy - 0.5 * res) / max(u.res_y, 1.0) / max(u.zoom, 0.01);
}

fn finish(col: vec3<f32>) -> vec4<f32> {
    let flash = u.onset * u.flash_intensity;
    let c = (col * u.intensity + vec3<f32>(flash)) * u.brightness;
    return vec4<f32>(clamp(c, vec3<f32>(0.0), vec3<f32>(1.0)), 1.0);
}

@fragment
fn fs_main(@builtin(position) pos: vec4<f32>) -> @location(0) vec4<f32> {
    let uv = rot(u.time * u.rotation_speed * 0.2) * screen_uv(pos);
    let r = length(uv);
    let a = atan2(uv.y, uv.x);
    let rings = sin(20.0 * r - u.time * u.speed * 4.0 + u.sband0 * u.bass_reactivity);
    let spiral = sin(6.0 * a + 10.0 * r - u.time * u.speed * 2.0);
    let v = 0.5 + 0.25 * rings + 0.25 * spiral;
    return finish(palette(v + r * 0.3) * v);
}
"#;

/// WGSL source of the `voronoi` shader.
pub const VORONOI_WGSL: &'static str = r#"struct Uniforms {
    time: f32, res_x: f32, res_y: f32, beat_phase: f32,
    band0: f32, band1: f32, band2: f32, band3: f32, band4: f32, band5: f32,
    bpm: f32, onset: f32,
    sband0: f32, sband1: f32, sband2: f32, sband3: f32, sband4: f32, sband5: f32,
    energy: f32, spectral_centroid: f32,
    speed: f32, intensity: f32, zoom: f32, color_shift: f32,
    rotation_speed: f32, bass_reactivity: f32, flash_intensity: f32, brightness: f32,
    pband0: f32, pband1: f32, pband2: f32, pband3: f32,
};

@group(0) @binding(0) var<uniform> u: Uniforms;

@vertex
fn vs_main(@builtin(vertex_index) vi: u32) -> @builtin(position) vec4<f32> {
    let x = f32(i32(vi) / 2) * 4.0 - 1.0;
    let y = f32(i32(vi) % 2) * 4.0 - 1.0;
    return vec4<f32>(x, y, 0.0, 1.0);
}

fn palette(t: f32) -> vec3<f32> {
    let c = t + u.color_shift;
    return 0.5 + 0.5 * cos(6.28318 * (vec3<f32>(c, c + 0.33, c + 0.67)));
}

fn rot(a: f32) -> mat2x2<f32> {
    let s = sin(a);
    let c = cos(a);
    return mat2x2<f32>(c, -s, s, c);
}

fn screen_uv(pos: vec4<f32>) -> vec2<f32> {
    let res = vec2<f32>(u.res_x, u.res_y);
    return (pos.xy - 0.5 * res) / max(u.res_y, 1.0) / max(u.zoom, 0.01);
}

fn finish(col: vec3<f32>) -> vec4<f32> {
    let flash = u.onset * u.flash_intensity;
    let c = (col * u.intensity + vec3<f32>(flash)) * u.brightness;
    return vec4<f32>(clamp(c, vec3<f32>(0.0), vec3<f32>(1.0)), 1.0);
}

fn hash2(p: vec2<f32>) -> vec2<f32> {
    let q = vec2<f32>(dot(p, vec2<f32>(127.1, 311.7)), dot(p, vec2<f32>(269.5, 183.3)));
    return fract(sin(q) * 43758.5453);
}

@fragment
fn fs_main(@builtin(position) pos: vec4<f32>) -> @location(0) vec4<f32> {
    let uv = screen_uv(pos) * 4.0;
    let cell = floor(uv);
    var best = 8.0;
    for (var j = -1; j <= 1; j = j + 1) {
        for (var i = -1; i <= 1; i = i + 1) {
            let g = vec2<f32>(f32(i), f32(j));
            let o = 0.5 + 0.5 * sin(u.time * u.speed + 6.28318 * hash2(cell + g));
            best = min(best, length(g + o - fract(uv)));
        }
    }
    let pulse = 1.0 + 0.3 * u.sband1 * u.bass_reactivity;
    return finish(palette(best + u.time * 0.05) * (1.0 - best) * pulse);
}
"#;

/// WGSL source of the `kaleidoscope` shader.
pub const KALEIDOSCOPE_WGSL: &'static str = r#"struct Uniforms {
    time: f32, res_x: f32, res_y: f32, beat_phase: f32,
    band0: f32, band1: f32, band2: f32, band3: f32, band4: f32, band5: f32,
    bpm: f32, onset: f32,
    sband0: f32, sband1: f32, sband2: f32, sband3: f32, sband4: f32, sband5: f32,
    energy: f32, spectral_centroid: f32,
    speed: f32, intensity: f32, zoom: f32, color_shift: f32,
    rotation_speed: f32, bass_reactivity: f32, flash_intensity: f32, brightness: f32,
    pband0: f32, pband1: f32, pband2: f32, pband3: f32,
};

@group(0) @binding(0) var<uniform> u: Uniforms;

@vertex
fn vs_main(@builtin(vertex_index) vi: u32) -> @builtin(position) vec4<f32> {
    let x = f32(i32(vi) / 2) * 4.0 - 1.0;
    let y = f32(i32(vi) % 2) * 4.0 - 1.0;
    return vec4<f32>(x, y, 0.0, 1.0);
}

fn palette(t: f32) -> vec3<f32> {
    let c = t + u.color_shift;
    return 0.5 + 0.5 * cos(6.28318 * (vec3<f32>(c, c + 0.33, c + 0.67)));
}

fn rot(a: f32) -> mat2x2<f32> {
    let s = sin(a);
    let c = cos(a);
    return mat2x2<f32>(c, -s, s, c);
}

fn screen_uv(pos: vec4<f32>) -> vec2<f32> {
    let res = vec2<f32>(u.res_x, u.res_y);
    return (pos.xy - 0.5 * res) / max(u.res_y, 1.0) / max(u.zoom, 0.01);
}

fn finish(col: vec3<f32>) -> vec4<f32> {
    let flash = u.onset * u.flash_intensity;
    let c = (col * u.intensity + vec3<f32>(flash)) * u.brightness;
    return vec4<f32>(clamp(c, vec3<f32>(0.0), vec3<f32>(1.0)), 1.0);
}

fn noise(p: vec2<f32>) -> f32 {
    return sin(p.x * 1.7 + sin(p.y * 2.3)) * sin(p.y * 1.3 + sin(p.x * 2.9));
}

@fragment
fn fs_main(@builtin(position) pos: vec4<f32>) -> @location(0) vec4<f32> {
    var uv = rot(u.time * u.rotation_speed * 0.1) * screen_uv(pos);
    let segments = 8.0;
    let a = atan2(uv.y, uv.x);
    let r = length(uv);
    let seg = 6.28318 / segments;
    let fa = abs((a - seg * floor(a / seg)) - seg * 0.5);
    uv = vec2<f32>(cos(fa), sin(fa)) * r;
    var v = 0.0;
    for (var i = 1; i <= 4; i = i + 1) {
        v = v + noise(uv * f32(i) * 3.0 + u.time * u.speed * 0.3) / f32(i);
    }
    return finish(palette(v + r + u.sband2 * 0.2) * (0.6 + 0.4 * v));
}
"#;

/// WGSL source of the `neural` shader.
pub const NEURAL_WGSL: &'static str = r#"struct Uniforms {
    time: f32, res_x: f32, res_y: f32, beat_phase: f32,
    band0: f32, band1: f32, band2: f32, band3: f32, band4: f32, band5: f32,
    bpm: f32, onset: f32,
    sband0: f32, sband1: f32, sband2: f32, sband3: f32, sband4: f32, sband5: f32,
    energy: f32, spectral_centroid: f32,
    speed: f32, intensity: f32, zoom: f32, color_shift: f32,
    rotation_speed: f32, bass_reactivity: f32, flash_intensity: f32, brightness: f32,
    pband0: f32, pband1: f32, pband2: f32, pband3: f32,
};

@group(0) @binding(0) var<uniform> u: Uniforms;

@vertex
fn vs_main(@builtin(vertex_index) vi: u32) -> @builtin(position) vec4<f32> {
    let x = f32(i32(vi) / 2) * 4.0 - 1.0;
    let y = f32(i32(vi) % 2) * 4.0 - 1.0;
    return vec4<f32>(x, y, 0.0, 1.0);
}

fn palette(t: f32) -> vec3<f32> {
    let c = t + u.color_shift;
    return 0.5 + 0.5 * cos(6.28318 * (vec3<f32>(c, c + 0.33, c + 0.67)));
}

fn rot(a: f32) -> mat2x2<f32> {
    let s = sin(a);
    let c = cos(a);
    return mat2x2<f32>(c, -s, s, c);
}

fn screen_uv(pos: vec4<f32>) -> vec2<f32> {
    let res = vec2<f32>(u.res_x, u.res_y);
    return (pos.xy - 0.5 * res) / max(u.res_y, 1.0) / max(u.zoom, 0.01);
}

fn finish(col: vec3<f32>) -> vec4<f32> {
    let flash = u.onset * u.flash_intensity;
    let c = (col * u.intensity + vec3<f32>(flash)) * u.brightness;
    return vec4<f32>(clamp(c, vec3<f32>(0.0), vec3<f32>(1.0)), 1.0);
}

fn warp(p: vec2<f32>, t: f32) -> f32 {
    var q = p;
    for (var i = 0; i < 4; i = i + 1) {
        q = q + 0.3 * vec2<f32>(sin(q.y * 2.0 + t), cos(q.x * 2.0 - t));
    }
    return sin(q.x * 3.0) * cos(q.y * 3.0);
}

@fragment
fn fs_main(@builtin(position) pos: vec4<f32>) -> @location(0) vec4<f32> {
    let uv = screen_uv(pos) * 2.0;
    let v = warp(uv, u.time * u.speed * 0.5 + u.sband3);
    let glow = 0.5 + 0.5 * v;
    return finish(palette(glow * 0.5 + u.time * 0.03) * glow);
}
"#;

/// WGSL source of the `strobe` shader.
pub const STROBE_WGSL: &'static str = r#"struct Uniforms {
    time: f32, res_x: f32, res_y: f32, beat_phase: f32,
    band0: f32, band1: f32, band2: f32, band3: f32, band4: f32, band5: f32,
    bpm: f32, onset: f32,
    sband0: f32, sband1: f32, sband2: f32, sband3: f32, sband4: f32, sband5: f32,
    energy: f32, spectral_centroid: f32,
    speed: f32, intensity: f32, zoom: f32, color_shift: f32,
    rotation_speed: f32, bass_reactivity: f32, flash_intensity: f32, brightness: f32,
    pband0: f32, pband1: f32, pband2: f32, pband3: f32,
};

@group(0) @binding(0) var<uniform> u: Uniforms;

@vertex
fn vs_main(@builtin(vertex_index) vi: u32) -> @builtin(position) vec4<f32> {
    let x = f32(i32(vi) / 2) * 4.0 - 1.0;
    let y = f32(i32(vi) % 2) * 4.0 - 1.0;
    return vec4<f32>(x, y, 0.0, 1.0);
}

fn palette(t: f32) -> vec3<f32> {
    let c = t + u.color_shift;
    return 0.5 + 0.5 * cos(6.28318 * (vec3<f32>(c, c + 0.33, c + 0.67)));
}

fn rot(a: f32) -> mat2x2<f32> {
    let s = sin(a);
    let c = cos(a);
    return mat2x2<f32>(c, -s, s, c);
}

fn screen_uv(pos: vec4<f32>) -> vec2<f32> {
    let res = vec2<f32>(u.res_x, u.res_y);
    return (pos.xy - 0.5 * res) / max(u.res_y, 1.0) / max(u.zoom, 0.01);
}

fn finish(col: vec3<f32>) -> vec4<f32> {
    let flash = u.onset * u.flash_intensity;
    let c = (col * u.intensity + vec3<f32>(flash)) * u.brightness;
    return vec4<f32>(clamp(c, vec3<f32>(0.0), vec3<f32>(1.0)), 1.0);
}

@fragment
fn fs_main(@builtin(position) pos: vec4<f32>) -> @location(0) vec4<f32> {
    let uv = rot(u.time * u.rotation_speed) * screen_uv(pos);
    let beat = 1.0 - u.beat_phase;
    let grid = abs(sin(uv.x * 10.0 * u.speed)) * abs(sin(uv.y * 10.0 * u.speed));
    let shape = step(0.5, grid) * beat * beat;
    let kick = u.sband0 * u.bass_reactivity;
    return finish(palette(u.time * 0.5) * (shape + kick * 0.3));
}
"#;

/// WGSL source of the `geometry` shader.
pub const GEOMETRY_WGSL: &'static str = r#"struct Uniforms {
    time: f32, res_x: f32, res_y: f32, beat_phase: f32,
    band0: f32, band1: f32, band2: f32, band3: f32, band4: f32, band5: f32,
    bpm: f32, onset: f32,
    sband0: f32, sband1: f32, sband2: f32, sband3: f32, sband4: f32, sband5: f32,
    energy: f32, spectral_centroid: f32,
    speed: f32, intensity: f32, zoom: f32, color_shift: f32,
    rotation_speed: f32, bass_reactivity: f32, flash_intensity: f32, brightness: f32,
    pband0: f32, pband1: f32, pband2: f32, pband3: f32,
};

@group(0) @binding(0) var<uniform> u: Uniforms;

@vertex
fn vs_main(@builtin(vertex_index) vi: u32) -> @builtin(position) vec4<f32> {
    let x = f32(i32(vi) / 2) * 4.0 - 1.0;
    let y = f32(i32(vi) % 2) * 4.0 - 1.0;
    return vec4<f32>(x, y, 0.0, 1.0);
}

fn palette(t: f32) -> vec3<f32> {
    let c = t + u.color_shift;
    return 0.5 + 0.5 * cos(6.28318 * (vec3<f32>(c, c + 0.33, c + 0.67)));
}

fn rot(a: f32) -> mat2x2<f32> {
    let s = sin(a);
    let c = cos(a);
    return mat2x2<f32>(c, -s, s, c);
}

fn screen_uv(pos: vec4<f32>) -> vec2<f32> {
    let res = vec2<f32>(u.res_x, u.res_y);
    return (pos.xy - 0.5 * res) / max(u.res_y, 1.0) / max(u.zoom, 0.01);
}

fn finish(col: vec3<f32>) -> vec4<f32> {
    let flash = u.onset * u.flash_intensity;
    let c = (col * u.intensity + vec3<f32>(flash)) * u.brightness;
    return vec4<f32>(clamp(c, vec3<f32>(0.0), vec3<f32>(1.0)), 1.0);
}

fn sdf(p: vec3<f32>) -> f32 {
    let q = abs(p) - vec3<f32>(0.6);
    let box = length(max(q, vec3<f32>(0.0))) + min(max(q.x, max(q.y, q.z)), 0.0);
    return max(box, 0.8 - length(p));
}

@fragment
fn fs_main(@builtin(position) pos: vec4<f32>) -> @location(0) vec4<f32> {
    let uv = screen_uv(pos);
    var ro = vec3<f32>(0.0, 0.0, -3.0);
    var rd = normalize(vec3<f32>(uv, 1.5));
    let m = rot(u.time * u.rotation_speed * 0.3);
    ro = vec3<f32>(m * ro.xz, ro.y).xzy;
    rd = vec3<f32>(m * rd.xz, rd.y).xzy;
    var t = 0.0;
    var hit = 0.0;
    for (var i = 0; i < 64; i = i + 1) {
        let d = sdf(ro + rd * t);
        if (d < 0.001) {
            hit = 1.0;
            break;
        }
        t = t + d;
    }
    let sheen = palette(t * 0.3 + u.time * 0.05 + u.sband2);
    return finish(sheen * hit * (1.5 - t * 0.3));
}
"#;

/// WGSL source of the `nebula` shader.
pub const NEBULA_WGSL: &'static str = r#"struct Uniforms {
    time: f32, res_x: f32, res_y: f32, beat_phase: f32,
    band0: f32, band1: f32, band2: f32, band3: f32, band4: f32, band5: f32,
    bpm: f32, onset: f32,
    sband0: f32, sband1: f32, sband2: f32, sband3: f32, sband4: f32, sband5: f32,
    energy: f32, spectral_centroid: f32,
    speed: f32, intensity: f32, zoom: f32, color_shift: f32,
    rotation_speed: f32, bass_reactivity: f32, flash_intensity: f32, brightness: f32,
    pband0: f32, pband1: f32, pband2: f32, pband3: f32,
};

@group(0) @binding(0) var<uniform> u: Uniforms;

@vertex
fn vs_main(@builtin(vertex_index) vi: u32) -> @builtin(position) vec4<f32> {
    let x = f32(i32(vi) / 2) * 4.0 - 1.0;
    let y = f32(i32(vi) % 2) * 4.0 - 1.0;
    return vec4<f32>(x, y, 0.0, 1.0);
}

fn palette(t: f32) -> vec3<f32> {
    let c = t + u.color_shift;
    return 0.5 + 0.5 * cos(6.28318 * (vec3<f32>(c, c + 0.33, c + 0.67)));
}

fn rot(a: f32) -> mat2x2<f32> {
    let s = sin(a);
    let c = cos(a);
    return mat2x2<f32>(c, -s, s, c);
}

fn screen_uv(pos: vec4<f32>) -> vec2<f32> {
    let res = vec2<f32>(u.res_x, u.res_y);
    return (pos.xy - 0.5 * res) / max(u.res_y, 1.0) / max(u.zoom, 0.01);
}

fn finish(col: vec3<f32>) -> vec4<f32> {
    let flash = u.onset * u.flash_intensity;
    let c = (col * u.intensity + vec3<f32>(flash)) * u.brightness;
    return vec4<f32>(clamp(c, vec3<f32>(0.0), vec3<f32>(1.0)), 1.0);
}

fn fbm(p: vec2<f32>) -> f32 {
    var v = 0.0;
    var a = 0.5;
    var q = p;
    for (var i = 0; i < 5; i = i + 1) {
        v = v + a * (0.5 + 0.5 * sin(q.x) * sin(q.y));
        q = rot(0.5) * q * 2.0 + vec2<f32>(1.7, 9.2);
        a = a * 0.5;
    }
    return v;
}

@fragment
fn fs_main(@builtin(position) pos: vec4<f32>) -> @location(0) vec4<f32> {
    let uv = screen_uv(pos) * 3.0;
    var col = vec3<f32>(0.0);
    for (var layer = 0; layer < 3; layer = layer + 1) {
        let depth = f32(layer) + 1.0;
        let d = fbm(uv * depth + u.time * u.speed * 0.1 * depth);
        col = col + palette(d + f32(layer) * 0.2) * d / depth;
    }
    return finish(col * (0.6 + 0.4 * u.energy));
}
"#;

/// WGSL source of the `electric` shader.
pub const ELECTRIC_WGSL: &'static str = r#"struct Uniforms {
    time: f32, res_x: f32, res_y: f32, beat_phase: f32,
    band0: f32, band1: f32, band2: f32, band3: f32, band4: f32, band5: f32,
    bpm: f32, onset: f32,
    sband0: f32, sband1: f32, sband2: f32, sband3: f32, sband4: f32, sband5: f32,
    energy: f32, spectral_centroid: f32,
    speed: f32, intensity: f32, zoom: f32, color_shift: f32,
    rotation_speed: f32, bass_reactivity: f32, flash_intensity: f32, brightness: f32,
    pband0: f32, pband1: f32, pband2: f32, pband3: f32,
};

@group(0) @binding(0) var<uniform> u: Uniforms;

@vertex
fn vs_main(@builtin(vertex_index) vi: u32) -> @builtin(position) vec4<f32> {
    let x = f32(i32(vi) / 2) * 4.0 - 1.0;
    let y = f32(i32(vi) % 2) * 4.0 - 1.0;
    return vec4<f32>(x, y, 0.0, 1.0);
}

fn palette(t: f32) -> vec3<f32> {
    let c = t + u.color_shift;
    return 0.5 + 0.5 * cos(6.28318 * (vec3<f32>(c, c + 0.33, c + 0.67)));
}

fn rot(a: f32) -> mat2x2<f32> {
    let s = sin(a);
    let c = cos(a);
    return mat2x2<f32>(c, -s, s, c);
}

fn screen_uv(pos: vec4<f32>) -> vec2<f32> {
    let res = vec2<f32>(u.res_x, u.res_y);
    return (pos.xy - 0.5 * res) / max(u.res_y, 1.0) / max(u.zoom, 0.01);
}

fn finish(col: vec3<f32>) -> vec4<f32> {
    let flash = u.onset * u.flash_intensity;
    let c = (col * u.intensity + vec3<f32>(flash)) * u.brightness;
    return vec4<f32>(clamp(c, vec3<f32>(0.0), vec3<f32>(1.0)), 1.0);
}

@fragment
fn fs_main(@builtin(position) pos: vec4<f32>) -> @location(0) vec4<f32> {
    let uv = screen_uv(pos);
    var col = vec3<f32>(0.0);
    for (var i = 0; i < 4; i = i + 1) {
        let fi = f32(i);
        let wave = sin(uv.x * (6.0 + fi) + u.time * u.speed * (2.0 + fi)) * 0.3
            * (0.5 + u.sband4 * u.bass_reactivity);
        let d = abs(uv.y - wave + fi * 0.1 - 0.15);
        col = col + palette(fi * 0.25 + u.time * 0.1) * (0.01 / max(d, 0.001));
    }
    return finish(col);
}
"#;

/// WGSL source of the `liquid` shader.
pub const LIQUID_WGSL: &'static str = r#"struct Uniforms {
    time: f32, res_x: f32, res_y: f32, beat_phase: f32,
    band0: f32, band1: f32, band2: f32, band3: f32, band4: f32, band5: f32,
    bpm: f32, onset: f32,
    sband0: f32, sband1: f32, sband2: f32, sband3: f32, sband4: f32, sband5: f32,
    energy: f32, spectral_centroid: f32,
    speed: f32, intensity: f32, zoom: f32, color_shift: f32,
    rotation_speed: f32, bass_reactivity: f32, flash_intensity: f32, brightness: f32,
    pband0: f32, pband1: f32, pband2: f32, pband3: f32,
};

@group(0) @binding(0) var<uniform> u: Uniforms;

@vertex
fn vs_main(@builtin(vertex_index) vi: u32) -> @builtin(position) vec4<f32> {
    let x = f32(i32(vi) / 2) * 4.0 - 1.0;
    let y = f32(i32(vi) % 2) * 4.0 - 1.0;
    return vec4<f32>(x, y, 0.0, 1.0);
}

fn palette(t: f32) -> vec3<f32> {
    let c = t + u.color_shift;
    return 0.5 + 0.5 * cos(6.28318 * (vec3<f32>(c, c + 0.33, c + 0.67)));
}

fn rot(a: f32) -> mat2x2<f32> {
    let s = sin(a);
    let c = cos(a);
    return mat2x2<f32>(c, -s, s, c);
}

fn screen_uv(pos: vec4<f32>) -> vec2<f32> {
    let res = vec2<f32>(u.res_x, u.res_y);
    return (pos.xy - 0.5 * res) / max(u.res_y, 1.0) / max(u.zoom, 0.01);
}

fn finish(col: vec3<f32>) -> vec4<f32> {
    let flash = u.onset * u.flash_intensity;
    let c = (col * u.intensity + vec3<f32>(flash)) * u.brightness;
    return vec4<f32>(clamp(c, vec3<f32>(0.0), vec3<f32>(1.0)), 1.0);
}

@fragment
fn fs_main(@builtin(position) pos: vec4<f32>) -> @location(0) vec4<f32> {
    var p = screen_uv(pos) * 2.0;
    let t = u.time * u.speed * 0.4;
    for (var i = 1; i < 6; i = i + 1) {
        let fi = f32(i);
        p = p + vec2<f32>(0.6 / fi * sin(fi * p.y + t + 0.3 * fi), 0.6 / fi * cos(fi * p.x + t + 0.3 * fi));
    }
    let metal = 0.5 + 0.5 * sin(p.x + p.y + u.sband1 * u.bass_reactivity);
    return finish(palette(metal * 0.4 + 0.1) * (0.4 + 0.6 * metal));
}
"#;

} // verus!
