use mycelium::builtin_shaders::{FRACTAL_WGSL, VORONOI_WGSL};
use mycelium::overlay::ShaderSource;
use mycelium::reload::{reload_sources, reload_text, ReloadFailure};

fn source(name: &str, wgsl: &str, path: Option<&str>) -> ShaderSource {
    ShaderSource {
        name: name.to_string(),
        wgsl: wgsl.to_string(),
        path: path.map(|p| p.to_string()),
    }
}

#[test]
fn embedded_shader_keeps_its_text() {
    let s = source("a", "embedded", None);
    assert_eq!(reload_text(&s, &Some("ignored".to_string()), false, 3), Ok("embedded"));
    assert_eq!(reload_text(&s, &None, false, 3), Ok("embedded"));
}

#[test]
fn shader_with_file_takes_parsed_text() {
    let s = source("a", "old", Some("a.wgsl"));
    let file = Some("new".to_string());
    assert_eq!(reload_text(&s, &file, true, 0), Ok("new"));
    assert_eq!(reload_text(&s, &file, false, 4), Err(ReloadFailure::InvalidWgsl(4)));
    assert_eq!(reload_text(&s, &None, true, 2), Err(ReloadFailure::Unreadable(2)));
}

#[test]
fn valid_files_replace_every_shader_in_order() {
    let sources = vec![
        source("fractal", "old fractal", Some("fractal.wgsl")),
        source("embedded", VORONOI_WGSL, None),
        source("voronoi", "old voronoi", Some("voronoi.wgsl")),
    ];
    let files = vec![Some(FRACTAL_WGSL.to_string()), None, Some(VORONOI_WGSL.to_string())];
    let texts = reload_sources(&sources, &files).unwrap();
    assert_eq!(texts, vec![FRACTAL_WGSL, VORONOI_WGSL, VORONOI_WGSL]);
}

#[test]
fn invalid_wgsl_keeps_running_shaders() {
    let sources = vec![
        source("fractal", "old", Some("fractal.wgsl")),
        source("voronoi", "old", Some("voronoi.wgsl")),
    ];
    let files = vec![Some(FRACTAL_WGSL.to_string()), Some("fn main( {".to_string())];
    assert_eq!(reload_sources(&sources, &files), Err(ReloadFailure::InvalidWgsl(1)));
}

#[test]
fn first_failure_in_order_is_reported() {
    let sources = vec![
        source("a", "old", Some("a.wgsl")),
        source("b", "old", Some("b.wgsl")),
        source("c", "old", Some("c.wgsl")),
    ];
    let files = vec![Some(FRACTAL_WGSL.to_string()), None, Some("not wgsl".to_string())];
    assert_eq!(reload_sources(&sources, &files), Err(ReloadFailure::Unreadable(1)));
    let files = vec![Some("@@".to_string()), None, Some(FRACTAL_WGSL.to_string())];
    assert_eq!(reload_sources(&sources, &files), Err(ReloadFailure::InvalidWgsl(0)));
}

#[test]
fn no_shaders_reload_to_nothing() {
    assert_eq!(reload_sources(&[], &[]), Ok(Vec::new()));
}
