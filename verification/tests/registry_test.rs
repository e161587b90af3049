use mycelium::registry::ShaderRegistry;

#[test]
fn test_builtins_load() {
    let reg = ShaderRegistry::default();
    assert!(reg.len() >= 3, "Expected at least 3 shaders, got {}", reg.len());
    for name in reg.names() {
        assert!(reg.get(name).is_some(), "Shader {name} not found");
    }
}

#[test]
fn test_shader_source_is_valid_wgsl() {
    let reg = ShaderRegistry::default();
    for name in reg.names() {
        let entry = reg.get(name).unwrap();
        assert!(
            entry.source.contains("@fragment"),
            "Shader {name} must have @fragment entry"
        );
        assert!(
            entry.source.contains("@vertex"),
            "Shader {name} must have @vertex entry"
        );
        assert!(
            entry.source.contains("Uniforms"),
            "Shader {name} must use Uniforms struct"
        );
    }
}

#[test]
fn builtin_shaders_parse_and_validate() {
    let reg = ShaderRegistry::default();
    for name in reg.names() {
        let entry = reg.get(name).unwrap();
        let module = naga::front::wgsl::parse_str(&entry.source)
            .unwrap_or_else(|e| panic!("shader {name} does not parse: {}", e.emit_to_string(&entry.source)));
        naga::valid::Validator::new(naga::valid::ValidationFlags::all(), naga::valid::Capabilities::default())
            .validate(&module)
            .unwrap_or_else(|e| panic!("shader {name} does not validate: {e:?}"));
    }
}

#[test]
fn builtins_are_registered_in_order() {
    let reg = ShaderRegistry::default();
    let names: Vec<&str> = reg.names().iter().map(|s| s.as_str()).collect();
    assert_eq!(
        names,
        vec![
            "fractal", "hypnotic", "voronoi", "kaleidoscope", "neural", "strobe", "geometry",
            "nebula", "electric", "liquid"
        ]
    );
    assert_eq!(reg.len(), 10);
    assert!(!reg.is_empty());
    assert_eq!(reg.get("hypnotic").unwrap().path, "assets/shaders/warp_tunnel.wgsl");
    assert_eq!(reg.get("neural").unwrap().description, "Organic domain-warped flowing patterns");
}

#[test]
fn register_again_replaces_in_place() {
    let mut reg = ShaderRegistry::new();
    assert!(reg.is_empty());
    reg.register("a", "src a", "first", "a.wgsl");
    reg.register("b", "src b", "second", "b.wgsl");
    reg.register("a", "src a2", "first again", "a2.wgsl");
    assert_eq!(reg.len(), 2);
    assert_eq!(reg.names(), &["a".to_string(), "b".to_string()]);
    let a = reg.get("a").unwrap();
    assert_eq!(a.source, "src a2");
    assert_eq!(a.description, "first again");
    assert_eq!(a.path, "a2.wgsl");
    assert_eq!(a.name, "a");
}

#[test]
fn get_unknown_shader_is_none() {
    let reg = ShaderRegistry::default();
    assert!(reg.get("plasma").is_none());
    assert!(reg.get("").is_none());
    assert!(ShaderRegistry::new().get("fractal").is_none());
}

#[test]
fn load_builtins_twice_keeps_ten() {
    let mut reg = ShaderRegistry::default();
    reg.load_builtins();
    assert_eq!(reg.len(), 10);
    assert_eq!(reg.names()[0], "fractal");
}

#[test]
fn names_keep_first_registration_order_without_duplicates() {
    let mut reg = ShaderRegistry::new();
    reg.register("nebula", "a", "", "");
    reg.register("custom", "b", "", "");
    reg.register("nebula", "c", "", "");
    reg.load_builtins();
    let names: Vec<&str> = reg.names().iter().map(|s| s.as_str()).collect();
    assert_eq!(
        names,
        vec![
            "nebula", "custom", "fractal", "hypnotic", "voronoi", "kaleidoscope", "neural",
            "strobe", "geometry", "electric", "liquid"
        ]
    );
    assert_eq!(reg.len(), names.len());
    assert!(!reg.is_empty());
    for n in &names {
        assert!(reg.get(n).is_some());
    }
    assert!(reg.get("plasma").is_none());
    assert_eq!(reg.get("custom").unwrap().source, "b");
}
