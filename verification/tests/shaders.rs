use fathom::shaders::{
    Shader, ShaderAssetLoader, ShaderAssetLoaderError, ShaderLoadState, ShaderRegistry,
    ShaderRegistryError, ShadersState, DEFAULT_2D_SHADER, DEFAULT_3D_SHADER,
};

#[test]
fn loader_decodes_valid_utf8() {
    let loader = ShaderAssetLoader;
    let shader = loader.load(b"fn vertex_main() {}".to_vec()).unwrap();
    assert_eq!(shader.content(), "fn vertex_main() {}");
}

#[test]
fn loader_rejects_invalid_utf8() {
    let loader = ShaderAssetLoader;
    let result = loader.load(vec![0xff, 0xfe, 0x00, 0x80]);
    assert_eq!(result.unwrap_err(), ShaderAssetLoaderError::CouldNotLoad);
}

#[test]
fn loader_accepts_empty_input() {
    let loader = ShaderAssetLoader;
    let shader = loader.load(Vec::new()).unwrap();
    assert_eq!(shader.content(), "");
}

#[test]
fn loader_serves_wgsl_extension() {
    assert_eq!(ShaderAssetLoader.extensions(), "wgsl");
}

#[test]
fn shader_wraps_content() {
    let shader = Shader::new(String::from("@fragment"));
    assert_eq!(shader.content(), "@fragment");
}

#[test]
fn registry_load_allocates_sequential_handles() {
    let mut registry = ShaderRegistry::new();
    assert_eq!(registry.len(), 0);
    let a = registry.load(String::from("shaders/a.wgsl"));
    let b = registry.load(String::from("shaders/b.wgsl"));
    assert_eq!(a, 0);
    assert_eq!(b, 1);
    assert_eq!(registry.len(), 2);
}

#[test]
fn registry_get_fails_before_load_completes() {
    let mut registry = ShaderRegistry::new();
    let h = registry.load(String::from("shaders/a.wgsl"));
    assert_eq!(registry.load_state(h), Some(ShaderLoadState::Loading));
    assert_eq!(registry.get(h).unwrap_err(), ShaderRegistryError::NotLoaded);
}

#[test]
fn registry_get_returns_content_after_load() {
    let mut registry = ShaderRegistry::new();
    let h = registry.load(String::from("shaders/a.wgsl"));
    registry.complete_load(h, b"fn fragment_main() {}".to_vec()).unwrap();
    assert_eq!(registry.load_state(h), Some(ShaderLoadState::Loaded));
    assert_eq!(registry.get(h).unwrap().content(), "fn fragment_main() {}");
}

#[test]
fn registry_failed_load_is_observable() {
    let mut registry = ShaderRegistry::new();
    let h = registry.load(String::from("shaders/a.wgsl"));
    let err = registry.complete_load(h, vec![0xc0, 0x00]).unwrap_err();
    assert_eq!(err, ShaderAssetLoaderError::CouldNotLoad);
    assert_eq!(registry.load_state(h), Some(ShaderLoadState::Failed));
    assert_eq!(registry.get(h).unwrap_err(), ShaderRegistryError::NotLoaded);
}

#[test]
fn registry_unknown_handle_has_no_state() {
    let registry = ShaderRegistry::new();
    assert_eq!(registry.load_state(7), None);
    assert_eq!(registry.get(7).unwrap_err(), ShaderRegistryError::NotLoaded);
}

#[test]
fn registry_records_a_failed_read() {
    let mut registry = ShaderRegistry::new();
    let h = registry.load(String::from("shaders/a.wgsl"));
    registry.fail_load(h);
    assert_eq!(registry.load_state(h), Some(ShaderLoadState::Failed));
    assert_eq!(registry.get(h).unwrap_err(), ShaderRegistryError::NotLoaded);
    assert_eq!(registry.path(h).unwrap(), "shaders/a.wgsl");
}

#[test]
fn registry_remembers_requested_paths() {
    let mut registry = ShaderRegistry::new();
    let h = registry.load(String::from("shaders/a.wgsl"));
    assert_eq!(registry.path(h).unwrap(), "shaders/a.wgsl");
    assert_eq!(registry.path(h + 1), None);
    registry.complete_load(h, b"x".to_vec()).unwrap();
    assert_eq!(registry.path(h).unwrap(), "shaders/a.wgsl");
}

#[test]
fn default_shader_paths() {
    assert_eq!(DEFAULT_3D_SHADER, "shaders/default.wgsl");
    assert_eq!(DEFAULT_2D_SHADER, "shaders/default_2d.wgsl");
}

#[test]
fn shaders_state_starts_empty() {
    let state: ShadersState<u32> = ShadersState::new();
    assert!(state.shader_handles.is_empty());
    assert!(state.loaded_shader_modules.is_empty());
}
