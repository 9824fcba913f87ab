use fusabi_host::{Capabilities, Capability, EngineConfig};
use fusabi_plugin_runtime::{
    ApiVersion, Error, LifecycleState, LoaderConfig, Manifest, ManifestBuilder, Plugin,
    PluginLoader,
};

fn bytecode() -> Vec<u8> {
    let mut bytes = vec![0x46, 0x5a, 0x42, 0x00, 1];
    bytes.extend_from_slice(&[0u8; 20]);
    bytes
}

#[test]
fn test_loader_config_builder() {
    let config = LoaderConfig::new()
        .with_auto_start(false)
        .with_strict_validation(true);

    assert!(!config.auto_start);
    assert!(config.strict_validation);
}

#[test]
fn test_loader_creation() {
    let loader = PluginLoader::new(LoaderConfig::default()).unwrap();
    assert!(loader.config().auto_start);
}

/// What a caller finds at the entry point of a source manifest: the bytecode
/// that the engine compiles from the file, or the text of its failure.
fn found_at_entry_point(loader: &PluginLoader, manifest: &Manifest) -> Result<Vec<u8>, String> {
    let path = loader.entry_path(manifest, None).unwrap();
    fusabi_host::compile_file(std::path::Path::new(&path), &loader.config().compile_options)
        .map(|compiled| compiled.bytecode)
        .map_err(|e| e.to_string())
}

#[test]
fn test_load_manifest() {
    let loader = PluginLoader::new(LoaderConfig::new().with_auto_start(false)).unwrap();

    let manifest = ManifestBuilder::new("test-plugin", "1.0.0")
        .source("test.fsx")
        .build_unchecked();

    // The source file does not exist: the caller hands over the failure to
    // compile it.
    let content = found_at_entry_point(&loader, &manifest);
    assert!(content.is_err());
    let result = loader.load_manifest(1, manifest, content);

    // Should fail on missing source file
    assert!(result.is_err());
}

#[test]
fn test_api_version_check() {
    let loader = PluginLoader::new(
        LoaderConfig::new()
            .with_host_api_version(ApiVersion::new(0, 18, 0))
            .with_auto_start(false),
    )
    .unwrap();

    // Plugin requiring newer version should fail
    let manifest = ManifestBuilder::new("test", "1.0.0")
        .api_version(ApiVersion::new(1, 0, 0))
        .source("test.fsx")
        .build_unchecked();

    let content = found_at_entry_point(&loader, &manifest);
    let result = loader.load_manifest(1, manifest, content);
    assert!(matches!(result, Err(Error::ApiVersionMismatch { .. })));
}

#[test]
fn loader_scenario_version_negotiation() {
    let loader = PluginLoader::new(
        LoaderConfig::new().with_host_api_version(ApiVersion::new(0, 21, 5)),
    )
    .unwrap();
    let newer = ManifestBuilder::new("newer", "1.0.0")
        .api_version(ApiVersion::new(0, 22, 0))
        .source("p.fsx")
        .build_unchecked();
    match loader.load_manifest(1, newer, Ok(bytecode())) {
        Err(Error::ApiVersionMismatch { required, provided }) => {
            assert_eq!(required, "0.22.0");
            assert_eq!(provided, "0.21.5");
        }
        _ => panic!("the host cannot host a plugin built for a newer minor version"),
    }
    let older = ManifestBuilder::new("older", "1.0.0")
        .api_version(ApiVersion::new(0, 20, 0))
        .source("p.fsx")
        .build_unchecked();
    let plugin: Plugin = loader.load_manifest(2, older, Ok(bytecode())).unwrap();
    assert_eq!(plugin.id(), 2);
    assert_eq!(plugin.name(), "older");
    assert_eq!(plugin.state(), LifecycleState::Running);
    assert_eq!(plugin.bytecode(), Some(bytecode()));
}

#[test]
fn loader_validates_before_it_checks_the_version() {
    let loader = PluginLoader::new(
        LoaderConfig::new().with_host_api_version(ApiVersion::new(0, 18, 0)),
    )
    .unwrap();
    let manifest = ManifestBuilder::new("", "1")
        .api_version(ApiVersion::new(9, 0, 0))
        .build_unchecked();
    assert!(matches!(
        loader.check_manifest(&manifest),
        Err(Error::MissingManifestField(_))
    ));
    assert!(matches!(
        loader.load_manifest(1, manifest, Ok(Vec::new())),
        Err(Error::MissingManifestField(_))
    ));
    let lenient = PluginLoader::new(
        LoaderConfig::new()
            .with_host_api_version(ApiVersion::new(0, 18, 0))
            .with_strict_validation(false),
    )
    .unwrap();
    let manifest = ManifestBuilder::new("", "1")
        .api_version(ApiVersion::new(9, 0, 0))
        .build_unchecked();
    assert!(matches!(
        lenient.check_manifest(&manifest),
        Err(Error::ApiVersionMismatch { .. })
    ));
    let manifest = ManifestBuilder::new("", "").build_unchecked();
    assert!(lenient.check_manifest(&manifest).is_ok());
    // No entry point: the content is not looked at, and no bytecode is kept.
    let plugin = lenient.load_manifest(1, manifest, Ok(vec![9, 9])).unwrap();
    assert_eq!(plugin.state(), LifecycleState::Running);
    assert_eq!(plugin.bytecode(), None);
}

#[test]
fn loader_takes_the_content_of_the_entry_point() {
    let loader = PluginLoader::new(LoaderConfig::new().with_auto_start(false)).unwrap();
    let source = ManifestBuilder::new("s", "1").source("s.fsx").build_unchecked();
    match loader.load_manifest(1, source.clone(), Err("line 3: syntax".to_string())) {
        Err(Error::Compilation(m)) => assert_eq!(m, "line 3: syntax"),
        _ => panic!("a failure to compile ends the load"),
    }
    // Compiled bytecode is taken as it is.
    let plugin = loader.load_manifest(1, source, Ok(vec![1, 2, 3])).unwrap();
    assert_eq!(plugin.bytecode(), Some(vec![1, 2, 3]));
    assert_eq!(plugin.state(), LifecycleState::Initialized);

    // The header of a bytecode file is checked.
    let artifact = ManifestBuilder::new("b", "1").bytecode("b.fzb").build_unchecked();
    assert!(matches!(
        loader.load_manifest(1, artifact.clone(), Ok(vec![1, 2, 3])),
        Err(Error::Compilation(_))
    ));
    let mut wrong_magic = bytecode();
    wrong_magic[2] = 0x43;
    assert!(matches!(
        loader.load_manifest(1, artifact.clone(), Ok(wrong_magic)),
        Err(Error::Compilation(_))
    ));
    let mut wrong_version = bytecode();
    wrong_version[4] = 2;
    assert!(matches!(
        loader.load_manifest(1, artifact.clone(), Ok(wrong_version)),
        Err(Error::Compilation(_))
    ));
    let mut short = bytecode();
    short.truncate(15);
    assert!(matches!(
        loader.load_manifest(1, artifact.clone(), Ok(short)),
        Err(Error::Compilation(_))
    ));
    let mut sixteen = bytecode();
    sixteen.truncate(16);
    sixteen[4] = 0;
    let plugin = loader.load_manifest(1, artifact, Ok(sixteen.clone())).unwrap();
    assert_eq!(plugin.bytecode(), Some(sixteen));
}

#[test]
fn loader_grants_the_declared_capabilities() {
    let base = EngineConfig::default()
        .with_capabilities(Capabilities::none().with(Capability::TimeRead));
    let loader = PluginLoader::new(
        LoaderConfig::new()
            .with_engine_config(base)
            .with_auto_start(false),
    )
    .unwrap();
    let manifest = ManifestBuilder::new("p", "1")
        .source("p.fsx")
        .capability("fs:read")
        .capability("net:request")
        .build_unchecked();
    let config = loader.build_engine_config(&manifest).unwrap();
    assert!(config.capabilities.has(Capability::FsRead));
    assert!(config.capabilities.has(Capability::NetRequest));
    assert!(config.capabilities.has(Capability::TimeRead));
    assert_eq!(config.capabilities.len(), 3);
    // The loader's own configuration stays as it is.
    assert_eq!(loader.config().engine_config.capabilities.len(), 1);
    let plugin = loader.load_manifest(1, manifest, Ok(bytecode())).unwrap();
    assert_eq!(plugin.state(), LifecycleState::Initialized);

    let lenient = PluginLoader::new(
        LoaderConfig::new()
            .with_strict_validation(false)
            .with_auto_start(false),
    )
    .unwrap();
    let manifest = ManifestBuilder::new("p", "1")
        .source("p.fsx")
        .capability("fs:read")
        .capability("bogus:cap")
        .build_unchecked();
    match lenient.build_engine_config(&manifest) {
        Err(Error::InvalidManifest(m)) => assert_eq!(m, "unknown capability: bogus:cap"),
        _ => panic!("an unknown capability cannot be granted"),
    }
    match lenient.load_manifest(1, manifest, Ok(bytecode())) {
        Err(Error::InvalidManifest(m)) => assert_eq!(m, "unknown capability: bogus:cap"),
        _ => panic!("an unknown capability ends the load"),
    }
}

#[test]
fn loader_configurations() {
    let config = LoaderConfig::default();
    let caps = &config.engine_config.capabilities;
    assert_eq!(caps.len(), 6);
    for cap in [
        Capability::TimeRead,
        Capability::Random,
        Capability::StdoutWrite,
        Capability::StderrWrite,
        Capability::Logging,
        Capability::Serialize,
    ] {
        assert!(caps.has(cap));
    }
    assert_eq!(config.host_api_version, ApiVersion::new(0, 18, 0));
    assert_eq!(config.base_path, None);
    assert!(config.auto_start);
    assert!(config.strict_validation);

    let strict = LoaderConfig::strict();
    assert!(strict.engine_config.capabilities.is_empty());
    assert_eq!(strict.compile_options.opt_level, 2);
    assert!(!strict.auto_start);
    assert!(strict.strict_validation);

    let config = LoaderConfig::new()
        .with_base_path("/plugins")
        .with_compile_options(fusabi_host::CompileOptions::development())
        .with_engine_config(EngineConfig::strict());
    assert_eq!(config.base_path.as_deref(), Some("/plugins"));
    assert!(config.compile_options.debug_info);
    assert!(config.engine_config.capabilities.is_empty());
    let copy = config.clone();
    assert_eq!(copy.base_path.as_deref(), Some("/plugins"));
    assert!(copy.compile_options.debug_info);
    assert!(copy.engine_config.capabilities.is_empty());
}

#[test]
fn loader_resolves_paths() {
    let loader = PluginLoader::new(LoaderConfig::new()).unwrap();
    assert_eq!(loader.resolve_path("a/b.fsx"), "a/b.fsx");
    assert_eq!(loader.resolve_path("/a/b.fsx"), "/a/b.fsx");
    let based = PluginLoader::new(LoaderConfig::new().with_base_path("/plugins")).unwrap();
    assert_eq!(based.resolve_path("a/b.fsx"), "/plugins/a/b.fsx");
    assert_eq!(based.resolve_path("/a/b.fsx"), "/a/b.fsx");

    let manifest = ManifestBuilder::new("p", "1").source("main.fsx").build_unchecked();
    assert_eq!(
        based.entry_path(&manifest, Some("/etc/p/plugin.toml")).as_deref(),
        Some("/etc/p/main.fsx")
    );
    assert_eq!(
        based.entry_path(&manifest, Some("plugin.toml")).as_deref(),
        Some("main.fsx")
    );
    assert_eq!(
        based.entry_path(&manifest, Some("/")).as_deref(),
        Some("./main.fsx")
    );
    assert_eq!(
        based.entry_path(&manifest, None).as_deref(),
        Some("/plugins/main.fsx")
    );
    assert_eq!(
        loader.entry_path(&manifest, None).as_deref(),
        Some("main.fsx")
    );
    let absolute = ManifestBuilder::new("p", "1").bytecode("/opt/p.fzb").build_unchecked();
    assert_eq!(
        based.entry_path(&absolute, Some("/etc/p/plugin.toml")).as_deref(),
        Some("/opt/p.fzb")
    );
    let none = ManifestBuilder::new("p", "1").build_unchecked();
    assert_eq!(based.entry_path(&none, Some("/etc/p/plugin.toml")), None);
}

#[test]
fn loader_loads_source_text() {
    let loader = PluginLoader::new(LoaderConfig::new().with_base_path("/plugins")).unwrap();
    let plugin = loader.load_source(5, "tools/hello.fsx", "1 + 2").unwrap();
    assert_eq!(plugin.id(), 5);
    assert_eq!(plugin.name(), "hello");
    assert_eq!(plugin.version(), "0.0.0");
    assert_eq!(plugin.state(), LifecycleState::Running);
    let compiled = fusabi_host::compile_source("1 + 2", &loader.config().compile_options)
        .unwrap()
        .bytecode;
    assert_eq!(plugin.bytecode(), Some(compiled));
    assert!(plugin.manifest().capabilities.is_empty());
    assert_eq!(plugin.manifest().entry_point(), None);

    // Another text gives other bytecode: the plugin holds what was compiled.
    let other = loader.load_source(9, "tools/other.fsx", "3 + 4").unwrap();
    assert_ne!(other.bytecode(), plugin.bytecode());
    assert_ne!(other.bytecode(), Some("3 + 4".as_bytes().to_vec()));

    match loader.load_source(6, "tools/empty.fsx", "   ") {
        Err(Error::Host(_)) => {}
        _ => panic!("empty source does not compile"),
    }
    let plugin = loader.load_source(7, "..", "1").unwrap();
    assert_eq!(plugin.name(), "unnamed");
    let idle = PluginLoader::new(LoaderConfig::new().with_auto_start(false)).unwrap();
    let plugin = idle.load_source(8, "x.tar.gz", "1").unwrap();
    assert_eq!(plugin.name(), "x.tar");
    assert_eq!(plugin.state(), LifecycleState::Initialized);
}

#[test]
fn loader_loads_bytecode() {
    let loader = PluginLoader::new(LoaderConfig::new()).unwrap();
    let plugin = loader.load_bytecode_file(3, "/opt/tool.fzb", bytecode()).unwrap();
    assert_eq!(plugin.id(), 3);
    assert_eq!(plugin.name(), "tool");
    assert_eq!(
        plugin.version(),
        fusabi_host::validate_bytecode(&bytecode()).unwrap().compiler_version
    );
    assert_eq!(plugin.version(), "0.18.0");
    assert_eq!(plugin.bytecode(), Some(bytecode()));
    assert_eq!(plugin.state(), LifecycleState::Running);
    match loader.load_bytecode_file(4, "/opt/tool.fzb", vec![0; 32]) {
        Err(Error::Host(_)) => {}
        _ => panic!("bytes without the magic number are no bytecode"),
    }
}

#[test]
fn loader_reloads_a_plugin() {
    let loader = PluginLoader::new(LoaderConfig::new()).unwrap();
    let mut plugin = loader.load_source(1, "p.fsx", "1").unwrap();
    loader.reload(&mut plugin).unwrap();
    assert_eq!(plugin.state(), LifecycleState::Running);
    assert_eq!(plugin.info().reload_count, 1);
    plugin.unload().unwrap();
    assert!(matches!(loader.reload(&mut plugin), Err(Error::PluginUnloaded)));
}
