use fusabi_host::EngineConfig;
use fusabi_plugin_runtime::{
    Error, LifecycleState, ManifestBuilder, Plugin, PluginRegistry, RegistryConfig,
};

fn create_test_plugin(name: &str) -> Plugin {
    plugin_with_id(1, name)
}

fn plugin_with_id(id: u64, name: &str) -> Plugin {
    let manifest = ManifestBuilder::new(name, "1.0.0")
        .source("test.fsx")
        .build_unchecked();
    Plugin::new(id, manifest)
}

fn running_plugin(name: &str, exports: &[&str], tags: &[&str]) -> Plugin {
    let mut builder = ManifestBuilder::new(name, "1.0.0").source("test.fsx");
    for export in exports {
        builder = builder.export(export);
    }
    for tag in tags {
        builder = builder.tag(tag);
    }
    let mut plugin = Plugin::new(2, builder.build_unchecked());
    plugin.initialize(EngineConfig::default()).unwrap();
    plugin.start().unwrap();
    plugin
}

#[test]
fn test_registry_creation() {
    let registry = PluginRegistry::default_config();
    assert!(registry.is_empty());
    assert_eq!(registry.len(), 0);
}

#[test]
fn test_register_plugin() {
    let mut registry = PluginRegistry::default_config();
    let plugin = create_test_plugin("test-plugin");

    registry.register(plugin).unwrap();

    assert!(registry.contains("test-plugin"));
    assert_eq!(registry.len(), 1);
}

#[test]
fn test_register_duplicate() {
    let mut registry = PluginRegistry::default_config();

    let plugin1 = create_test_plugin("test-plugin");
    let plugin2 = create_test_plugin("test-plugin");

    registry.register(plugin1).unwrap();
    let result = registry.register(plugin2);

    assert!(matches!(result, Err(Error::PluginAlreadyLoaded(_))));
}

#[test]
fn test_register_duplicate_with_overwrite() {
    let config = RegistryConfig::new().with_allow_overwrite(true);
    let mut registry = PluginRegistry::new(config);

    let plugin1 = plugin_with_id(1, "test-plugin");
    let id1 = plugin1.id();

    let plugin2 = plugin_with_id(2, "test-plugin");
    let id2 = plugin2.id();

    registry.register(plugin1).unwrap();
    registry.register(plugin2).unwrap();

    let plugin = registry.get("test-plugin").unwrap();
    assert_eq!(plugin.id(), id2);
    assert_ne!(plugin.id(), id1);
}

#[test]
fn test_unregister_plugin() {
    let mut registry = PluginRegistry::default_config();
    let plugin = create_test_plugin("test-plugin");

    registry.register(plugin).unwrap();
    assert!(registry.contains("test-plugin"));

    registry.unregister("test-plugin").unwrap();
    assert!(!registry.contains("test-plugin"));
}

#[test]
fn test_unregister_nonexistent() {
    let mut registry = PluginRegistry::default_config();
    let result = registry.unregister("nonexistent");
    assert!(matches!(result, Err(Error::PluginNotFound(_))));
}

#[test]
fn test_get_all_plugins() {
    let mut registry = PluginRegistry::default_config();

    registry.register(create_test_plugin("plugin-1")).unwrap();
    registry.register(create_test_plugin("plugin-2")).unwrap();
    registry.register(create_test_plugin("plugin-3")).unwrap();

    let all = registry.all();
    assert_eq!(all.len(), 3);

    let names = registry.names();
    assert!(names.contains(&"plugin-1".to_string()));
    assert!(names.contains(&"plugin-2".to_string()));
    assert!(names.contains(&"plugin-3".to_string()));
}

#[test]
fn registry_test_registry_stats() {
    let mut registry = PluginRegistry::default_config();

    registry.register(create_test_plugin("plugin-1")).unwrap();
    registry.register(create_test_plugin("plugin-2")).unwrap();

    let stats = registry.stats();
    assert_eq!(stats.total, 2);
}

#[test]
fn test_max_plugins() {
    let config = RegistryConfig::new().with_max_plugins(2);
    let mut registry = PluginRegistry::new(config);

    registry.register(create_test_plugin("plugin-1")).unwrap();
    registry.register(create_test_plugin("plugin-2")).unwrap();

    let result = registry.register(create_test_plugin("plugin-3"));
    assert!(matches!(result, Err(Error::Registry(_))));
}

#[test]
fn registry_scenario_full_then_duplicate() {
    let config = RegistryConfig::new()
        .with_max_plugins(2)
        .with_allow_overwrite(false);
    let mut registry = PluginRegistry::new(config);
    registry.register(create_test_plugin("a")).unwrap();
    registry.register(create_test_plugin("b")).unwrap();
    match registry.register(create_test_plugin("c")) {
        Err(Error::Registry(m)) => assert_eq!(m, "full"),
        _ => panic!("a full registry refuses"),
    }
    // Fullness is tested before the name.
    match registry.register(create_test_plugin("a")) {
        Err(Error::Registry(m)) => assert_eq!(m, "full"),
        _ => panic!("a full registry refuses a known name too"),
    }
    assert_eq!(registry.names(), vec!["a", "b"]);

    let mut registry = PluginRegistry::new(RegistryConfig::new().with_max_plugins(3));
    registry.register(create_test_plugin("a")).unwrap();
    registry.register(create_test_plugin("b")).unwrap();
    match registry.register(create_test_plugin("a")) {
        Err(Error::PluginAlreadyLoaded(name)) => assert_eq!(name, "a"),
        _ => panic!("a taken name is refused"),
    }
    assert_eq!(registry.len(), 2);
}

#[test]
fn registry_admission_boundary() {
    let mut registry = PluginRegistry::new(RegistryConfig::new().with_max_plugins(3));
    registry.register(create_test_plugin("a")).unwrap();
    registry.register(create_test_plugin("b")).unwrap();
    assert_eq!(registry.len(), 2);
    assert!(registry.register(create_test_plugin("c")).is_ok());
    assert_eq!(registry.len(), 3);
    assert!(registry.register(create_test_plugin("d")).is_err());
    assert_eq!(registry.len(), 3);
    let mut none = PluginRegistry::new(RegistryConfig::new().with_max_plugins(0));
    assert!(none.register(create_test_plugin("a")).is_err());
    assert!(none.is_empty());
}

#[test]
fn registry_register_then_get_then_unregister() {
    let mut registry = PluginRegistry::default_config();
    let plugin = plugin_with_id(17, "a");
    let id = plugin.id();
    registry.register(plugin).unwrap();
    registry.register(create_test_plugin("b")).unwrap();
    registry.register(create_test_plugin("c")).unwrap();
    let found = registry.get("a").unwrap();
    assert_eq!(found.id(), id);
    assert_eq!(found.name(), "a");
    assert_eq!(found.state(), LifecycleState::Created);
    let removed = registry.unregister("a").unwrap();
    assert_eq!(removed.id(), id);
    assert_eq!(removed.state(), LifecycleState::Unloaded);
    assert!(registry.get("a").is_none());
    assert!(!registry.contains("a"));
    // The last plugin took the place of the removed one.
    assert_eq!(registry.names(), vec!["c", "b"]);
    assert_eq!(registry.get("b").unwrap().name(), "b");
    assert_eq!(registry.get("c").unwrap().name(), "c");
    registry.unregister("b").unwrap();
    registry.unregister("c").unwrap();
    assert!(registry.is_empty());
    assert!(registry.get("c").is_none());
}

#[test]
fn registry_overwrite_unloads_the_replaced_plugin_in_place() {
    let mut registry = PluginRegistry::new(RegistryConfig::new().with_allow_overwrite(true));
    registry.register(create_test_plugin("a")).unwrap();
    registry.register(running_plugin("b", &[], &[])).unwrap();
    registry.register(create_test_plugin("c")).unwrap();
    let replacement = plugin_with_id(9, "b");
    let id = replacement.id();
    registry.register(replacement).unwrap();
    assert_eq!(registry.names(), vec!["a", "b", "c"]);
    assert_eq!(registry.get("b").unwrap().id(), id);
    assert_eq!(registry.get("b").unwrap().state(), LifecycleState::Created);
    assert_eq!(registry.len(), 3);
}

#[test]
fn registry_queries_by_state_tag_and_capability() {
    let mut registry = PluginRegistry::default_config();
    registry.register(running_plugin("r1", &["run"], &["x"])).unwrap();
    registry.register(create_test_plugin("c1")).unwrap();
    registry.register(running_plugin("r2", &[], &["x", "y"])).unwrap();
    let manifest = ManifestBuilder::new("caps", "1")
        .source("s.fsx")
        .capability("fs:read")
        .tag("y")
        .build_unchecked();
    registry.register(Plugin::new(3, manifest)).unwrap();

    let names = |plugins: Vec<&Plugin>| plugins.iter().map(|p| p.name()).collect::<Vec<_>>();
    assert_eq!(names(registry.running()), vec!["r1", "r2"]);
    assert_eq!(names(registry.by_state(LifecycleState::Created)), vec!["c1", "caps"]);
    assert!(registry.by_state(LifecycleState::Error).is_empty());
    assert_eq!(names(registry.find_by_tag("x")), vec!["r1", "r2"]);
    assert_eq!(names(registry.find_by_tag("y")), vec!["r2", "caps"]);
    assert!(registry.find_by_tag("z").is_empty());
    assert_eq!(names(registry.find_by_capability("fs:read")), vec!["caps"]);
    assert!(registry.find_by_capability("fs:write").is_empty());
    assert_eq!(names(registry.all()), vec!["r1", "c1", "r2", "caps"]);
    let infos = registry.info();
    assert_eq!(infos.len(), 4);
    assert_eq!(infos[2].name, "r2");
    assert_eq!(infos[2].state, LifecycleState::Running);
}

#[test]
fn registry_stats_count_each_state() {
    let mut registry = PluginRegistry::default_config();
    registry.register(running_plugin("r1", &[], &[])).unwrap();
    registry.register(running_plugin("r2", &[], &[])).unwrap();
    let mut stopped = running_plugin("s1", &[], &[]);
    stopped.stop().unwrap();
    registry.register(stopped).unwrap();
    let mut unloaded = create_test_plugin("u1");
    unloaded.unload().unwrap();
    registry.register(unloaded).unwrap();
    registry.register(create_test_plugin("c1")).unwrap();
    let stats = registry.stats();
    assert_eq!(stats.total, 5);
    assert_eq!(stats.running, 2);
    assert_eq!(stats.stopped, 1);
    assert_eq!(stats.error, 0);
    assert_eq!(stats.unloaded, 1);
}

#[test]
fn registry_bulk_operations_do_not_stop_at_a_failure() {
    let mut registry = PluginRegistry::default_config();
    let mut failing = Plugin::new(
        4,
        ManifestBuilder::new("failing", "1")
            .source("s.fsx")
            .export("init")
            .build_unchecked(),
    );
    failing
        .initialize(
            EngineConfig::default()
                .with_limits(fusabi_host::Limits::default().with_max_instructions(1)),
        )
        .unwrap();
    registry.register(failing).unwrap();
    registry.register(create_test_plugin("created")).unwrap();
    let mut ready = create_test_plugin("ready");
    ready.initialize(EngineConfig::default()).unwrap();
    registry.register(ready).unwrap();
    registry.register(running_plugin("running", &[], &[])).unwrap();

    let results = registry.start_all();
    assert_eq!(results.len(), 2);
    assert!(matches!(results[0], Err(Error::InitializationFailed(_))));
    assert!(results[1].is_ok());
    assert_eq!(registry.get("failing").unwrap().state(), LifecycleState::Initialized);
    assert_eq!(registry.get("created").unwrap().state(), LifecycleState::Created);
    assert_eq!(registry.get("ready").unwrap().state(), LifecycleState::Running);
    assert_eq!(registry.get("running").unwrap().state(), LifecycleState::Running);

    let results = registry.reload_all();
    assert_eq!(results.len(), 4);
    assert!(results.iter().all(|r| r.is_ok()));
    assert_eq!(registry.get("created").unwrap().state(), LifecycleState::Initialized);
    assert_eq!(registry.get("ready").unwrap().state(), LifecycleState::Running);
    assert_eq!(registry.get("ready").unwrap().info().reload_count, 1);

    let results = registry.stop_all();
    assert_eq!(results.len(), 2);
    assert!(results.iter().all(|r| r.is_ok()));
    assert_eq!(registry.get("ready").unwrap().state(), LifecycleState::Stopped);
    assert_eq!(registry.get("running").unwrap().state(), LifecycleState::Stopped);
    assert_eq!(registry.get("failing").unwrap().state(), LifecycleState::Initialized);

    let mut unloaded = create_test_plugin("gone");
    unloaded.unload().unwrap();
    registry.register(unloaded).unwrap();
    let results = registry.reload_all();
    assert_eq!(results.len(), 5);
    assert!(matches!(results[4], Err(Error::PluginUnloaded)));
    assert!(results[..4].iter().all(|r| r.is_ok()));
}

#[test]
fn registry_operations_by_name() {
    let mut registry = PluginRegistry::default_config();
    let mut ready = create_test_plugin("p");
    ready.initialize(EngineConfig::default()).unwrap();
    registry.register(ready).unwrap();
    assert!(matches!(registry.start("q"), Err(Error::PluginNotFound(_))));
    assert!(matches!(registry.stop("q"), Err(Error::PluginNotFound(_))));
    assert!(matches!(registry.reload("q"), Err(Error::PluginNotFound(_))));
    assert!(matches!(registry.call("q", "main", &[]), Err(Error::PluginNotFound(_))));
    assert!(matches!(registry.stop("p"), Err(Error::InvalidState { .. })));
    registry.start("p").unwrap();
    assert!(registry.call("p", "main", &[]).is_ok());
    assert!(matches!(
        registry.call("p", "other", &[]),
        Err(Error::FunctionNotFound(_))
    ));
    registry.reload("p").unwrap();
    assert_eq!(registry.get("p").unwrap().state(), LifecycleState::Running);
    assert_eq!(registry.get("p").unwrap().info().reload_count, 1);
    assert_eq!(registry.get("p").unwrap().info().invocation_count, 1);
    registry.stop("p").unwrap();
    assert_eq!(registry.get("p").unwrap().state(), LifecycleState::Stopped);
}

#[test]
fn registry_broadcast_reaches_running_plugins_that_publish_the_function() {
    let mut registry = PluginRegistry::default_config();
    registry.register(running_plugin("a", &["tick"], &[])).unwrap();
    registry.register(running_plugin("b", &["tock"], &[])).unwrap();
    let mut stopped = running_plugin("c", &["tick"], &[]);
    stopped.stop().unwrap();
    registry.register(stopped).unwrap();
    registry.register(running_plugin("d", &["tick", "tock"], &[])).unwrap();
    let results = registry.broadcast("tick", &[]);
    let names: Vec<&str> = results.iter().map(|(name, _)| name.as_str()).collect();
    assert_eq!(names, vec!["a", "d"]);
    assert!(results.iter().all(|(_, result)| result.is_ok()));
    assert_eq!(registry.get("a").unwrap().info().invocation_count, 1);
    assert_eq!(registry.get("b").unwrap().info().invocation_count, 0);
    assert_eq!(registry.get("c").unwrap().info().invocation_count, 0);
    assert!(registry.broadcast("main", &[]).is_empty());
}

#[test]
fn registry_cleanup_removes_unloaded_and_optionally_stopped() {
    let fill = |registry: &mut PluginRegistry| {
        registry.register(running_plugin("r", &[], &[])).unwrap();
        let mut unloaded = create_test_plugin("u");
        unloaded.unload().unwrap();
        registry.register(unloaded).unwrap();
        let mut stopped = running_plugin("s", &[], &[]);
        stopped.stop().unwrap();
        registry.register(stopped).unwrap();
        registry.register(create_test_plugin("c")).unwrap();
        let mut unloaded = create_test_plugin("u2");
        unloaded.unload().unwrap();
        registry.register(unloaded).unwrap();
    };
    let mut registry = PluginRegistry::default_config();
    fill(&mut registry);
    assert_eq!(registry.cleanup(), 2);
    assert_eq!(registry.names(), vec!["r", "s", "c"]);
    assert!(registry.contains("s"));
    assert!(!registry.contains("u"));
    assert_eq!(registry.get("c").unwrap().name(), "c");
    assert_eq!(registry.cleanup(), 0);

    let mut registry =
        PluginRegistry::new(RegistryConfig::new().with_auto_unload_stopped(true));
    fill(&mut registry);
    assert_eq!(registry.cleanup(), 3);
    assert_eq!(registry.names(), vec!["r", "c"]);
    assert!(!registry.contains("s"));
    assert_eq!(registry.get("r").unwrap().state(), LifecycleState::Running);
    registry.register(create_test_plugin("u")).unwrap();
    assert_eq!(registry.names(), vec!["r", "c", "u"]);
}

#[test]
fn registry_unload_all_empties_the_registry() {
    let mut registry = PluginRegistry::default_config();
    registry.register(running_plugin("a", &[], &[])).unwrap();
    registry.register(create_test_plugin("b")).unwrap();
    registry.unload_all();
    assert!(registry.is_empty());
    assert!(!registry.contains("a"));
    assert!(registry.names().is_empty());
    registry.register(create_test_plugin("a")).unwrap();
    assert_eq!(registry.len(), 1);
}

#[test]
fn registry_config_builder() {
    let config = RegistryConfig::new();
    assert_eq!(config.max_plugins, 100);
    assert!(!config.allow_overwrite);
    assert!(!config.auto_unload_stopped);
    let config = config
        .with_max_plugins(5)
        .with_allow_overwrite(true)
        .with_auto_unload_stopped(true);
    assert_eq!(config.max_plugins, 5);
    assert!(config.allow_overwrite);
    assert!(config.auto_unload_stopped);
    let registry = PluginRegistry::new(config);
    assert_eq!(*registry.config(), config);
}
