use fusabi_host::{Capabilities, Capability, EngineConfig, Value};
use fusabi_plugin_runtime::plugin::{call_expression, call_outcome, reload_outcome, start_outcome};
use fusabi_plugin_runtime::{Error, LifecycleState, Manifest, ManifestBuilder, Plugin};

fn create_test_manifest() -> Manifest {
    ManifestBuilder::new("test-plugin", "1.0.0")
        .source("test.fsx")
        .export("main")
        .export("init")
        .build_unchecked()
}

#[test]
fn test_plugin_creation() {
    let manifest = create_test_manifest();
    let plugin = Plugin::new(1, manifest);

    assert!(plugin.id() > 0);
    assert_eq!(plugin.name(), "test-plugin");
    assert_eq!(plugin.version(), "1.0.0");
    assert_eq!(plugin.state(), LifecycleState::Created);
}

#[test]
fn plugin_test_plugin_lifecycle() {
    let manifest = create_test_manifest();
    let mut plugin = Plugin::new(1, manifest);

    // Initialize
    plugin.initialize(EngineConfig::default()).unwrap();
    assert_eq!(plugin.state(), LifecycleState::Initialized);

    // Start
    plugin.start().unwrap();
    assert_eq!(plugin.state(), LifecycleState::Running);

    // Stop
    plugin.stop().unwrap();
    assert_eq!(plugin.state(), LifecycleState::Stopped);

    // Unload
    plugin.unload().unwrap();
    assert_eq!(plugin.state(), LifecycleState::Unloaded);
}

#[test]
fn test_plugin_invalid_state_transitions() {
    let manifest = create_test_manifest();
    let mut plugin = Plugin::new(1, manifest);

    // Can't start before initialize
    assert!(plugin.start().is_err());

    // Can't stop before start
    assert!(plugin.stop().is_err());

    // Initialize first
    plugin.initialize(EngineConfig::default()).unwrap();

    // Can't stop before start
    assert!(plugin.stop().is_err());
}

#[test]
fn test_plugin_capabilities() {
    let manifest = ManifestBuilder::new("test", "1.0.0")
        .source("test.fsx")
        .capability("fs:read")
        .build_unchecked();

    let mut plugin = Plugin::new(1, manifest);

    // Missing capability should fail
    let config = EngineConfig::default().with_capabilities(Capabilities::none());

    assert!(plugin.initialize(config).is_err());

    // With capability should succeed
    let config = EngineConfig::default()
        .with_capabilities(Capabilities::none().with(Capability::FsRead));

    assert!(plugin.initialize(config).is_ok());
}

#[test]
fn plugin_scenario_full_lifecycle_with_call() {
    let manifest = ManifestBuilder::new("p", "1.0.0")
        .source("p.fsx")
        .build_unchecked();
    let mut plugin = Plugin::new(7, manifest);
    assert_eq!(plugin.state(), LifecycleState::Created);
    plugin.initialize(EngineConfig::default()).unwrap();
    assert_eq!(plugin.state(), LifecycleState::Initialized);
    plugin.start().unwrap();
    assert_eq!(plugin.state(), LifecycleState::Running);
    assert!(plugin.call("main", &[]).is_ok());
    assert_eq!(plugin.info().invocation_count, 1);
    plugin.stop().unwrap();
    assert_eq!(plugin.state(), LifecycleState::Stopped);
    match plugin.call("main", &[]) {
        Err(Error::InvalidState { expected, actual }) => {
            assert_eq!(expected, "Running");
            assert_eq!(actual, "Stopped");
        }
        _ => panic!("a stopped plugin rejects calls"),
    }
    assert_eq!(plugin.info().invocation_count, 1);
    plugin.unload().unwrap();
    assert_eq!(plugin.state(), LifecycleState::Unloaded);
    assert!(matches!(plugin.call("main", &[]), Err(Error::PluginUnloaded)));
    assert_eq!(plugin.info().invocation_count, 1);
}

#[test]
fn plugin_scenario_missing_capability() {
    let manifest = ManifestBuilder::new("p", "1.0.0")
        .source("p.fsx")
        .capability("fs:read")
        .build_unchecked();
    let mut plugin = Plugin::new(1, manifest);
    let none = EngineConfig::default().with_capabilities(Capabilities::none());
    match plugin.initialize(none) {
        Err(Error::MissingCapability(cap)) => assert_eq!(cap, "fs:read"),
        _ => panic!("a capability that is not granted is missing"),
    }
    assert_eq!(plugin.state(), LifecycleState::Created);
    let granted = EngineConfig::default()
        .with_capabilities(Capabilities::none().with(Capability::FsRead));
    assert!(plugin.initialize(granted).is_ok());
    assert_eq!(plugin.state(), LifecycleState::Initialized);
}

#[test]
fn plugin_initialize_reports_the_first_refused_capability() {
    let manifest = ManifestBuilder::new("p", "1.0.0")
        .source("p.fsx")
        .capability("time:read")
        .capability("net:listen")
        .capability("bogus")
        .build_unchecked();
    let mut plugin = Plugin::new(1, manifest);
    match plugin.initialize(EngineConfig::default()) {
        Err(Error::MissingCapability(cap)) => assert_eq!(cap, "net:listen"),
        _ => panic!("the first capability that is not granted is reported"),
    }
    let manifest = ManifestBuilder::new("p", "1.0.0")
        .source("p.fsx")
        .capability("time:read")
        .capability("bogus")
        .capability("net:listen")
        .build_unchecked();
    let mut plugin = Plugin::new(1, manifest);
    match plugin.initialize(EngineConfig::default()) {
        Err(Error::InvalidManifest(m)) => assert_eq!(m, "unknown capability: bogus"),
        _ => panic!("an unknown capability is reported where it comes first"),
    }
    assert_eq!(plugin.state(), LifecycleState::Created);
}

#[test]
fn plugin_initialize_rejects_wrong_states() {
    let mut plugin = Plugin::new(1, create_test_manifest());
    plugin.initialize(EngineConfig::default()).unwrap();
    match plugin.initialize(EngineConfig::default()) {
        Err(Error::InvalidState { expected, actual }) => {
            assert_eq!(expected, "Created or Stopped");
            assert_eq!(actual, "Initialized");
        }
        _ => panic!("an initialized plugin cannot be initialized"),
    }
    plugin.start().unwrap();
    assert!(plugin.initialize(EngineConfig::default()).is_err());
    plugin.stop().unwrap();
    plugin.initialize(EngineConfig::default()).unwrap();
    assert_eq!(plugin.state(), LifecycleState::Initialized);
    plugin.unload().unwrap();
    assert!(matches!(plugin.initialize(EngineConfig::default()), Err(Error::PluginUnloaded)));
    assert_eq!(plugin.state(), LifecycleState::Unloaded);
}

#[test]
fn plugin_start_and_stop_report_the_state() {
    let mut plugin = Plugin::new(1, create_test_manifest());
    match plugin.start() {
        Err(Error::InvalidState { expected, actual }) => {
            assert_eq!(expected, "Initialized");
            assert_eq!(actual, "Created");
        }
        _ => panic!("a created plugin cannot be started"),
    }
    match plugin.stop() {
        Err(Error::InvalidState { expected, actual }) => {
            assert_eq!(expected, "Running");
            assert_eq!(actual, "Created");
        }
        _ => panic!("a created plugin cannot be stopped"),
    }
    assert_eq!(plugin.state(), LifecycleState::Created);
}

#[test]
fn plugin_call_checks_exports_and_counts_attempts() {
    let manifest = ManifestBuilder::new("p", "1")
        .source("p.fsx")
        .export("run")
        .build_unchecked();
    let mut plugin = Plugin::new(1, manifest);
    plugin.initialize(EngineConfig::default()).unwrap();
    plugin.start().unwrap();
    match plugin.call("hidden", &[]) {
        Err(Error::FunctionNotFound(name)) => assert_eq!(name, "hidden"),
        _ => panic!("a function that is not published cannot be called"),
    }
    assert_eq!(plugin.info().invocation_count, 0);
    assert!(plugin.call("run", &[Value::Int(1), Value::String("a".into())]).is_ok());
    assert!(plugin.call("main", &[]).is_ok());
    assert_eq!(plugin.info().invocation_count, 2);
    assert!(plugin.has_export("run"));
    assert!(!plugin.has_export("main"));
    assert_eq!(plugin.exports(), vec!["run"]);
}

#[test]
fn plugin_call_counts_an_attempt_that_fails() {
    let manifest = ManifestBuilder::new("p", "1")
        .source("p.fsx")
        .build_unchecked();
    let mut plugin = Plugin::new(1, manifest);
    let limits = fusabi_host::Limits::default().with_max_instructions(1);
    plugin
        .initialize(EngineConfig::default().with_limits(limits))
        .unwrap();
    plugin.start().unwrap();
    match plugin.call("main", &[]) {
        Err(Error::ExecutionFailed(_)) => {}
        other => panic!("the engine exceeds its limit: {:?}", other.map(|_| ())),
    }
    assert_eq!(plugin.info().invocation_count, 1);
    assert_eq!(plugin.state(), LifecycleState::Running);
}

#[test]
fn plugin_start_failure_leaves_the_plugin_initialized() {
    let manifest = ManifestBuilder::new("p", "1")
        .source("p.fsx")
        .export("init")
        .build_unchecked();
    let mut plugin = Plugin::new(1, manifest);
    let limits = fusabi_host::Limits::default().with_max_instructions(1);
    plugin
        .initialize(EngineConfig::default().with_limits(limits))
        .unwrap();
    match plugin.start() {
        Err(Error::InitializationFailed(_)) => {}
        other => panic!("init exceeds the limit: {:?}", other),
    }
    assert_eq!(plugin.state(), LifecycleState::Initialized);
}

#[test]
fn plugin_reload_from_every_state() {
    let mut plugin = Plugin::new(1, create_test_manifest());
    plugin.reload().unwrap();
    assert_eq!(plugin.state(), LifecycleState::Initialized);
    assert_eq!(plugin.info().reload_count, 1);
    assert!(plugin.info().last_reload.is_some());

    let mut plugin = Plugin::new(1, create_test_manifest());
    plugin.initialize(EngineConfig::default()).unwrap();
    plugin.reload().unwrap();
    assert_eq!(plugin.state(), LifecycleState::Initialized);
    plugin.start().unwrap();
    plugin.reload().unwrap();
    assert_eq!(plugin.state(), LifecycleState::Running);
    assert_eq!(plugin.info().reload_count, 2);
    plugin.stop().unwrap();
    plugin.reload().unwrap();
    assert_eq!(plugin.state(), LifecycleState::Initialized);
    assert_eq!(plugin.info().reload_count, 3);
    plugin.unload().unwrap();
    match plugin.reload() {
        Err(Error::PluginUnloaded) => {}
        _ => panic!("an unloaded plugin cannot be reloaded"),
    }
    assert_eq!(plugin.state(), LifecycleState::Unloaded);
    assert_eq!(plugin.info().reload_count, 3);
}

#[test]
fn plugin_passes_over_a_failing_cleanup() {
    let manifest = ManifestBuilder::new("p", "1")
        .source("p.fsx")
        .export("init")
        .export("cleanup")
        .build_unchecked();
    let mut plugin = Plugin::new(1, manifest);
    // `init()` costs 60 instructions and `cleanup()` 90.
    let limits = fusabi_host::Limits::default().with_max_instructions(60);
    plugin
        .initialize(EngineConfig::default().with_limits(limits))
        .unwrap();
    plugin.start().unwrap();
    plugin.reload().unwrap();
    assert_eq!(plugin.state(), LifecycleState::Running);
    assert_eq!(plugin.info().reload_count, 1);
    plugin.stop().unwrap();
    assert_eq!(plugin.state(), LifecycleState::Stopped);
    plugin.reload().unwrap();
    assert_eq!(plugin.state(), LifecycleState::Initialized);
    plugin.start().unwrap();
    plugin.unload().unwrap();
    assert_eq!(plugin.state(), LifecycleState::Unloaded);
}

#[test]
fn plugin_unload_drops_engine_and_bytecode() {
    let mut plugin = Plugin::new(1, create_test_manifest());
    plugin.set_bytecode(vec![1, 2, 3]);
    assert_eq!(plugin.bytecode(), Some(vec![1, 2, 3]));
    plugin.unload().unwrap();
    assert_eq!(plugin.state(), LifecycleState::Unloaded);
    assert_eq!(plugin.bytecode(), None);
    plugin.unload().unwrap();
    assert_eq!(plugin.state(), LifecycleState::Unloaded);
}

#[test]
fn plugin_getters() {
    let manifest = ManifestBuilder::new("p", "1.2")
        .source("p.fsx")
        .capability("fs:read")
        .tag("tools")
        .build_unchecked();
    let plugin = Plugin::new(42, manifest);
    assert_eq!(plugin.id(), 42);
    assert_eq!(plugin.manifest().name, "p");
    assert!(plugin.requires_capability("fs:read"));
    assert!(!plugin.requires_capability("fs:write"));
    assert!(plugin.has_tag("tools"));
    assert!(!plugin.has_tag("tool"));
    let info = plugin.info();
    assert_eq!(info.id, 42);
    assert_eq!(info.name, "p");
    assert_eq!(info.version, "1.2");
    assert_eq!(info.manifest_path, None);
    assert_eq!(info.entry_path, None);
    assert!(info.last_reload.is_none());
    assert_eq!(info.reload_count, 0);
    assert_eq!(info.invocation_count, 0);
    assert_eq!(info.state, LifecycleState::Created);
}

#[test]
fn call_expression_formula() {
    assert_eq!(call_expression("main", &Vec::new()), "main()");
    assert_eq!(call_expression("f", &vec!["1".to_string()]), "f(1)");
    assert_eq!(
        call_expression("f", &vec!["1".to_string(), "\"a\"".to_string(), "null".to_string()]),
        "f(1, \"a\", null)"
    );
}

#[test]
fn outcomes_of_the_engine_become_errors_of_the_library() {
    assert_eq!(call_outcome(Ok(Value::Int(3))).unwrap(), Value::Int(3));
    match call_outcome(Err("boom".to_string())) {
        Err(Error::ExecutionFailed(m)) => assert_eq!(m, "boom"),
        _ => panic!("a failed call is an execution failure"),
    }
    assert!(start_outcome(Ok(())).is_ok());
    match start_outcome(Err("boom".to_string())) {
        Err(Error::InitializationFailed(m)) => assert_eq!(m, "boom"),
        _ => panic!("a failed start is an initialization failure"),
    }
    assert!(reload_outcome(Ok(())).is_ok());
    match reload_outcome(Err("boom".to_string())) {
        Err(Error::ReloadFailed(m)) => assert_eq!(m, "boom"),
        _ => panic!("a failed restart is a reload failure"),
    }
}

#[test]
fn plugin_unloaded_rejects_every_operation_as_unloaded() {
    let mut plugin = Plugin::new(1, create_test_manifest());
    plugin.initialize(EngineConfig::default()).unwrap();
    plugin.start().unwrap();
    plugin.unload().unwrap();
    assert!(matches!(plugin.initialize(EngineConfig::default()), Err(Error::PluginUnloaded)));
    assert!(matches!(plugin.start(), Err(Error::PluginUnloaded)));
    assert!(matches!(plugin.stop(), Err(Error::PluginUnloaded)));
    assert!(matches!(plugin.call("main", &[]), Err(Error::PluginUnloaded)));
    assert!(matches!(plugin.reload(), Err(Error::PluginUnloaded)));
    assert!(plugin.unload().is_ok());
    assert_eq!(plugin.state(), LifecycleState::Unloaded);
    assert_eq!(plugin.info().invocation_count, 0);
    assert_eq!(plugin.info().reload_count, 0);
}

#[test]
fn plugin_set_state_marks_a_plugin() {
    let mut plugin = Plugin::new(7, create_test_manifest());
    plugin.initialize(EngineConfig::default()).unwrap();
    plugin.start().unwrap();
    plugin.call("main", &[]).unwrap();
    plugin.set_state(LifecycleState::Error);
    assert_eq!(plugin.state(), LifecycleState::Error);
    assert_eq!(plugin.info().state, LifecycleState::Error);
    assert_eq!(plugin.info().invocation_count, 1);
    assert_eq!(plugin.id(), 7);
    match plugin.call("main", &[]) {
        Err(Error::InvalidState { expected, actual }) => {
            assert_eq!(expected, "Running");
            assert_eq!(actual, "Error");
        }
        _ => panic!("a failed plugin rejects calls"),
    }
    // A reload takes a failed plugin back to Initialized, without a restart.
    plugin.reload().unwrap();
    assert_eq!(plugin.state(), LifecycleState::Initialized);
    assert_eq!(plugin.info().reload_count, 1);
    plugin.set_state(LifecycleState::Error);
    plugin.unload().unwrap();
    assert_eq!(plugin.state(), LifecycleState::Unloaded);
}
