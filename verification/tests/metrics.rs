use fusabi_plugin_runtime::MetricsConfig;

#[test]
fn test_metrics_config_builder() {
    let config = MetricsConfig::new()
        .with_prefix("test")
        .with_detailed_timing(false);

    assert_eq!(config.prefix, "test");
    assert!(!config.detailed_timing);
}

#[test]
fn metrics_config_defaults() {
    let config = MetricsConfig::default();
    assert_eq!(config.prefix, "fusabi_plugin");
    assert!(config.detailed_timing);
    let copy = config.clone();
    assert_eq!(copy.prefix, "fusabi_plugin");
    assert!(copy.detailed_timing);
}
