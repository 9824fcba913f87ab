use fusabi_plugin_runtime::manifest::Metadata;
use fusabi_plugin_runtime::text::{join, u32_to_string};
use fusabi_plugin_runtime::{ApiVersion, Dependency, Error, Manifest, ManifestBuilder};

#[test]
fn test_api_version_parse() {
    let v = ApiVersion::parse("0.18.5").unwrap();
    assert_eq!(v.major, 0);
    assert_eq!(v.minor, 18);
    assert_eq!(v.patch, 5);

    let v = ApiVersion::parse("1.0").unwrap();
    assert_eq!(v.major, 1);
    assert_eq!(v.minor, 0);
    assert_eq!(v.patch, 0);
}

#[test]
fn manifest_test_api_version_compatibility() {
    let v1 = ApiVersion::new(0, 18, 0);
    let v2 = ApiVersion::new(0, 18, 5);
    let v3 = ApiVersion::new(0, 19, 0);
    let v4 = ApiVersion::new(1, 0, 0);

    // Same version compatible
    assert!(v1.is_compatible_with(&v1));

    // Higher patch compatible
    assert!(v2.is_compatible_with(&v1));

    // Higher minor compatible
    assert!(v3.is_compatible_with(&v1));

    // Lower minor not compatible
    assert!(!v1.is_compatible_with(&v3));

    // Different major not compatible
    assert!(!v4.is_compatible_with(&v1));
}

#[test]
fn test_manifest_builder() {
    let manifest = ManifestBuilder::new("test-plugin", "1.0.0")
        .description("A test plugin")
        .author("Test Author")
        .license("MIT")
        .capability("fs:read")
        .capability("net:request")
        .source("plugin.fsx")
        .export("main")
        .tag("test")
        .build()
        .unwrap();

    assert_eq!(manifest.name, "test-plugin");
    assert_eq!(manifest.version, "1.0.0");
    assert_eq!(manifest.capabilities.len(), 2);
    assert!(manifest.requires_capability("fs:read"));
}

#[test]
fn manifest_test_manifest_validation() {
    // Missing name
    let manifest = Manifest {
        name: String::new(),
        version: "1.0.0".into(),
        ..Manifest::new("", "1.0.0")
    };
    assert!(manifest.validate().is_err());

    // Missing entry point
    let manifest = Manifest::new("test", "1.0.0");
    assert!(manifest.validate().is_err());

    // Invalid capability
    let mut manifest = Manifest::new("test", "1.0.0");
    manifest.source = Some("test.fsx".into());
    manifest.capabilities.push("invalid:cap".into());
    assert!(manifest.validate().is_err());
}

#[test]
fn api_version_parse_edge_cases() {
    assert_eq!(ApiVersion::parse("1.2.3.4").unwrap(), ApiVersion::new(1, 2, 3));
    assert_eq!(ApiVersion::parse("1.2.x").unwrap(), ApiVersion::new(1, 2, 0));
    assert_eq!(ApiVersion::parse("1.2.").unwrap(), ApiVersion::new(1, 2, 0));
    assert_eq!(ApiVersion::parse("+1.+2.+3").unwrap(), ApiVersion::new(1, 2, 3));
    assert_eq!(ApiVersion::parse("01.002").unwrap(), ApiVersion::new(1, 2, 0));
    assert_eq!(
        ApiVersion::parse("4294967295.0.4294967296").unwrap(),
        ApiVersion::new(4294967295, 0, 0)
    );
    match ApiVersion::parse("1") {
        Err(Error::InvalidManifest(m)) => assert_eq!(m, "invalid version: 1"),
        _ => panic!("a version needs a minor number"),
    }
    match ApiVersion::parse("") {
        Err(Error::InvalidManifest(m)) => assert_eq!(m, "invalid version: "),
        _ => panic!("an empty text is no version"),
    }
    match ApiVersion::parse("a.1") {
        Err(Error::InvalidManifest(m)) => assert_eq!(m, "invalid major version: a.1"),
        _ => panic!("the major number must be a number"),
    }
    match ApiVersion::parse("4294967296.1") {
        Err(Error::InvalidManifest(m)) => assert_eq!(m, "invalid major version: 4294967296.1"),
        _ => panic!("the major number must fit"),
    }
    match ApiVersion::parse("1.b") {
        Err(Error::InvalidManifest(m)) => assert_eq!(m, "invalid minor version: 1.b"),
        _ => panic!("the minor number must be a number"),
    }
    match ApiVersion::parse("1..2") {
        Err(Error::InvalidManifest(m)) => assert_eq!(m, "invalid minor version: 1..2"),
        _ => panic!("the minor number must not be empty"),
    }
    match ApiVersion::parse("-1.2") {
        Err(Error::InvalidManifest(m)) => assert_eq!(m, "invalid major version: -1.2"),
        _ => panic!("a version number has no minus sign"),
    }
    match ApiVersion::parse("+.2") {
        Err(Error::InvalidManifest(m)) => assert_eq!(m, "invalid major version: +.2"),
        _ => panic!("a sign alone is no number"),
    }
}

#[test]
fn api_version_parse_agrees_with_std() {
    for text in ["0", "7", "+7", "007", "", "+", "-", "-7", "4294967295", "4294967296", "1 ", " 1", "1_0", "٣"] {
        let dotted = format!("{}.0", text);
        let expected = text.parse::<u32>().ok();
        let parsed = ApiVersion::parse(&dotted).ok().map(|v| v.major);
        assert_eq!(parsed, expected, "major number {:?}", text);
    }
}

#[test]
fn api_version_text() {
    assert_eq!(ApiVersion::new(0, 18, 0).to_string(), "0.18.0");
    assert_eq!(ApiVersion::new(10, 200, 3005).to_string(), "10.200.3005");
    assert_eq!(
        ApiVersion::new(u32::MAX, 0, 9).to_string(),
        "4294967295.0.9"
    );
    assert_eq!(ApiVersion::default(), ApiVersion::new(0, 18, 0));
    let version = ApiVersion::new(3, 14, 15);
    assert_eq!(ApiVersion::parse(&version.to_string()).unwrap(), version);
}

#[test]
fn api_version_compatibility_is_major_equal_and_minor_not_below() {
    for host_major in 0..3u32 {
        for host_minor in 0..4u32 {
            for plugin_major in 0..3u32 {
                for plugin_minor in 0..4u32 {
                    let host = ApiVersion::new(host_major, host_minor, 7);
                    let plugin = ApiVersion::new(plugin_major, plugin_minor, 1);
                    assert_eq!(
                        host.is_compatible_with(&plugin),
                        host_major == plugin_major && host_minor >= plugin_minor
                    );
                }
            }
        }
    }
}

#[test]
fn decimal_texts() {
    assert_eq!(u32_to_string(0), "0");
    assert_eq!(u32_to_string(9), "9");
    assert_eq!(u32_to_string(10), "10");
    assert_eq!(u32_to_string(1234567890), "1234567890");
    assert_eq!(
        join(&vec!["a".to_string(), "b".to_string(), "c".to_string()], ", "),
        "a, b, c"
    );
    assert_eq!(join(&vec!["a".to_string()], ", "), "a");
    assert_eq!(join(&Vec::new(), ", "), "");
}

#[test]
fn manifest_scenario_validate_then_bogus_capability() {
    let mut manifest = ManifestBuilder::new("p", "1.0.0")
        .api_version(ApiVersion::new(0, 18, 0))
        .source("p.fsx")
        .build_unchecked();
    assert!(manifest.validate().is_ok());

    manifest.capabilities = vec!["bogus:cap".to_string()];
    match manifest.validate() {
        Err(Error::InvalidManifest(m)) => assert_eq!(m, "unknown capability: bogus:cap"),
        _ => panic!("an unknown capability makes the manifest invalid"),
    }
}

#[test]
fn manifest_validation_reports_the_first_violation() {
    let manifest = Manifest::new("", "");
    match manifest.validate() {
        Err(Error::MissingManifestField(f)) => assert_eq!(f, "name"),
        _ => panic!("the name is checked first"),
    }
    let manifest = Manifest::new("p", "");
    match manifest.validate() {
        Err(Error::MissingManifestField(f)) => assert_eq!(f, "version"),
        _ => panic!("the version is checked second"),
    }
    let manifest = ManifestBuilder::new("p", "1")
        .capability("bogus")
        .build_unchecked();
    match manifest.validate() {
        Err(Error::InvalidManifest(m)) => {
            assert_eq!(m, "manifest must specify either 'source' or 'bytecode'")
        }
        _ => panic!("the entry point is checked third"),
    }
    let manifest = ManifestBuilder::new("p", "1")
        .bytecode("p.fzb")
        .capability("fs:read")
        .capability("second:bad")
        .capability("third:bad")
        .build_unchecked();
    match manifest.validate() {
        Err(Error::InvalidManifest(m)) => assert_eq!(m, "unknown capability: second:bad"),
        _ => panic!("the first unknown capability is reported"),
    }
    match ManifestBuilder::new("p", "1").build() {
        Err(Error::InvalidManifest(_)) => {}
        _ => panic!("the builder validates"),
    }
}

#[test]
fn manifest_knows_every_capability_of_the_host() {
    let names = [
        "fs:read",
        "fs:write",
        "fs:execute",
        "net:request",
        "net:listen",
        "process:exec",
        "env:read",
        "env:write",
        "time:read",
        "random",
        "stdin:read",
        "stdout:write",
        "stderr:write",
        "metrics",
        "logging",
        "async:spawn",
        "crypto",
        "serialize",
    ];
    assert_eq!(names.len(), fusabi_host::Capability::all().len());
    let manifest = ManifestBuilder::new("p", "1")
        .source("p.fsx")
        .capabilities(names.iter().map(|n| n.to_string()).collect())
        .build()
        .unwrap();
    assert_eq!(manifest.capabilities.len(), 18);
    for cap in fusabi_host::Capability::all() {
        assert!(manifest.requires_capability(cap.name()));
    }
    for bad in ["", "fs", "fs:", "FS:READ", "fs:read ", "capability"] {
        let manifest = ManifestBuilder::new("p", "1")
            .source("p.fsx")
            .capability(bad)
            .build_unchecked();
        assert!(manifest.validate().is_err(), "{:?} is no capability", bad);
    }
}

#[test]
fn manifest_entry_point_prefers_source() {
    let manifest = ManifestBuilder::new("p", "1")
        .source("p.fsx")
        .bytecode("p.fzb")
        .build()
        .unwrap();
    assert_eq!(manifest.entry_point(), Some("p.fsx"));
    assert!(manifest.uses_source());

    let manifest = ManifestBuilder::new("p", "1")
        .bytecode("p.fzb")
        .build()
        .unwrap();
    assert_eq!(manifest.entry_point(), Some("p.fzb"));
    assert!(!manifest.uses_source());

    let manifest = Manifest::new("p", "1");
    assert_eq!(manifest.entry_point(), None);
    assert!(!manifest.uses_source());
}

#[test]
fn manifest_builder_sets_every_field() {
    let manifest = ManifestBuilder::new("p", "2.0")
        .description("d")
        .author("a1")
        .author("a2")
        .license("MIT")
        .api_version(ApiVersion::new(0, 21, 0))
        .capability("fs:read")
        .capabilities(vec!["time:read".to_string(), "random".to_string()])
        .dependency(Dependency::required("core", ">=1"))
        .dependency(Dependency::optional("extra", "*"))
        .source("s.fsx")
        .bytecode("s.fzb")
        .export("init")
        .exports(vec!["run".to_string(), "cleanup".to_string()])
        .tag("t")
        .metadata("k", "v1")
        .metadata("k2", "w")
        .metadata("k", "v2")
        .build()
        .unwrap();
    assert_eq!(manifest.name, "p");
    assert_eq!(manifest.version, "2.0");
    assert_eq!(manifest.description.as_deref(), Some("d"));
    assert_eq!(manifest.authors, vec!["a1", "a2"]);
    assert_eq!(manifest.license.as_deref(), Some("MIT"));
    assert_eq!(manifest.api_version, ApiVersion::new(0, 21, 0));
    assert_eq!(manifest.capabilities, vec!["fs:read", "time:read", "random"]);
    assert_eq!(manifest.dependencies.len(), 2);
    assert_eq!(manifest.dependencies[0].name, "core");
    assert_eq!(manifest.dependencies[0].version, ">=1");
    assert!(!manifest.dependencies[0].optional);
    assert!(manifest.dependencies[1].optional);
    assert_eq!(manifest.source.as_deref(), Some("s.fsx"));
    assert_eq!(manifest.bytecode.as_deref(), Some("s.fzb"));
    assert_eq!(manifest.exports, vec!["init", "run", "cleanup"]);
    assert_eq!(manifest.tags, vec!["t"]);
    assert_eq!(manifest.metadata.get("k"), Some("v2"));
    assert_eq!(manifest.metadata.get("k2"), Some("w"));
    assert_eq!(manifest.metadata.get("k3"), None);
    assert!(manifest.is_compatible_with_host(&ApiVersion::new(0, 21, 5)));
    assert!(!manifest.is_compatible_with_host(&ApiVersion::new(0, 20, 9)));

    let copy = manifest.clone();
    assert_eq!(copy.name, manifest.name);
    assert_eq!(copy.exports, manifest.exports);
    assert_eq!(copy.dependencies[1].name, "extra");
    assert_eq!(copy.metadata.get("k"), Some("v2"));
    assert_eq!(copy.metadata.entries().len(), 3);

    let mut metadata = Metadata::new();
    assert_eq!(metadata.get("k"), None);
    metadata.insert("k".to_string(), "v".to_string());
    assert_eq!(metadata.get("k"), Some("v"));
}
