use std::sync::{Arc, Mutex};

use fusabi_plugin_runtime::{
    Error, PluginWatcher, RawEvent, RawEventKind, WatchConfig, WatchEvent,
};

const MS: u64 = 1_000_000;

#[test]
fn test_watch_config_builder() {
    let config = WatchConfig::new()
        .with_debounce(1_000_000_000)
        .with_recursive(false)
        .with_auto_reload(true);

    assert_eq!(config.debounce, 1_000_000_000);
    assert!(!config.recursive);
    assert!(config.auto_reload);
}

#[test]
fn watcher_test_watch_event_extension_match() {
    let event = WatchEvent::Modified {
        path: "test.fsx".to_string(),
    };

    assert!(event.matches_extension(&["fsx".to_string()]));
    assert!(!event.matches_extension(&["rs".to_string()]));
}

#[test]
fn watcher_test_watcher_creation() {
    let watcher = PluginWatcher::default_config().unwrap();
    assert!(!watcher.is_running());
}

#[test]
fn test_watch_path() {
    let mut watcher = PluginWatcher::default_config().unwrap();
    watcher.watch("/tmp/plugins").unwrap();

    let paths = watcher.watched_paths();
    assert!(paths.contains(&"/tmp/plugins".to_string()));
}

#[test]
fn test_unwatch_path() {
    let mut watcher = PluginWatcher::default_config().unwrap();
    watcher.watch("/tmp/plugins").unwrap();
    watcher.unwatch("/tmp/plugins", Ok(())).unwrap();

    let paths = watcher.watched_paths();
    assert!(!paths.contains(&"/tmp/plugins".to_string()));
}

fn collecting(watcher: &mut PluginWatcher) -> Arc<Mutex<Vec<String>>> {
    let seen = Arc::new(Mutex::new(Vec::new()));
    let sink = seen.clone();
    watcher.on_change(move |event| {
        let kind = match &event {
            WatchEvent::Created { .. } => "created",
            WatchEvent::Modified { .. } => "modified",
            WatchEvent::Removed { .. } => "removed",
            WatchEvent::Renamed { .. } => "renamed",
        };
        sink.lock().unwrap().push(format!("{} {}", kind, event.path()));
    });
    seen
}

#[test]
fn watcher_scenario_debounce() {
    let config = WatchConfig::new()
        .with_debounce(500 * MS)
        .with_extensions(vec!["fsx".to_string()]);
    let mut watcher = PluginWatcher::new(config).unwrap();
    let seen = collecting(&mut watcher);
    watcher.start(Ok(())).unwrap();
    let event = RawEvent::new(RawEventKind::Modify, vec!["a.fsx".to_string()]);
    assert!(watcher.handle_event(&event, 0));
    assert!(!watcher.handle_event(&event, 100 * MS));
    assert!(watcher.handle_event(&event, 600 * MS));
    assert!(!watcher.handle_event(&event, 650 * MS));
    assert_eq!(*seen.lock().unwrap(), vec!["modified a.fsx", "modified a.fsx"]);

    let other = RawEvent::new(RawEventKind::Modify, vec!["b.txt".to_string()]);
    assert!(!watcher.handle_event(&other, 0));
    assert!(!watcher.handle_event(&other, 5_000 * MS));
    assert_eq!(seen.lock().unwrap().len(), 2);
}

#[test]
fn watcher_debounce_is_per_path_and_counts_from_the_last_dispatch() {
    let config = WatchConfig::new().with_debounce(500 * MS);
    let mut watcher = PluginWatcher::new(config).unwrap();
    watcher.start(Ok(())).unwrap();
    let a = RawEvent::new(RawEventKind::Modify, vec!["a.fsx".to_string()]);
    let b = RawEvent::new(RawEventKind::Create, vec!["b.fsx".to_string()]);
    assert!(watcher.handle_event(&a, 1_000 * MS));
    assert!(watcher.handle_event(&b, 1_001 * MS));
    assert!(!watcher.handle_event(&a, 1_499 * MS));
    // A suppressed event does not restart the window.
    assert!(watcher.handle_event(&a, 1_500 * MS));
    assert!(!watcher.handle_event(&b, 1_500 * MS));
    assert!(watcher.handle_event(&b, 1_501 * MS));
    // A clock that went backwards counts as no time passed.
    assert!(!watcher.handle_event(&a, 0));
    // Another kind of event on the same path is debounced just the same.
    let removed = RawEvent::new(RawEventKind::Remove, vec!["a.fsx".to_string()]);
    assert!(!watcher.handle_event(&removed, 1_600 * MS));
    assert!(watcher.handle_event(&removed, 2_000 * MS));

    let mut eager = PluginWatcher::new(WatchConfig::new().with_debounce(0)).unwrap();
    eager.start(Ok(())).unwrap();
    assert!(eager.handle_event(&a, 5));
    assert!(eager.handle_event(&a, 5));
}

#[test]
fn watcher_filters_kinds_extensions_and_state() {
    let mut watcher = PluginWatcher::default_config().unwrap();
    let seen = collecting(&mut watcher);
    let created = RawEvent::new(
        RawEventKind::Create,
        vec!["dir/p.toml".to_string(), "ignored.fsx".to_string()],
    );
    // An idle watcher discards.
    assert!(!watcher.handle_event(&created, 0));
    watcher.start(Ok(())).unwrap();
    assert!(watcher.handle_event(&created, 0));
    assert!(watcher.handle_event(
        &RawEvent::new(RawEventKind::Remove, vec!["q.fzb".to_string()]),
        0
    ));
    assert!(!watcher.handle_event(
        &RawEvent::new(RawEventKind::Other, vec!["r.fsx".to_string()]),
        0
    ));
    assert!(!watcher.handle_event(&RawEvent::new(RawEventKind::Modify, Vec::new()), 0));
    for path in ["s.FSX", "s.fs", "s", ".fsx", "fsx", "s.fsx.bak", "s.fsx/"] {
        let listed = std::path::Path::new(path)
            .extension()
            .map(|e| e == "fsx" || e == "fzb" || e == "toml")
            .unwrap_or(false);
        let event = RawEvent::new(RawEventKind::Modify, vec![path.to_string()]);
        assert_eq!(watcher.handle_event(&event, 0), listed, "{:?}", path);
    }
    watcher.stop();
    assert!(!watcher.handle_event(
        &RawEvent::new(RawEventKind::Modify, vec!["t.fsx".to_string()]),
        10_000 * MS
    ));
    assert_eq!(
        *seen.lock().unwrap(),
        vec!["created dir/p.toml", "removed q.fzb", "modified s.fsx/"]
    );
}

#[test]
fn watcher_hands_each_event_to_every_handler_in_order() {
    let mut watcher = PluginWatcher::default_config().unwrap();
    let seen = Arc::new(Mutex::new(Vec::new()));
    for id in 1..=3 {
        let sink = seen.clone();
        watcher.on_change(move |event| {
            sink.lock().unwrap().push(format!("{}:{}", id, event.path()));
        });
    }
    watcher.start(Ok(())).unwrap();
    watcher.handle_event(&RawEvent::new(RawEventKind::Modify, vec!["a.fsx".to_string()]), 0);
    watcher.handle_event(&RawEvent::new(RawEventKind::Modify, vec!["b.fsx".to_string()]), 0);
    assert_eq!(
        *seen.lock().unwrap(),
        vec!["1:a.fsx", "2:a.fsx", "3:a.fsx", "1:b.fsx", "2:b.fsx", "3:b.fsx"]
    );
}

#[test]
fn watcher_start_stop_and_paths() {
    let mut watcher = PluginWatcher::default_config().unwrap();
    assert_eq!(watcher.config().debounce, 500 * MS);
    assert!(watcher.config().recursive);
    assert!(watcher.config().auto_reload);
    assert_eq!(watcher.config().extensions, vec!["fsx", "fzb", "toml"]);
    match watcher.start(Err("no backend".to_string())) {
        Err(Error::Watch(m)) => assert_eq!(m, "no backend"),
        _ => panic!("a failed binding is a watch error"),
    }
    assert!(!watcher.is_running());
    watcher.watch("/a").unwrap();
    watcher.watch("/b").unwrap();
    watcher.watch("/a").unwrap();
    assert_eq!(watcher.watched_paths(), vec!["/a", "/b"]);
    watcher.start(Ok(())).unwrap();
    assert!(watcher.is_running());
    // A running watcher stays as it is.
    watcher.start(Err("ignored".to_string())).unwrap();
    assert!(watcher.is_running());
    match watcher.unwatch("/a", Err("not watched".to_string())) {
        Err(Error::Watch(m)) => assert_eq!(m, "not watched"),
        _ => panic!("a failed release is a watch error"),
    }
    assert_eq!(watcher.watched_paths(), vec!["/b"]);
    watcher.unwatch("/c", Ok(())).unwrap();
    assert_eq!(watcher.watched_paths(), vec!["/b"]);
    watcher.stop();
    assert!(!watcher.is_running());
    watcher.unwatch("/b", Err("ignored".to_string())).unwrap();
    assert!(watcher.watched_paths().is_empty());
}

#[test]
fn watch_event_paths_and_classification() {
    let renamed = WatchEvent::Renamed {
        from: "old.txt".to_string(),
        to: "new.fsx".to_string(),
    };
    assert_eq!(renamed.path(), "new.fsx");
    assert!(renamed.matches_extension(&["fsx".to_string()]));
    assert!(!renamed.matches_extension(&["txt".to_string()]));
    assert!(!renamed.matches_extension(&[]));
    let copy = renamed.clone();
    assert_eq!(copy.path(), "new.fsx");
    let created = WatchEvent::Created { path: "a".to_string() };
    assert_eq!(created.path(), "a");
    assert!(!created.matches_extension(&["a".to_string(), "".to_string()]));
    let removed = WatchEvent::Removed { path: "dir.d/a.b.c".to_string() };
    assert!(removed.matches_extension(&["c".to_string()]));
    assert!(!removed.matches_extension(&["b.c".to_string(), "d".to_string()]));

    let raw = RawEvent::new(RawEventKind::Create, vec!["x.fsx".to_string(), "y".to_string()]);
    assert!(matches!(raw.classify(), Some(WatchEvent::Created { path }) if path == "x.fsx"));
    let raw = RawEvent::new(RawEventKind::Modify, vec!["x".to_string()]);
    assert!(matches!(raw.classify(), Some(WatchEvent::Modified { path }) if path == "x"));
    let raw = RawEvent::new(RawEventKind::Remove, vec!["x".to_string()]);
    assert!(matches!(raw.classify(), Some(WatchEvent::Removed { path }) if path == "x"));
    assert!(RawEvent::new(RawEventKind::Other, vec!["x".to_string()]).classify().is_none());
    assert!(RawEvent::new(RawEventKind::Create, Vec::new()).classify().is_none());
}
