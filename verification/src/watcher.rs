//! File watcher core: classification of raw events, extension filter,
//! debounce and dispatch to handlers.
//!
//! Times are readings of a monotonic clock in nanoseconds; a duration is a
//! number of nanoseconds.

use vstd::prelude::*;
use vstd::hash_map::StringHashMap;
use crate::error::{Error, ErrorView};
use crate::paths::{extension_of, path_extension};
use crate::text::{contains_str, lemma_filter_push, str_eq, texts};

verus! {

/// Configuration of the watcher.
#[derive(Debug)]
pub struct WatchConfig {
    /// Debounce duration for file changes, in nanoseconds.
    pub debounce: u64,
    /// Whether to watch directories recursively.
    pub recursive: bool,
    /// File extensions to watch.
    pub extensions: Vec<String>,
    /// Whether subscribers should reload on change.
    pub auto_reload: bool,
}

/// Mathematical value of a [`WatchConfig`].
pub struct WatchConfigView {
    pub debounce: u64,
    pub recursive: bool,
    pub extensions: Seq<Seq<char>>,
    pub auto_reload: bool,
}

impl View for WatchConfig {
    type V = WatchConfigView;

    open spec fn view(&self) -> WatchConfigView {
        WatchConfigView {
            debounce: self.debounce,
            recursive: self.recursive,
            extensions: texts(self.extensions@),
            auto_reload: self.auto_reload,
        }
    }
}

/// The default debounce: half a second.
pub const DEFAULT_DEBOUNCE: u64 = 500_000_000;

impl WatchConfigView {
    /// The default configuration: half a second of debounce, recursive,
    /// plugin sources, bytecode and manifests watched, reloads wanted.
    pub open spec fn default_value() -> WatchConfigView {
        WatchConfigView {
            debounce: DEFAULT_DEBOUNCE,
            recursive: true,
            extensions: seq!["fsx"@, "fzb"@, "toml"@],
            auto_reload: true,
        }
    }
}

impl Default for WatchConfig {
    fn default() -> (config: WatchConfig)
        ensures
            config@ == WatchConfigView::default_value(),
    {
        let mut extensions: Vec<String> = Vec::new();
        extensions.push(String::from_str("fsx"));
        extensions.push(String::from_str("fzb"));
        extensions.push(String::from_str("toml"));
        assert(texts(extensions@) =~= seq!["fsx"@, "fzb"@, "toml"@]);
        WatchConfig { debounce: DEFAULT_DEBOUNCE, recursive: true, extensions, auto_reload: true }
    }
}

impl Clone for WatchConfig {
    fn clone(&self) -> (config: WatchConfig)
        ensures
            config@ == self@,
    {
        let extensions = self.extensions.clone();
        WatchConfig {
            debounce: self.debounce,
            recursive: self.recursive,
            extensions,
            auto_reload: self.auto_reload,
        }
    }
}

impl WatchConfig {
    /// The default configuration.
    pub fn new() -> (config: WatchConfig)
        ensures
            config@ == WatchConfigView::default_value(),
    {
        WatchConfig::default()
    }

    /// Sets the debounce duration, in nanoseconds.
    pub fn with_debounce(self, duration: u64) -> (config: WatchConfig)
        ensures
            config@ == (WatchConfigView { debounce: duration, ..self@ }),
    {
        let mut config = self;
        config.debounce = duration;
        config
    }

    /// Sets recursive watching.
    pub fn with_recursive(self, recursive: bool) -> (config: WatchConfig)
        ensures
            config@ == (WatchConfigView { recursive: recursive, ..self@ }),
    {
        let mut config = self;
        config.recursive = recursive;
        config
    }

    /// Sets the file extensions to watch.
    pub fn with_extensions(self, extensions: Vec<String>) -> (config: WatchConfig)
        ensures
            config@ == (WatchConfigView { extensions: texts(extensions@), ..self@ }),
    {
        let mut config = self;
        config.extensions = extensions;
        config
    }

    /// Sets the auto-reload hint.
    pub fn with_auto_reload(self, auto: bool) -> (config: WatchConfig)
        ensures
            config@ == (WatchConfigView { auto_reload: auto, ..self@ }),
    {
        let mut config = self;
        config.auto_reload = auto;
        config
    }
}

/// Event emitted when a watched file changes.
#[derive(Debug)]
pub enum WatchEvent {
    /// A file was created.
    Created {
        /// Path to the created file.
        path: String,
    },
    /// A file was modified.
    Modified {
        /// Path to the modified file.
        path: String,
    },
    /// A file was removed.
    Removed {
        /// Path to the removed file.
        path: String,
    },
    /// A file was renamed.
    Renamed {
        /// Old path.
        from: String,
        /// New path.
        to: String,
    },
}

/// Mathematical value of a [`WatchEvent`].
pub enum WatchEventView {
    Created { path: Seq<char> },
    Modified { path: Seq<char> },
    Removed { path: Seq<char> },
    Renamed { from: Seq<char>, to: Seq<char> },
}

impl WatchEventView {
    /// The primary path of the event; of a rename, the new path.
    pub open spec fn path(self) -> Seq<char> {
        match self {
            WatchEventView::Created { path } => path,
            WatchEventView::Modified { path } => path,
            WatchEventView::Removed { path } => path,
            WatchEventView::Renamed { from, to } => to,
        }
    }

    /// Whether the extension of the primary path is one of `extensions`.
    pub open spec fn matches_extension(self, extensions: Seq<Seq<char>>) -> bool {
        extension_listed(path_extension(self.path()), extensions)
    }
}

/// Whether an extension is present and is one of `extensions`, compared
/// character by character.
pub open spec fn extension_listed(ext: Option<Seq<char>>, extensions: Seq<Seq<char>>) -> bool {
    match ext {
        Some(e) => extensions.contains(e),
        None => false,
    }
}

/// Whether `ext` is present and listed in `extensions`.
pub fn is_listed_extension(ext: Option<&str>, extensions: &[String]) -> (listed: bool)
    ensures
        listed == extension_listed(
            match ext {
                Some(e) => Some(e@),
                None => None,
            },
            texts(extensions@),
        ),
{
    match ext {
        Some(e) => contains_str(extensions, e),
        None => false,
    }
}

impl View for WatchEvent {
    type V = WatchEventView;

    open spec fn view(&self) -> WatchEventView {
        match *self {
            WatchEvent::Created { path } => WatchEventView::Created { path: path@ },
            WatchEvent::Modified { path } => WatchEventView::Modified { path: path@ },
            WatchEvent::Removed { path } => WatchEventView::Removed { path: path@ },
            WatchEvent::Renamed { from, to } => WatchEventView::Renamed { from: from@, to: to@ },
        }
    }
}

impl Clone for WatchEvent {
    fn clone(&self) -> (event: WatchEvent)
        ensures
            event@ == self@,
    {
        match self {
            WatchEvent::Created { path } => WatchEvent::Created { path: path.clone() },
            WatchEvent::Modified { path } => WatchEvent::Modified { path: path.clone() },
            WatchEvent::Removed { path } => WatchEvent::Removed { path: path.clone() },
            WatchEvent::Renamed { from, to } => WatchEvent::Renamed {
                from: from.clone(),
                to: to.clone(),
            },
        }
    }
}

impl WatchEvent {
    /// The primary path of this event.
    pub fn path(&self) -> (p: &str)
        ensures
            p@ == self@.path(),
    {
        match self {
            WatchEvent::Created { path } => path.as_str(),
            WatchEvent::Modified { path } => path.as_str(),
            WatchEvent::Removed { path } => path.as_str(),
            WatchEvent::Renamed { to, .. } => to.as_str(),
        }
    }

    /// Whether this event affects a file with one of the given extensions.
    pub fn matches_extension(&self, extensions: &[String]) -> (matches: bool)
        ensures
            matches == self@.matches_extension(texts(extensions@)),
    {
        let ext = extension_of(self.path());
        match &ext {
            Some(e) => is_listed_extension(Some(e.as_str()), extensions),
            None => is_listed_extension(None, extensions),
        }
    }
}

/// Kind of a raw filesystem event.
#[derive(Debug, Clone, Copy, PartialEq, Eq, Structural)]
pub enum RawEventKind {
    /// Something was created.
    Create,
    /// Something was modified.
    Modify,
    /// Something was removed.
    Remove,
    /// Anything else.
    Other,
}

/// A raw filesystem event, as the watch backend reports it.
#[derive(Debug)]
pub struct RawEvent {
    /// What happened.
    pub kind: RawEventKind,
    /// The paths concerned.
    pub paths: Vec<String>,
}

/// Mathematical value of a [`RawEvent`].
pub struct RawEventView {
    pub kind: RawEventKind,
    pub paths: Seq<Seq<char>>,
}

impl View for RawEvent {
    type V = RawEventView;

    open spec fn view(&self) -> RawEventView {
        RawEventView { kind: self.kind, paths: texts(self.paths@) }
    }
}

impl RawEventView {
    /// The watch event that a raw event stands for: its kind on its first
    /// path. Other kinds, and events without a path, stand for none.
    pub open spec fn classify(self) -> Option<WatchEventView> {
        if self.paths.len() == 0 {
            None
        } else {
            match self.kind {
                RawEventKind::Create => Some(WatchEventView::Created { path: self.paths[0] }),
                RawEventKind::Modify => Some(WatchEventView::Modified { path: self.paths[0] }),
                RawEventKind::Remove => Some(WatchEventView::Removed { path: self.paths[0] }),
                RawEventKind::Other => None,
            }
        }
    }
}

impl RawEvent {
    /// A raw event of the given kind on the given paths.
    pub fn new(kind: RawEventKind, paths: Vec<String>) -> (event: RawEvent)
        ensures
            event@ == (RawEventView { kind: kind, paths: texts(paths@) }),
    {
        RawEvent { kind, paths }
    }

    /// The watch event that this raw event stands for, if any.
    pub fn classify(&self) -> (event: Option<WatchEvent>)
        ensures
            match event {
                Some(e) => self@.classify() == Some(e@),
                None => self@.classify() is None,
            },
    {
        if self.paths.len() == 0 {
            return None;
        }
        let path = self.paths[0].clone();
        match self.kind {
            RawEventKind::Create => Some(WatchEvent::Created { path }),
            RawEventKind::Modify => Some(WatchEvent::Modified { path }),
            RawEventKind::Remove => Some(WatchEvent::Removed { path }),
            RawEventKind::Other => None,
        }
    }
}

/// Time from `earlier` to `later`, zero where `later` is not after `earlier`.
pub open spec fn elapsed(later: u64, earlier: u64) -> int {
    if later >= earlier {
        later - earlier
    } else {
        0
    }
}

/// Whether an event on `path` at time `now` falls inside the debounce window
/// of the last event dispatched for that path.
pub open spec fn debounced(
    last: Map<Seq<char>, u64>,
    path: Seq<char>,
    now: u64,
    debounce: u64,
) -> bool {
    last.contains_key(path) && elapsed(now, last[path]) < debounce
}

/// The event that the pipeline dispatches for a raw event, if any: the watcher
/// runs, the raw event stands for a watch event, its extension is listed, and
/// it is not debounced.
pub open spec fn admitted(
    config: WatchConfigView,
    running: bool,
    last: Map<Seq<char>, u64>,
    raw: RawEventView,
    now: u64,
) -> Option<WatchEventView> {
    if !running {
        None
    } else {
        match raw.classify() {
            None => None,
            Some(event) => if !event.matches_extension(config.extensions) {
                None
            } else if debounced(last, event.path(), now, config.debounce) {
                None
            } else {
                Some(event)
            },
        }
    }
}

/// The debounce map after a raw event: the path of a dispatched event is
/// stamped with the time of the dispatch, and nothing else changes.
pub open spec fn stamped(
    config: WatchConfigView,
    running: bool,
    last: Map<Seq<char>, u64>,
    raw: RawEventView,
    now: u64,
) -> Map<Seq<char>, u64> {
    match admitted(config, running, last, raw, now) {
        Some(event) => last.insert(event.path(), now),
        None => last,
    }
}

/// A subscriber of watch events.
trait ChangeSink: Send + Sync {
    /// Whether the subscriber has taken an event: what it promises of an
    /// event that is handed to it holds of this event.
    spec fn took(&self, event: WatchEvent) -> bool;

    /// Takes an event.
    fn take(&self, event: WatchEvent)
        ensures
            self.took(event),
    ;
}

/// A subscriber that is a callback. The callback accepts every event.
struct CallbackSink<F: Fn(WatchEvent) + Send + Sync + 'static> {
    callback: F,
}

impl<F: Fn(WatchEvent) + Send + Sync + 'static> CallbackSink<F> {
    #[verifier::type_invariant]
    spec fn accepts_every_event(self) -> bool {
        forall|event: WatchEvent| call_requires(self.callback, (event,))
    }

    fn new(callback: F) -> (sink: Self)
        requires
            forall|event: WatchEvent| call_requires(callback, (event,)),
        ensures
            sink.callback == callback,
    {
        CallbackSink { callback }
    }
}

impl<F: Fn(WatchEvent) + Send + Sync + 'static> ChangeSink for CallbackSink<F> {
    closed spec fn took(&self, event: WatchEvent) -> bool {
        call_ensures(self.callback, (event,), ())
    }

    fn take(&self, event: WatchEvent) {
        proof {
            use_type_invariant(self);
        }
        (self.callback)(event)
    }
}

/// A subscriber as the watcher holds it.
struct Subscriber<S: ?Sized> {
    sink: Box<S>,
}

impl<S: ?Sized> Subscriber<S> {
    fn new(sink: Box<S>) -> (subscriber: Self)
        ensures
            subscriber.sink == sink,
    {
        Subscriber { sink }
    }
}

/// Whether every one of the subscribers has taken an event of the given
/// value.
spec fn all_took(subscribers: Seq<Subscriber<dyn ChangeSink>>, event: WatchEventView) -> bool {
    forall|i: int| 0 <= i < subscribers.len() ==> took_some(#[trigger] subscribers[i], event)
}

/// Whether a subscriber has taken an event of the given value.
spec fn took_some(subscriber: Subscriber<dyn ChangeSink>, event: WatchEventView) -> bool {
    exists|sent: WatchEvent| sent@ == event && #[trigger] subscriber.sink.took(sent)
}

/// Whether a callback, handed some event of the given value, has kept what
/// it promises of the events that are handed to it.
pub open spec fn served<F: Fn(WatchEvent)>(handler: F, event: WatchEventView) -> bool {
    exists|sent: WatchEvent| sent@ == event && #[trigger] call_ensures(handler, (sent,), ())
}

/// Plugin file watcher: watched paths, debounce state and subscribers.
pub struct PluginWatcher {
    config: WatchConfig,
    watched_paths: Vec<String>,
    last_events: StringHashMap<u64>,
    handlers: Vec<Subscriber<dyn ChangeSink>>,
    running: bool,
}

/// Mathematical value of a [`PluginWatcher`], but for its subscribers.
pub struct WatcherView {
    /// The configuration.
    pub config: WatchConfigView,
    /// Whether the watcher runs.
    pub running: bool,
    /// The watched paths, in the order in which they were added.
    pub watched: Seq<Seq<char>>,
    /// For each path, the time of the last event dispatched for it.
    pub last_events: Map<Seq<char>, u64>,
}

impl WatcherView {
    /// The event that the watcher dispatches for a raw event that arrives
    /// at time `now`, if any.
    pub open spec fn admits(self, raw: RawEventView, now: u64) -> Option<WatchEventView> {
        admitted(self.config, self.running, self.last_events, raw, now)
    }

    /// The watcher after a raw event that arrived at time `now`.
    pub open spec fn after(self, raw: RawEventView, now: u64) -> WatcherView {
        WatcherView {
            last_events: stamped(self.config, self.running, self.last_events, raw, now),
            ..self
        }
    }
}

impl View for PluginWatcher {
    type V = WatcherView;

    closed spec fn view(&self) -> WatcherView {
        WatcherView {
            config: self.config@,
            running: self.running,
            watched: texts(self.watched_paths@),
            last_events: self.last_events@,
        }
    }
}

impl PluginWatcher {
    /// The number of subscribers.
    pub closed spec fn handler_count(&self) -> nat {
        self.handlers@.len()
    }

    /// Whether every subscriber has taken an event of the given value: each
    /// was handed such an event, and what it promises of the events that are
    /// handed to it holds.
    pub closed spec fn delivered(&self, event: WatchEventView) -> bool {
        all_took(self.handlers@, event)
    }

    /// Whether this watcher has the subscribers of `before`.
    pub open spec fn subscribers_kept(&self, before: PluginWatcher) -> bool {
        &&& self.handler_count() == before.handler_count()
        &&& forall|event: WatchEventView|
            #[trigger] self.delivered(event) == before.delivered(event)
    }

    /// An idle watcher: not running, nothing watched, no event seen, no
    /// subscriber.
    pub fn new(config: WatchConfig) -> (watcher: Result<PluginWatcher, Error>)
        ensures
            watcher is Ok,
            watcher->Ok_0@ == (WatcherView {
                config: config@,
                running: false,
                watched: Seq::empty(),
                last_events: Map::empty(),
            }),
            watcher->Ok_0.handler_count() == 0,
    {
        let watcher = PluginWatcher {
            config,
            watched_paths: Vec::new(),
            last_events: StringHashMap::new(),
            handlers: Vec::new(),
            running: false,
        };
        assert(texts(watcher.watched_paths@) =~= Seq::<Seq<char>>::empty());
        Ok(watcher)
    }

    /// An idle watcher with the default configuration.
    pub fn default_config() -> (watcher: Result<PluginWatcher, Error>)
        ensures
            watcher is Ok,
            watcher->Ok_0@ == (WatcherView {
                config: WatchConfigView::default_value(),
                running: false,
                watched: Seq::empty(),
                last_events: Map::empty(),
            }),
            watcher->Ok_0.handler_count() == 0,
    {
        PluginWatcher::new(WatchConfig::default())
    }

    /// The configuration.
    pub fn config(&self) -> (config: &WatchConfig)
        ensures
            config@ == self@.config,
    {
        &self.config
    }

    /// Whether the watcher runs.
    pub fn is_running(&self) -> (running: bool)
        ensures
            running == self@.running,
    {
        self.running
    }

    /// Adds a subscriber after those already there.
    fn subscribe(&mut self, subscriber: Subscriber<dyn ChangeSink>)
        ensures
            final(self)@ == old(self)@,
            final(self).handler_count() == old(self).handler_count() + 1,
            forall|event: WatchEventView|
                #[trigger] final(self).delivered(event) == (old(self).delivered(event)
                    && took_some(subscriber, event)),
    {
        let ghost before = self.handlers@;
        self.handlers.push(subscriber);
        let ghost after = self.handlers@;
        assert forall|event: WatchEventView|
            #[trigger] all_took(after, event) == (all_took(before, event) && took_some(
                subscriber,
                event,
            )) by {
            let last = before.len() as int;
            assert(after[last] == subscriber);
            if all_took(after, event) {
                assert forall|i: int| 0 <= i < before.len() implies took_some(
                    #[trigger] before[i],
                    event,
                ) by {
                    assert(after[i] == before[i]);
                }
            }
            if all_took(before, event) && took_some(subscriber, event) {
                assert forall|i: int| 0 <= i < after.len() implies took_some(
                    #[trigger] after[i],
                    event,
                ) by {
                    if i < last {
                        assert(after[i] == before[i]);
                    }
                }
            }
        }
    }

    /// Adds a subscriber after those already there. The subscriber must
    /// accept every event. From then on an event is delivered when the
    /// subscribers before have taken it and the new one has too.
    pub fn on_change<F>(&mut self, handler: F) where F: Fn(WatchEvent) + Send + Sync + 'static
        requires
            forall|event: WatchEvent| call_requires(handler, (event,)),
        ensures
            final(self)@ == old(self)@,
            final(self).handler_count() == old(self).handler_count() + 1,
            forall|event: WatchEventView|
                #[trigger] final(self).delivered(event) == (old(self).delivered(event) && served(
                    handler,
                    event,
                )),
    {
        let callback = CallbackSink::new(handler);
        let sink: Box<dyn ChangeSink> = Box::new(callback);
        let subscriber = Subscriber::new(sink);
        self.subscribe(subscriber);
        assert forall|event: WatchEventView|
            #[trigger] self.delivered(event) == (old(self).delivered(event) && served(
                handler,
                event,
            )) by {
            if served(handler, event) {
                let sent = choose|sent: WatchEvent|
                    sent@ == event && #[trigger] call_ensures(handler, (sent,), ());
                assert(sent@ == event && subscriber.sink.took(sent));
            }
            if took_some(subscriber, event) {
                let sent = choose|sent: WatchEvent|
                    sent@ == event && #[trigger] subscriber.sink.took(sent);
                assert(sent@ == event && call_ensures(handler, (sent,), ()));
            }
        }
    }

    /// Starts the watcher. `bound` is the outcome of binding the watch
    /// backend, which the caller does when the watcher does not run yet; a
    /// watcher that runs already stays as it is. Where the binding failed the
    /// watcher stays idle and the failure is reported as a watch error.
    pub fn start(&mut self, bound: Result<(), String>) -> (started: Result<(), Error>)
        ensures
            final(self).subscribers_kept(*old(self)),
            old(self)@.running || bound is Ok ==> started is Ok && final(self)@ == (WatcherView {
                running: true,
                ..old(self)@
            }),
            !old(self)@.running && bound is Err ==> final(self)@ == old(self)@ && started is Err
                && started->Err_0@ == ErrorView::Watch(bound->Err_0@),
    {
        if self.running {
            return Ok(());
        }
        match bound {
            Ok(()) => {
                self.running = true;
                Ok(())
            },
            Err(message) => Err(Error::Watch(message)),
        }
    }

    /// Stops the watcher.
    pub fn stop(&mut self)
        ensures
            final(self).subscribers_kept(*old(self)),
            final(self)@ == (WatcherView { running: false, ..old(self)@ }),
    {
        self.running = false;
    }

    /// Watches a path: adds it to the watched paths unless it is there.
    pub fn watch(&mut self, path: &str) -> (watched: Result<(), Error>)
        ensures
            watched is Ok,
            final(self).subscribers_kept(*old(self)),
            final(self)@ == (WatcherView {
                watched: if old(self)@.watched.contains(path@) {
                    old(self)@.watched
                } else {
                    old(self)@.watched.push(path@)
                },
                ..old(self)@
            }),
    {
        if !contains_str(self.watched_paths.as_slice(), path) {
            self.watched_paths.push(String::from_str(path));
            assert(texts(self.watched_paths@) =~= texts(old(self).watched_paths@).push(path@));
        }
        Ok(())
    }

    /// Stops watching a path: removes every occurrence of it from the watched
    /// paths. `released` is the outcome of releasing the path at the watch
    /// backend, which the caller does when the watcher runs; its failure is
    /// reported as a watch error, after the path was removed.
    pub fn unwatch(&mut self, path: &str, released: Result<(), String>) -> (unwatched: Result<
        (),
        Error,
    >)
        ensures
            final(self).subscribers_kept(*old(self)),
            final(self)@ == (WatcherView {
                watched: old(self)@.watched.filter(|p: Seq<char>| p != path@),
                ..old(self)@
            }),
            !old(self)@.running || released is Ok ==> unwatched is Ok,
            old(self)@.running && released is Err ==> unwatched is Err && unwatched->Err_0@
                == ErrorView::Watch(released->Err_0@),
    {
        let ghost keep = |p: Seq<char>| p != path@;
        let mut kept: Vec<String> = Vec::new();
        let mut i: usize = 0;
        while i < self.watched_paths.len()
            invariant
                i <= self.watched_paths.len(),
                *self == *old(self),
                keep == |p: Seq<char>| p != path@,
                texts(kept@) == texts(self.watched_paths@).take(i as int).filter(keep),
            decreases self.watched_paths.len() - i,
        {
            let ghost all = texts(self.watched_paths@);
            proof {
                assert(all.take(i as int + 1) =~= all.take(i as int).push(all[i as int]));
                lemma_filter_push(all.take(i as int), all[i as int], keep);
            }
            if !str_eq(self.watched_paths[i].as_str(), path) {
                kept.push(self.watched_paths[i].clone());
            }
            i += 1;
        }
        assert(texts(self.watched_paths@).take(i as int) =~= texts(self.watched_paths@));
        self.watched_paths = kept;
        if self.running {
            match released {
                Ok(()) => Ok(()),
                Err(message) => Err(Error::Watch(message)),
            }
        } else {
            Ok(())
        }
    }

    /// The watched paths.
    pub fn watched_paths(&self) -> (paths: Vec<String>)
        ensures
            texts(paths@) == self@.watched,
    {
        let paths = self.watched_paths.clone();
        paths
    }

    /// Runs the event pipeline on one raw event that the backend reported at
    /// time `now`: a watcher that does not run discards it; so does a kind
    /// that stands for no watch event, an extension that is not listed, and a
    /// path for which an event was dispatched less than the debounce ago. An
    /// event that passes is stamped in the debounce map and handed to every
    /// subscriber in the order of subscription. Returns whether the event was
    /// dispatched.
    pub fn handle_event(&mut self, event: &RawEvent, now: u64) -> (dispatched: bool)
        ensures
            dispatched == old(self)@.admits(event@, now) is Some,
            final(self)@ == old(self)@.after(event@, now),
            final(self).subscribers_kept(*old(self)),
            dispatched ==> final(self).delivered(old(self)@.admits(event@, now)->Some_0),
    {
        if !self.running {
            return false;
        }
        let watch_event = match event.classify() {
            Some(e) => e,
            None => {
                return false;
            },
        };
        if !watch_event.matches_extension(self.config.extensions.as_slice()) {
            return false;
        }
        let debounce = self.config.debounce;
        match self.last_events.get(watch_event.path()) {
            Some(last) => {
                let since: u64 = if now >= *last {
                    now - *last
                } else {
                    0
                };
                if since < debounce {
                    return false;
                }
            },
            None => {},
        }
        self.last_events.insert(String::from_str(watch_event.path()), now);
        let mut i: usize = 0;
        while i < self.handlers.len()
            invariant
                i <= self.handlers.len(),
                self.handlers == old(self).handlers,
                forall|k: int| 0 <= k < i ==> took_some(#[trigger] self.handlers@[k], watch_event@),
            decreases self.handlers.len() - i,
        {
            let copy = watch_event.clone();
            self.handlers[i].sink.take(copy);
            i += 1;
        }
        true
    }
}

/// One raw event in the history of a watcher: the event, the time at which
/// the backend reported it, and whether the watcher ran at that time.
pub struct Arrival {
    pub raw: RawEventView,
    pub now: u64,
    pub running: bool,
}

/// The debounce map of a watcher that started with the map `start` and has
/// handled the first `k` of `arrivals`.
pub open spec fn debounce_map_after(
    config: WatchConfigView,
    start: Map<Seq<char>, u64>,
    arrivals: Seq<Arrival>,
    k: nat,
) -> Map<Seq<char>, u64>
    decreases k,
{
    if k == 0 {
        start
    } else {
        let a = arrivals[k - 1];
        stamped(
            config,
            a.running,
            debounce_map_after(config, start, arrivals, (k - 1) as nat),
            a.raw,
            a.now,
        )
    }
}

/// The event that the watcher dispatches for the arrival at position `k`, if
/// any.
pub open spec fn dispatched_at(
    config: WatchConfigView,
    start: Map<Seq<char>, u64>,
    arrivals: Seq<Arrival>,
    k: int,
) -> Option<WatchEventView> {
    let a = arrivals[k];
    admitted(config, a.running, debounce_map_after(config, start, arrivals, k as nat), a.raw, a.now)
}

/// The distance between two times.
pub open spec fn distance(a: u64, b: u64) -> int {
    if a <= b {
        b - a
    } else {
        a - b
    }
}

/// Once an event was dispatched for a path, the debounce map holds for that
/// path a time that is not before that dispatch, where the debounce is not
/// zero.
proof fn lemma_stamp_persists(
    config: WatchConfigView,
    start: Map<Seq<char>, u64>,
    arrivals: Seq<Arrival>,
    i: int,
    k: nat,
)
    requires
        0 <= i < k <= arrivals.len(),
        config.debounce > 0,
        dispatched_at(config, start, arrivals, i) is Some,
    ensures
        debounce_map_after(config, start, arrivals, k).contains_key(
            dispatched_at(config, start, arrivals, i)->Some_0.path(),
        ),
        debounce_map_after(config, start, arrivals, k)[dispatched_at(
            config,
            start,
            arrivals,
            i,
        )->Some_0.path()] >= arrivals[i].now,
    decreases k,
{
    if k > i + 1 {
        lemma_stamp_persists(config, start, arrivals, i, (k - 1) as nat);
    }
}

/// Debounce law: two events that the watcher dispatches for the same path
/// lie at least the debounce duration apart, whatever else arrives between
/// or around them and whatever the clock does; where the debounce is not
/// zero, the later dispatch has the later time.
pub proof fn lemma_debounce_spacing(
    config: WatchConfigView,
    start: Map<Seq<char>, u64>,
    arrivals: Seq<Arrival>,
    i: int,
    j: int,
)
    requires
        0 <= i < j < arrivals.len(),
        dispatched_at(config, start, arrivals, i) is Some,
        dispatched_at(config, start, arrivals, j) is Some,
        dispatched_at(config, start, arrivals, i)->Some_0.path() == dispatched_at(
            config,
            start,
            arrivals,
            j,
        )->Some_0.path(),
    ensures
        distance(arrivals[i].now, arrivals[j].now) >= config.debounce,
        config.debounce > 0 ==> arrivals[j].now - arrivals[i].now >= config.debounce,
{
    if config.debounce > 0 {
        lemma_stamp_persists(config, start, arrivals, i, j as nat);
    }
}

/// The history of a running watcher to which the backend reported the same
/// raw event at each of the given times.
pub open spec fn repeated(raw: RawEventView, times: Seq<u64>) -> Seq<Arrival> {
    Seq::new(times.len(), |k: int| Arrival { raw, now: times[k], running: true })
}

/// Burst law: a running watcher that has no time noted for a path and gets
/// the same event for it four times, the second less than the debounce
/// duration after the first, the third at least that duration after the
/// first, and the fourth less than that duration after the third, dispatches
/// the first and the third and suppresses the other two, and then holds the
/// time of the third for the path. The event is one that the watcher takes
/// by its kind and its extension.
pub proof fn lemma_burst_is_debounced(
    config: WatchConfigView,
    start: Map<Seq<char>, u64>,
    raw: RawEventView,
    first: u64,
    second: u64,
    third: u64,
    fourth: u64,
)
    requires
        raw.classify() is Some,
        raw.classify()->Some_0.matches_extension(config.extensions),
        !start.contains_key(raw.classify()->Some_0.path()),
        first <= second < first + config.debounce,
        first + config.debounce <= third,
        third <= fourth < third + config.debounce,
    ensures
        ({
            let arrivals = repeated(raw, seq![first, second, third, fourth]);
            let path = raw.classify()->Some_0.path();
            let end = debounce_map_after(config, start, arrivals, 4);
            &&& dispatched_at(config, start, arrivals, 0) == raw.classify()
            &&& dispatched_at(config, start, arrivals, 1) is None
            &&& dispatched_at(config, start, arrivals, 2) == raw.classify()
            &&& dispatched_at(config, start, arrivals, 3) is None
            &&& end.contains_key(path)
            &&& end[path] == third
        }),
{
    let arrivals = repeated(raw, seq![first, second, third, fourth]);
    let path = raw.classify()->Some_0.path();
    let m0 = debounce_map_after(config, start, arrivals, 0);
    let m1 = debounce_map_after(config, start, arrivals, 1);
    let m2 = debounce_map_after(config, start, arrivals, 2);
    let m3 = debounce_map_after(config, start, arrivals, 3);
    let m4 = debounce_map_after(config, start, arrivals, 4);
    assert(m0 == start);
    assert(m1 == start.insert(path, first));
    assert(m2 == m1);
    assert(m3 == m2.insert(path, third));
    assert(m4 == m3);
}

/// Filter law: an event whose extension is not listed is never dispatched,
/// whatever the debounce map holds.
pub proof fn lemma_unlisted_extension_suppressed(
    config: WatchConfigView,
    running: bool,
    last: Map<Seq<char>, u64>,
    raw: RawEventView,
    now: u64,
)
    requires
        raw.classify() is Some,
        !raw.classify()->Some_0.matches_extension(config.extensions),
    ensures
        admitted(config, running, last, raw, now) is None,
        stamped(config, running, last, raw, now) == last,
{
}

} // verus!
