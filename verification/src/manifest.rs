//! Plugin manifest: the declared contract of a plugin, its validation, and
//! the negotiation of API versions between host and plugin.

use vstd::prelude::*;
use crate::error::{outcome_view, Error, ErrorView};
use crate::host::{capability_known, known_capability};
use crate::text::{
    chars_of, clone_opt_text, clone_texts, concat2, contains_str, decimal, is_digit,
    lemma_decimal_denotes, lemma_parse_decimal, opt_text, parse_u32, parse_u32_range, str_eq,
    texts, u32_to_string,
};

verus! {

/// API version: major, minor and patch number.
#[derive(Debug, Clone, Copy, PartialEq, Eq, Structural)]
pub struct ApiVersion {
    /// Major version.
    pub major: u32,
    /// Minor version.
    pub minor: u32,
    /// Patch version.
    pub patch: u32,
}

/// Whether `p` is the position of the first dot of `s`, or its length where
/// it has no dot.
pub open spec fn is_first_dot(s: Seq<char>, p: int) -> bool {
    &&& 0 <= p <= s.len()
    &&& p < s.len() ==> s[p] == '.'
    &&& forall|k: int| 0 <= k < p ==> s[k] != '.'
}

/// The position of the first dot of `s`, or its length where it has no dot.
pub open spec fn first_dot(s: Seq<char>) -> int {
    choose|p: int| is_first_dot(s, p)
}

/// The part of a dotted text before its first dot.
pub open spec fn head_field(s: Seq<char>) -> Seq<char> {
    s.take(first_dot(s))
}

/// The part of a dotted text after its first dot, if it has a dot.
pub open spec fn after_head(s: Seq<char>) -> Option<Seq<char>> {
    if first_dot(s) < s.len() {
        Some(s.skip(first_dot(s) + 1))
    } else {
        None
    }
}

/// The position of the first dot is unique.
pub proof fn lemma_first_dot(s: Seq<char>, p: int)
    requires
        is_first_dot(s, p),
    ensures
        first_dot(s) == p,
{
    let q = first_dot(s);
    assert(is_first_dot(s, q));
    if q < p {
        assert(s[q] != '.');
    }
    if p < q {
        assert(s[p] != '.');
    }
}

impl ApiVersion {
    /// The textual form `major.minor.patch`.
    pub open spec fn text(self) -> Seq<char> {
        decimal(self.major as nat) + "."@ + decimal(self.minor as nat) + "."@ + decimal(
            self.patch as nat,
        )
    }

    /// What parsing a text gives. The text needs a major and a minor number,
    /// separated by a dot. A patch number may follow after another dot; where
    /// it is absent or is no number it counts as 0, and what follows a third
    /// dot is not read.
    pub open spec fn parse_text(s: Seq<char>) -> Result<ApiVersion, ErrorView> {
        match after_head(s) {
            None => Err(ErrorView::InvalidManifest("invalid version: "@ + s)),
            Some(rest) => match parse_u32(head_field(s)) {
                None => Err(ErrorView::InvalidManifest("invalid major version: "@ + s)),
                Some(major) => match parse_u32(head_field(rest)) {
                    None => Err(ErrorView::InvalidManifest("invalid minor version: "@ + s)),
                    Some(minor) => Ok(
                        ApiVersion {
                            major,
                            minor,
                            patch: match after_head(rest) {
                                None => 0,
                                Some(last) => match parse_u32(head_field(last)) {
                                    Some(patch) => patch,
                                    None => 0,
                                },
                            },
                        },
                    ),
                },
            },
        }
    }

    /// Whether a host of this version can host a plugin built for `other`:
    /// the major numbers are equal and the host's minor number is not below
    /// the plugin's. The patch numbers play no part.
    pub open spec fn compatible_with(self, other: ApiVersion) -> bool {
        self.major == other.major && self.minor >= other.minor
    }

    /// A new API version.
    pub fn new(major: u32, minor: u32, patch: u32) -> (v: ApiVersion)
        ensures
            v == (ApiVersion { major, minor, patch }),
    {
        ApiVersion { major, minor, patch }
    }

    /// Parses a text such as `0.18.0`.
    pub fn parse(s: &str) -> (parsed: Result<ApiVersion, Error>)
        ensures
            outcome_view(parsed) == ApiVersion::parse_text(s@),
    {
        let chars = chars_of(s);
        let len = chars.len();
        let first = find_dot(&chars, 0);
        proof {
            assert(chars@.skip(0) =~= s@);
            lemma_first_dot(s@, first as int);
        }
        if first == len {
            return Err(Error::InvalidManifest(concat2("invalid version: ", s)));
        }
        let second = find_dot(&chars, first + 1);
        let ghost rest = chars@.skip(first + 1);
        proof {
            lemma_first_dot(rest, second - first - 1);
            assert(head_field(rest) =~= chars@.subrange(first + 1, second as int));
        }
        let major = match parse_u32_range(&chars, 0, first) {
            Some(n) => n,
            None => {
                return Err(Error::InvalidManifest(concat2("invalid major version: ", s)));
            },
        };
        let minor = match parse_u32_range(&chars, first + 1, second) {
            Some(n) => n,
            None => {
                return Err(Error::InvalidManifest(concat2("invalid minor version: ", s)));
            },
        };
        let patch = if second == len {
            0
        } else {
            let third = find_dot(&chars, second + 1);
            let ghost last = chars@.skip(second + 1);
            proof {
                assert(rest.skip(second - first - 1 + 1) =~= last);
                lemma_first_dot(last, third - second - 1);
                assert(head_field(last) =~= chars@.subrange(second + 1, third as int));
            }
            match parse_u32_range(&chars, second + 1, third) {
                Some(n) => n,
                None => 0,
            }
        };
        Ok(ApiVersion { major, minor, patch })
    }

    /// Whether a host of this version can host a plugin built for `other`.
    pub fn is_compatible_with(&self, other: &ApiVersion) -> (compatible: bool)
        ensures
            compatible == self.compatible_with(*other),
            compatible <==> self.major == other.major && self.minor >= other.minor,
    {
        self.major == other.major && self.minor >= other.minor
    }

    /// The textual form `major.minor.patch`.
    pub fn to_string(&self) -> (s: String)
        ensures
            s@ == self.text(),
    {
        let mut s = u32_to_string(self.major);
        s.append(".");
        s.append(u32_to_string(self.minor).as_str());
        s.append(".");
        s.append(u32_to_string(self.patch).as_str());
        s
    }
}

/// A text of digits, then a dot, then any text has its first dot right after
/// the digits.
proof fn lemma_dot_after_number(n: nat, rest: Seq<char>)
    ensures
        head_field(decimal(n) + "."@ + rest) == decimal(n),
        after_head(decimal(n) + "."@ + rest) == Some(rest),
{
    reveal_strlit(".");
    lemma_decimal_denotes(n);
    let number = decimal(n);
    let text = number + "."@ + rest;
    assert(is_first_dot(text, number.len() as int)) by {
        assert(text[number.len() as int] == '.');
        assert forall|k: int| 0 <= k < number.len() implies text[k] != '.' by {
            assert(text[k] == number[k]);
            assert(is_digit(number[k]));
        }
    }
    lemma_first_dot(text, number.len() as int);
    assert(text.take(number.len() as int) =~= number);
    assert(text.skip(number.len() as int + 1) =~= rest);
}

/// A text of digits has no dot: it is its own first field and has nothing
/// after it.
proof fn lemma_number_alone(n: nat)
    ensures
        head_field(decimal(n)) == decimal(n),
        after_head(decimal(n)) is None,
{
    lemma_decimal_denotes(n);
    let number = decimal(n);
    assert(is_first_dot(number, number.len() as int)) by {
        assert forall|k: int| 0 <= k < number.len() implies number[k] != '.' by {
            assert(is_digit(number[k]));
        }
    }
    lemma_first_dot(number, number.len() as int);
    assert(number.take(number.len() as int) =~= number);
}

/// Round-trip law: the textual form of an API version parses to the version.
pub proof fn lemma_version_text_round_trip(version: ApiVersion)
    ensures
        ApiVersion::parse_text(version.text()) == Ok::<ApiVersion, ErrorView>(version),
{
    let major = decimal(version.major as nat);
    let minor = decimal(version.minor as nat);
    let patch = decimal(version.patch as nat);
    let rest = minor + "."@ + patch;
    assert(version.text() =~= major + "."@ + rest);
    lemma_dot_after_number(version.major as nat, rest);
    lemma_dot_after_number(version.minor as nat, patch);
    lemma_number_alone(version.patch as nat);
    lemma_parse_decimal(version.major);
    lemma_parse_decimal(version.minor);
    lemma_parse_decimal(version.patch);
}

/// The position of the first dot of `chars` at or after `from`, or the
/// length of `chars` where there is none.
fn find_dot(chars: &Vec<char>, from: usize) -> (p: usize)
    requires
        from <= chars.len(),
    ensures
        from <= p <= chars.len(),
        is_first_dot(chars@.skip(from as int), p - from),
{
    let mut p: usize = from;
    while p < chars.len() && chars[p] != '.'
        invariant
            from <= p <= chars.len(),
            forall|k: int| from <= k < p ==> chars@[k] != '.',
        decreases chars.len() - p,
    {
        p += 1;
    }
    p
}

impl Default for ApiVersion {
    /// The API level of this host: 0.18.0.
    fn default() -> (v: ApiVersion)
        ensures
            v == (ApiVersion { major: 0, minor: 18, patch: 0 }),
    {
        ApiVersion { major: 0, minor: 18, patch: 0 }
    }
}

/// Declared dependency of a plugin on another.
#[derive(Debug)]
pub struct Dependency {
    /// Dependency name.
    pub name: String,
    /// Version requirement.
    pub version: String,
    /// Whether this dependency is optional.
    pub optional: bool,
}

/// Mathematical value of a [`Dependency`].
pub struct DependencyView {
    pub name: Seq<char>,
    pub version: Seq<char>,
    pub optional: bool,
}

impl View for Dependency {
    type V = DependencyView;

    open spec fn view(&self) -> DependencyView {
        DependencyView { name: self.name@, version: self.version@, optional: self.optional }
    }
}

impl Clone for Dependency {
    fn clone(&self) -> (copy: Dependency)
        ensures
            copy@ == self@,
    {
        Dependency {
            name: self.name.clone(),
            version: self.version.clone(),
            optional: self.optional,
        }
    }
}

impl Dependency {
    /// A required dependency.
    pub fn required(name: &str, version: &str) -> (dep: Dependency)
        ensures
            dep@ == (DependencyView { name: name@, version: version@, optional: false }),
    {
        Dependency {
            name: String::from_str(name),
            version: String::from_str(version),
            optional: false,
        }
    }

    /// An optional dependency.
    pub fn optional(name: &str, version: &str) -> (dep: Dependency)
        ensures
            dep@ == (DependencyView { name: name@, version: version@, optional: true }),
    {
        Dependency {
            name: String::from_str(name),
            version: String::from_str(version),
            optional: true,
        }
    }
}

/// The values of a sequence of dependencies.
pub open spec fn dependency_views(deps: Seq<Dependency>) -> Seq<DependencyView> {
    deps.map_values(|d: Dependency| d@)
}

/// Custom metadata of a manifest: texts by key. The entries are kept in the
/// order in which they were set; a later entry for a key replaces an earlier
/// one.
#[derive(Debug)]
pub struct Metadata {
    entries: Vec<(String, String)>,
}

/// The map that a sequence of entries stands for.
pub open spec fn entries_map(entries: Seq<(String, String)>) -> Map<Seq<char>, Seq<char>>
    decreases entries.len(),
{
    if entries.len() == 0 {
        Map::empty()
    } else {
        entries_map(entries.drop_last()).insert(entries.last().0@, entries.last().1@)
    }
}

impl View for Metadata {
    type V = Map<Seq<char>, Seq<char>>;

    closed spec fn view(&self) -> Map<Seq<char>, Seq<char>> {
        entries_map(self.entries@)
    }
}

impl Clone for Metadata {
    fn clone(&self) -> (copy: Metadata)
        ensures
            copy@ == self@,
    {
        let mut entries: Vec<(String, String)> = Vec::new();
        let mut i: usize = 0;
        while i < self.entries.len()
            invariant
                i <= self.entries.len(),
                entries.len() == i,
                entries_map(entries@) == entries_map(self.entries@.take(i as int)),
            decreases self.entries.len() - i,
        {
            let key = self.entries[i].0.clone();
            let value = self.entries[i].1.clone();
            let ghost before = entries@;
            entries.push((key, value));
            proof {
                assert(entries@.drop_last() =~= before);
                assert(self.entries@.take(i + 1).drop_last() =~= self.entries@.take(i as int));
            }
            i += 1;
        }
        assert(self.entries@.take(i as int) =~= self.entries@);
        Metadata { entries }
    }
}

impl Metadata {
    /// No metadata.
    pub fn new() -> (metadata: Metadata)
        ensures
            metadata@ == Map::<Seq<char>, Seq<char>>::empty(),
    {
        Metadata { entries: Vec::new() }
    }

    /// Sets the text of a key.
    pub fn insert(&mut self, key: String, value: String)
        ensures
            final(self)@ == old(self)@.insert(key@, value@),
    {
        self.entries.push((key, value));
        assert(self.entries@.drop_last() =~= old(self).entries@);
    }

    /// The text of a key, if it has one.
    pub fn get(&self, key: &str) -> (value: Option<&str>)
        ensures
            match value {
                Some(v) => self@.contains_key(key@) && self@[key@] == v@,
                None => !self@.contains_key(key@),
            },
    {
        let mut i: usize = self.entries.len();
        assert(self.entries@.take(i as int) =~= self.entries@);
        while i > 0
            invariant
                i <= self.entries.len(),
                entries_map(self.entries@).contains_key(key@) == entries_map(
                    self.entries@.take(i as int),
                ).contains_key(key@),
                entries_map(self.entries@).contains_key(key@) ==> entries_map(self.entries@)[key@]
                    == entries_map(self.entries@.take(i as int))[key@],
            decreases i,
        {
            let ghost prefix = self.entries@.take(i as int);
            assert(prefix.drop_last() =~= self.entries@.take(i - 1));
            if str_eq(self.entries[i - 1].0.as_str(), key) {
                return Some(self.entries[i - 1].1.as_str());
            }
            i -= 1;
        }
        None
    }

    /// The entries in the order in which they were set.
    pub fn entries(&self) -> (entries: &Vec<(String, String)>)
        ensures
            entries_map(entries@) == self@,
    {
        &self.entries
    }
}

/// Plugin manifest: metadata and requirements of a plugin.
#[derive(Debug)]
pub struct Manifest {
    /// Plugin name, the identifier of the plugin within a registry.
    pub name: String,
    /// Plugin version.
    pub version: String,
    /// Human-readable description.
    pub description: Option<String>,
    /// Plugin authors.
    pub authors: Vec<String>,
    /// Plugin license.
    pub license: Option<String>,
    /// The API level that the plugin was built against.
    pub api_version: ApiVersion,
    /// Names of the capabilities that the plugin needs.
    pub capabilities: Vec<String>,
    /// Declared dependencies.
    pub dependencies: Vec<Dependency>,
    /// Entry point: path to the source file.
    pub source: Option<String>,
    /// Entry point: path to the precompiled bytecode.
    pub bytecode: Option<String>,
    /// Names of the functions that the plugin publishes.
    pub exports: Vec<String>,
    /// Tags for categorization.
    pub tags: Vec<String>,
    /// Custom metadata.
    pub metadata: Metadata,
}

/// Mathematical value of a [`Manifest`].
pub struct ManifestView {
    pub name: Seq<char>,
    pub version: Seq<char>,
    pub description: Option<Seq<char>>,
    pub authors: Seq<Seq<char>>,
    pub license: Option<Seq<char>>,
    pub api_version: ApiVersion,
    pub capabilities: Seq<Seq<char>>,
    pub dependencies: Seq<DependencyView>,
    pub source: Option<Seq<char>>,
    pub bytecode: Option<Seq<char>>,
    pub exports: Seq<Seq<char>>,
    pub tags: Seq<Seq<char>>,
    pub metadata: Map<Seq<char>, Seq<char>>,
}

/// Whether `i` is the position of the first name in `names` that is the name
/// of no capability of the host.
pub open spec fn first_unknown_at(names: Seq<Seq<char>>, i: int) -> bool {
    &&& 0 <= i < names.len()
    &&& !known_capability(names[i])
    &&& forall|k: int| 0 <= k < i ==> known_capability(#[trigger] names[k])
}

/// Whether every name in `names` is the name of a capability of the host.
pub open spec fn all_known(names: Seq<Seq<char>>) -> bool {
    forall|k: int| 0 <= k < names.len() ==> known_capability(#[trigger] names[k])
}

impl ManifestView {
    /// A manifest with a name and a version, the default API version, and
    /// nothing else.
    pub open spec fn minimal(name: Seq<char>, version: Seq<char>) -> ManifestView {
        ManifestView {
            name,
            version,
            description: None,
            authors: Seq::empty(),
            license: None,
            api_version: ApiVersion { major: 0, minor: 18, patch: 0 },
            capabilities: Seq::empty(),
            dependencies: Seq::empty(),
            source: None,
            bytecode: None,
            exports: Seq::empty(),
            tags: Seq::empty(),
            metadata: Map::empty(),
        }
    }

    /// Whether the manifest is valid: name and version are not empty, an
    /// entry point is present, and every capability name is known to the host.
    pub open spec fn valid(self) -> bool {
        &&& self.name.len() > 0
        &&& self.version.len() > 0
        &&& (self.source is Some || self.bytecode is Some)
        &&& all_known(self.capabilities)
    }

    /// Whether `e` is the error that validation reports: of the violated
    /// rules the first, in the order name, version, entry point, capabilities;
    /// of the unknown capabilities the first.
    pub open spec fn rejected_with(self, e: ErrorView) -> bool {
        if self.name.len() == 0 {
            e == ErrorView::MissingManifestField("name"@)
        } else if self.version.len() == 0 {
            e == ErrorView::MissingManifestField("version"@)
        } else if self.source is None && self.bytecode is None {
            e == ErrorView::InvalidManifest(
                "manifest must specify either 'source' or 'bytecode'"@,
            )
        } else {
            exists|i: int|
                first_unknown_at(self.capabilities, i) && e == ErrorView::InvalidManifest(
                    "unknown capability: "@ + self.capabilities[i],
                )
        }
    }

    /// Whether the manifest needs a capability.
    pub open spec fn requires_capability(self, cap: Seq<char>) -> bool {
        self.capabilities.contains(cap)
    }

    /// Whether the manifest publishes a function.
    pub open spec fn exports_function(self, name: Seq<char>) -> bool {
        self.exports.contains(name)
    }

    /// The entry point: the source where there is one, else the bytecode.
    pub open spec fn entry_point(self) -> Option<Seq<char>> {
        if self.source is Some {
            self.source
        } else {
            self.bytecode
        }
    }
}

impl View for Manifest {
    type V = ManifestView;

    open spec fn view(&self) -> ManifestView {
        ManifestView {
            name: self.name@,
            version: self.version@,
            description: opt_text(self.description),
            authors: texts(self.authors@),
            license: opt_text(self.license),
            api_version: self.api_version,
            capabilities: texts(self.capabilities@),
            dependencies: dependency_views(self.dependencies@),
            source: opt_text(self.source),
            bytecode: opt_text(self.bytecode),
            exports: texts(self.exports@),
            tags: texts(self.tags@),
            metadata: self.metadata@,
        }
    }
}

impl Clone for Manifest {
    fn clone(&self) -> (copy: Manifest)
        ensures
            copy@ == self@,
    {
        let mut dependencies: Vec<Dependency> = Vec::new();
        let mut i: usize = 0;
        while i < self.dependencies.len()
            invariant
                i <= self.dependencies.len(),
                dependency_views(dependencies@) == dependency_views(self.dependencies@).take(
                    i as int,
                ),
            decreases self.dependencies.len() - i,
        {
            let dependency = self.dependencies[i].clone();
            dependencies.push(dependency);
            assert(dependency_views(self.dependencies@).take(i + 1) =~= dependency_views(
                self.dependencies@,
            ).take(i as int).push(self.dependencies@[i as int]@));
            i += 1;
        }
        assert(dependency_views(self.dependencies@).take(i as int) =~= dependency_views(
            self.dependencies@,
        ));
        Manifest {
            name: self.name.clone(),
            version: self.version.clone(),
            description: clone_opt_text(&self.description),
            authors: clone_texts(&self.authors),
            license: clone_opt_text(&self.license),
            api_version: self.api_version,
            capabilities: clone_texts(&self.capabilities),
            dependencies,
            source: clone_opt_text(&self.source),
            bytecode: clone_opt_text(&self.bytecode),
            exports: clone_texts(&self.exports),
            tags: clone_texts(&self.tags),
            metadata: self.metadata.clone(),
        }
    }
}

impl Manifest {
    /// A manifest with the required fields and nothing else.
    pub fn new(name: &str, version: &str) -> (manifest: Manifest)
        ensures
            manifest@ == ManifestView::minimal(name@, version@),
    {
        let manifest = Manifest {
            name: String::from_str(name),
            version: String::from_str(version),
            description: None,
            authors: Vec::new(),
            license: None,
            api_version: ApiVersion::default(),
            capabilities: Vec::new(),
            dependencies: Vec::new(),
            source: None,
            bytecode: None,
            exports: Vec::new(),
            tags: Vec::new(),
            metadata: Metadata::new(),
        };
        assert(manifest@.dependencies =~= Seq::<DependencyView>::empty());
        assert(manifest@.tags =~= Seq::<Seq<char>>::empty());
        manifest
    }

    /// Validates the manifest.
    pub fn validate(&self) -> (checked: Result<(), Error>)
        ensures
            checked is Ok <==> self@.valid(),
            checked matches Err(e) ==> self@.rejected_with(e@),
    {
        if self.name.as_str().is_empty() {
            return Err(Error::missing_field("name"));
        }
        if self.version.as_str().is_empty() {
            return Err(Error::missing_field("version"));
        }
        if self.source.is_none() && self.bytecode.is_none() {
            return Err(
                Error::invalid_manifest("manifest must specify either 'source' or 'bytecode'"),
            );
        }
        let mut i: usize = 0;
        while i < self.capabilities.len()
            invariant
                i <= self.capabilities.len(),
                self@.name.len() > 0,
                self@.version.len() > 0,
                self@.source is Some || self@.bytecode is Some,
                forall|k: int|
                    0 <= k < i ==> known_capability(#[trigger] texts(self.capabilities@)[k]),
            decreases self.capabilities.len() - i,
        {
            if !capability_known(self.capabilities[i].as_str()) {
                assert(first_unknown_at(texts(self.capabilities@), i as int));
                return Err(
                    Error::InvalidManifest(
                        concat2("unknown capability: ", self.capabilities[i].as_str()),
                    ),
                );
            }
            i += 1;
        }
        Ok(())
    }

    /// Whether this manifest needs a capability.
    pub fn requires_capability(&self, cap: &str) -> (required: bool)
        ensures
            required == self@.requires_capability(cap@),
    {
        contains_str(self.capabilities.as_slice(), cap)
    }

    /// Whether a host of the given API version can host this plugin.
    pub fn is_compatible_with_host(&self, host_version: &ApiVersion) -> (compatible: bool)
        ensures
            compatible == host_version.compatible_with(self@.api_version),
    {
        host_version.is_compatible_with(&self.api_version)
    }

    /// The entry point: the source where there is one, else the bytecode.
    pub fn entry_point(&self) -> (entry: Option<&str>)
        ensures
            match entry {
                Some(path) => self@.entry_point() == Some(path@),
                None => self@.entry_point() is None,
            },
    {
        match &self.source {
            Some(path) => Some(path.as_str()),
            None => match &self.bytecode {
                Some(path) => Some(path.as_str()),
                None => None,
            },
        }
    }

    /// Whether the entry point is source code rather than bytecode.
    pub fn uses_source(&self) -> (uses: bool)
        ensures
            uses == self@.source is Some,
    {
        self.source.is_some()
    }
}

/// Builder of manifests.
pub struct ManifestBuilder {
    manifest: Manifest,
}

impl ManifestBuilder {
    /// The manifest built so far.
    pub closed spec fn spec_manifest(&self) -> ManifestView {
        self.manifest@
    }

    /// A builder that starts from the minimal manifest.
    pub fn new(name: &str, version: &str) -> (builder: ManifestBuilder)
        ensures
            builder.spec_manifest() == ManifestView::minimal(name@, version@),
    {
        ManifestBuilder { manifest: Manifest::new(name, version) }
    }

    /// Sets the description.
    pub fn description(self, desc: &str) -> (builder: ManifestBuilder)
        ensures
            builder.spec_manifest() == (ManifestView {
                description: Some(desc@),
                ..self.spec_manifest()
            }),
    {
        let mut builder = self;
        builder.manifest.description = Some(String::from_str(desc));
        builder
    }

    /// Adds an author.
    pub fn author(self, author: &str) -> (builder: ManifestBuilder)
        ensures
            builder.spec_manifest() == (ManifestView {
                authors: self.spec_manifest().authors.push(author@),
                ..self.spec_manifest()
            }),
    {
        let mut builder = self;
        builder.manifest.authors.push(String::from_str(author));
        assert(texts(builder.manifest.authors@) =~= texts(self.manifest.authors@).push(author@));
        builder
    }

    /// Sets the license.
    pub fn license(self, license: &str) -> (builder: ManifestBuilder)
        ensures
            builder.spec_manifest() == (ManifestView {
                license: Some(license@),
                ..self.spec_manifest()
            }),
    {
        let mut builder = self;
        builder.manifest.license = Some(String::from_str(license));
        builder
    }

    /// Sets the API version.
    pub fn api_version(self, version: ApiVersion) -> (builder: ManifestBuilder)
        ensures
            builder.spec_manifest() == (ManifestView {
                api_version: version,
                ..self.spec_manifest()
            }),
    {
        let mut builder = self;
        builder.manifest.api_version = version;
        builder
    }

    /// Adds a capability requirement.
    pub fn capability(self, cap: &str) -> (builder: ManifestBuilder)
        ensures
            builder.spec_manifest() == (ManifestView {
                capabilities: self.spec_manifest().capabilities.push(cap@),
                ..self.spec_manifest()
            }),
    {
        let mut builder = self;
        builder.manifest.capabilities.push(String::from_str(cap));
        assert(texts(builder.manifest.capabilities@) =~= texts(self.manifest.capabilities@).push(
            cap@,
        ));
        builder
    }

    /// Adds capability requirements.
    pub fn capabilities(self, caps: Vec<String>) -> (builder: ManifestBuilder)
        ensures
            builder.spec_manifest() == (ManifestView {
                capabilities: self.spec_manifest().capabilities + texts(caps@),
                ..self.spec_manifest()
            }),
    {
        let mut builder = self;
        let mut added = caps;
        builder.manifest.capabilities.append(&mut added);
        assert(texts(builder.manifest.capabilities@) =~= texts(self.manifest.capabilities@)
            + texts(caps@)) by {
            assert(builder.manifest.capabilities@ =~= self.manifest.capabilities@ + caps@);
        }
        builder
    }

    /// Adds a dependency.
    pub fn dependency(self, dep: Dependency) -> (builder: ManifestBuilder)
        ensures
            builder.spec_manifest() == (ManifestView {
                dependencies: self.spec_manifest().dependencies.push(dep@),
                ..self.spec_manifest()
            }),
    {
        let mut builder = self;
        builder.manifest.dependencies.push(dep);
        assert(dependency_views(builder.manifest.dependencies@) =~= dependency_views(
            self.manifest.dependencies@,
        ).push(dep@));
        builder
    }

    /// Sets the source file.
    pub fn source(self, path: &str) -> (builder: ManifestBuilder)
        ensures
            builder.spec_manifest() == (ManifestView {
                source: Some(path@),
                ..self.spec_manifest()
            }),
    {
        let mut builder = self;
        builder.manifest.source = Some(String::from_str(path));
        builder
    }

    /// Sets the bytecode file.
    pub fn bytecode(self, path: &str) -> (builder: ManifestBuilder)
        ensures
            builder.spec_manifest() == (ManifestView {
                bytecode: Some(path@),
                ..self.spec_manifest()
            }),
    {
        let mut builder = self;
        builder.manifest.bytecode = Some(String::from_str(path));
        builder
    }

    /// Adds an export.
    pub fn export(self, name: &str) -> (builder: ManifestBuilder)
        ensures
            builder.spec_manifest() == (ManifestView {
                exports: self.spec_manifest().exports.push(name@),
                ..self.spec_manifest()
            }),
    {
        let mut builder = self;
        builder.manifest.exports.push(String::from_str(name));
        assert(texts(builder.manifest.exports@) =~= texts(self.manifest.exports@).push(name@));
        builder
    }

    /// Adds exports.
    pub fn exports(self, exports: Vec<String>) -> (builder: ManifestBuilder)
        ensures
            builder.spec_manifest() == (ManifestView {
                exports: self.spec_manifest().exports + texts(exports@),
                ..self.spec_manifest()
            }),
    {
        let mut builder = self;
        let mut added = exports;
        builder.manifest.exports.append(&mut added);
        assert(texts(builder.manifest.exports@) =~= texts(self.manifest.exports@) + texts(
            exports@,
        )) by {
            assert(builder.manifest.exports@ =~= self.manifest.exports@ + exports@);
        }
        builder
    }

    /// Adds a tag.
    pub fn tag(self, tag: &str) -> (builder: ManifestBuilder)
        ensures
            builder.spec_manifest() == (ManifestView {
                tags: self.spec_manifest().tags.push(tag@),
                ..self.spec_manifest()
            }),
    {
        let mut builder = self;
        builder.manifest.tags.push(String::from_str(tag));
        assert(texts(builder.manifest.tags@) =~= texts(self.manifest.tags@).push(tag@));
        builder
    }

    /// Sets a metadata entry.
    pub fn metadata(self, key: &str, value: &str) -> (builder: ManifestBuilder)
        ensures
            builder.spec_manifest() == (ManifestView {
                metadata: self.spec_manifest().metadata.insert(key@, value@),
                ..self.spec_manifest()
            }),
    {
        let mut builder = self;
        builder.manifest.metadata.insert(String::from_str(key), String::from_str(value));
        builder
    }

    /// Validates the manifest and hands it out.
    pub fn build(self) -> (built: Result<Manifest, Error>)
        ensures
            built is Ok <==> self.spec_manifest().valid(),
            built matches Ok(manifest) ==> manifest@ == self.spec_manifest(),
            built matches Err(e) ==> self.spec_manifest().rejected_with(e@),
    {
        match self.manifest.validate() {
            Ok(()) => Ok(self.manifest),
            Err(e) => Err(e),
        }
    }

    /// Hands the manifest out without validating it.
    pub fn build_unchecked(self) -> (manifest: Manifest)
        ensures
            manifest@ == self.spec_manifest(),
    {
        self.manifest
    }
}

} // verus!
