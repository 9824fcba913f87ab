//! The scripting engine and its capability model, as the library sees them:
//! opaque engine values, capability names, and the calls into `fusabi_host`.
//!
//! Every contract in this file is believed, not proved: it states what the
//! source of `fusabi_host` shows of the function that the item calls.

use vstd::prelude::*;
use fusabi_host::Error as HostError;

verus! {

/// The engine of a plugin, an opaque value.
#[verifier::external_type_specification]
#[verifier::external_body]
pub struct ExEngine(fusabi_host::Engine);

/// The configuration of an engine. Of what it holds the library reads the
/// granted capabilities, through [`config_grants`].
#[verifier::external_type_specification]
#[verifier::external_body]
pub struct ExEngineConfig(fusabi_host::EngineConfig);

/// A value that passes between host and plugin, an opaque value.
#[verifier::external_type_specification]
#[verifier::external_body]
pub struct ExValue(fusabi_host::Value);

/// The options of a compilation, an opaque value.
#[verifier::external_type_specification]
#[verifier::external_body]
pub struct ExCompileOptions(fusabi_host::CompileOptions);

/// Whether a text is the name of a capability of the host.
pub open spec fn known_capability(name: Seq<char>) -> bool {
    ||| name == "fs:read"@
    ||| name == "fs:write"@
    ||| name == "fs:execute"@
    ||| name == "net:request"@
    ||| name == "net:listen"@
    ||| name == "process:exec"@
    ||| name == "env:read"@
    ||| name == "env:write"@
    ||| name == "time:read"@
    ||| name == "random"@
    ||| name == "stdin:read"@
    ||| name == "stdout:write"@
    ||| name == "stderr:write"@
    ||| name == "metrics"@
    ||| name == "logging"@
    ||| name == "async:spawn"@
    ||| name == "crypto"@
    ||| name == "serialize"@
}

/// The names of the capabilities that an engine configuration grants.
pub uninterp spec fn config_grants(config: fusabi_host::EngineConfig) -> Set<Seq<char>>;

/// The names of the capabilities that an engine was built with: those of the
/// configuration that `fusabi_host::Engine::new` took and keeps.
pub uninterp spec fn engine_grants(engine: fusabi_host::Engine) -> Set<Seq<char>>;

/// The expressions that an engine was asked to run since it was built, in
/// the order of the calls of `fusabi_host::Engine::execute` on it. The engine
/// keeps no such list; the name stands for the history of these calls.
pub uninterp spec fn engine_ran(engine: fusabi_host::Engine) -> Seq<Seq<char>>;

/// No expression.
pub open spec fn nothing_ran() -> Seq<Seq<char>> {
    Seq::empty()
}

/// The bytecode that the engine's compiler makes of a source text under
/// given options, where it makes any: what `fusabi_host::compile_source`
/// gives as the bytecode of its result.
pub uninterp spec fn compiled(source: Seq<char>, options: fusabi_host::CompileOptions) -> Option<
    Seq<u8>,
>;

/// Whether the compiler makes the same of every source text under either
/// of two options.
pub open spec fn compiles_alike(
    a: fusabi_host::CompileOptions,
    b: fusabi_host::CompileOptions,
) -> bool {
    forall|source: Seq<char>| #[trigger] compiled(source, a) == compiled(source, b)
}

/// The outcome of a compilation by its bytecode.
pub open spec fn bytecode_of(outcome: Result<Vec<u8>, HostError>) -> Option<Seq<u8>> {
    match outcome {
        Ok(bytes) => Some(bytes@),
        Err(_) => None,
    }
}

/// The compiler version that the engine reads from every bytecode artifact
/// whose header is valid.
pub open spec fn bytecode_compiler_version() -> Seq<char> {
    "0.18.0"@
}

/// The capabilities of the default engine configuration.
pub open spec fn default_grants() -> Set<Seq<char>> {
    set!["time:read"@, "random"@, "stdout:write"@, "stderr:write"@, "logging"@, "serialize"@]
}

/// Whether a bytecode artifact passes the engine's header check: at least
/// sixteen bytes, the magic number `FZB\0`, and a format version of at most 1.
pub open spec fn bytecode_header_valid(bytes: Seq<u8>) -> bool {
    &&& bytes.len() >= 16
    &&& bytes[0] == 0x46
    &&& bytes[1] == 0x5a
    &&& bytes[2] == 0x42
    &&& bytes[3] == 0
    &&& bytes[4] <= 1
}

/// Asks `fusabi_host::Capability::from_name` whether the name resolves. The
/// function matches the name against the eighteen capability names.
#[verifier::external_body]
pub(crate) fn capability_known(name: &str) -> (known: bool)
    ensures
        known == known_capability(name@),
{
    fusabi_host::Capability::from_name(name).is_some()
}

/// Resolves the name with `fusabi_host::Capability::from_name` and asks
/// `fusabi_host::Capabilities::has` whether the configuration grants the
/// capability. Gives nothing for a name that resolves to no capability.
#[verifier::external_body]
pub(crate) fn config_has(config: &fusabi_host::EngineConfig, name: &str) -> (granted: Option<bool>)
    ensures
        granted == if known_capability(name@) {
            Some(config_grants(*config).contains(name@))
        } else {
            None
        },
{
    fusabi_host::Capability::from_name(name).map(|capability| config.capabilities.has(capability))
}

/// Resolves the name with `fusabi_host::Capability::from_name` and grants the
/// capability with `fusabi_host::Capabilities::grant`, which inserts it into
/// the granted set. Gives nothing, and grants nothing, for a name that
/// resolves to no capability.
#[verifier::external_body]
pub(crate) fn config_grant(config: &mut fusabi_host::EngineConfig, name: &str) -> (granted: Option<
    (),
>)
    ensures
        granted is Some <==> known_capability(name@),
        config_grants(*final(config)) == if known_capability(name@) {
            config_grants(*old(config)).insert(name@)
        } else {
            config_grants(*old(config))
        },
{
    fusabi_host::Capability::from_name(name).map(|capability| config.capabilities.grant(capability))
}

/// Clones an engine configuration with the `Clone` that `fusabi_host`
/// derives for it; the copy grants what the configuration grants.
#[verifier::external_body]
pub(crate) fn config_clone(config: &fusabi_host::EngineConfig) -> (copy: fusabi_host::EngineConfig)
    ensures
        config_grants(copy) == config_grants(*config),
{
    config.clone()
}

/// `fusabi_host::EngineConfig::default()`, which grants the safe defaults.
#[verifier::external_body]
pub(crate) fn default_engine_config() -> (config: fusabi_host::EngineConfig)
    ensures
        config_grants(config) == default_grants(),
{
    fusabi_host::EngineConfig::default()
}

/// `fusabi_host::EngineConfig::strict()`, which grants nothing.
#[verifier::external_body]
pub(crate) fn strict_engine_config() -> (config: fusabi_host::EngineConfig)
    ensures
        config_grants(config) == Set::<Seq<char>>::empty(),
{
    fusabi_host::EngineConfig::strict()
}

/// `fusabi_host::CompileOptions::default()`.
#[verifier::external_body]
pub(crate) fn default_compile_options() -> fusabi_host::CompileOptions {
    fusabi_host::CompileOptions::default()
}

/// `fusabi_host::CompileOptions::production()`.
#[verifier::external_body]
pub(crate) fn production_compile_options() -> fusabi_host::CompileOptions {
    fusabi_host::CompileOptions::production()
}

/// Clones compile options with the `Clone` that `fusabi_host` derives: the
/// copy holds what the options hold, so that the compiler makes the same of
/// every text under either.
#[verifier::external_body]
pub(crate) fn compile_options_clone(options: &fusabi_host::CompileOptions) -> (copy:
    fusabi_host::CompileOptions)
    ensures
        compiles_alike(copy, *options),
{
    options.clone()
}

/// Builds an engine with `fusabi_host::Engine::new`. Whether that succeeds
/// depends on the machine (it may create a directory), so nothing is claimed
/// of success. An engine that is built keeps the configuration, and has run
/// nothing yet.
#[verifier::external_body]
pub(crate) fn engine_new(config: fusabi_host::EngineConfig) -> (built: Result<
    fusabi_host::Engine,
    HostError,
>)
    ensures
        built matches Ok(engine) ==> engine_grants(engine) == config_grants(config),
        built matches Ok(engine) ==> engine_ran(engine) == nothing_ran(),
{
    fusabi_host::Engine::new(config)
}

/// Runs an expression with `fusabi_host::Engine::execute`. The engine is taken
/// exclusively: a run resets its execution context. Nothing is claimed of the
/// outcome. The engine has then been asked to run this expression after those
/// before it, and keeps its configuration. The expression must end in a
/// closing bracket, as every invocation does: the engine adds two integers
/// that stand alone around a plus sign without checking the sum.
#[verifier::external_body]
pub(crate) fn engine_execute(engine: &mut fusabi_host::Engine, expression: &str) -> (outcome:
    Result<fusabi_host::Value, HostError>)
    requires
        expression@.len() > 0,
        expression@.last() == ')',
    ensures
        engine_ran(*final(engine)) == engine_ran(*old(engine)).push(expression@),
        engine_grants(*final(engine)) == engine_grants(*old(engine)),
{
    engine.execute(expression)
}

/// The textual form of a value, as `fusabi_host::Value` displays it. The text
/// of a map depends on the order in which its hash map is walked, so nothing
/// is claimed of it.
#[verifier::external_body]
pub(crate) fn value_text(value: &fusabi_host::Value) -> String {
    value.to_string()
}

/// Compiles source text with `fusabi_host::compile_source` and hands out the
/// bytecode of the result. Whether the text compiles, and to which bytecode,
/// is fixed by the text and the options; the contract only names it.
#[verifier::external_body]
pub(crate) fn compile_source(source: &str, options: &fusabi_host::CompileOptions) -> (outcome:
    Result<Vec<u8>, HostError>)
    ensures
        bytecode_of(outcome) == compiled(source@, *options),
{
    fusabi_host::compile_source(source, options).map(|compiled| compiled.bytecode)
}

/// Checks a bytecode artifact with `fusabi_host::validate_bytecode` and hands
/// out the compiler version of its metadata. The function accepts exactly the
/// artifacts whose header is valid, and gives the same compiler version for
/// each of them.
#[verifier::external_body]
pub(crate) fn validate_bytecode(bytecode: &[u8]) -> (checked: Result<String, HostError>)
    ensures
        checked is Ok <==> bytecode_header_valid(bytecode@),
        checked matches Ok(version) ==> version@ == bytecode_compiler_version(),
{
    fusabi_host::validate_bytecode(bytecode).map(|metadata| metadata.compiler_version)
}

} // verus!
