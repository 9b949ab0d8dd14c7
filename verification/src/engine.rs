//! The execution engine and the modules it loads.
//!
//! Compiling is the work of `wasmtime`. What is decided here is how the
//! engine is configured, what a module must export to be taken, and how a
//! refusal is reported.

use vstd::prelude::*;
use wasmtime::component::types::ComponentItem;
use wasmtime::component::Component;
use wasmtime::component::ComponentExportIndex;
use wasmtime::Config;
use wasmtime::Engine;

verus! {

#[verifier::external_type_specification]
#[verifier::external_body]
pub struct ExConfig(Config);

#[verifier::external_type_specification]
#[verifier::external_body]
pub struct ExEngine(Engine);

#[verifier::external_type_specification]
#[verifier::external_body]
pub struct ExComponent(Component);

#[verifier::external_type_specification]
#[verifier::external_body]
pub struct ExComponentExportIndex(ComponentExportIndex);

#[verifier::external_type_specification]
#[verifier::external_body]
pub struct ExError(wasmtime::Error);

/// Whether a configuration asks for fuel metering: what was last handed to
/// `Config::consume_fuel`.
pub uninterp spec fn fuel_asked(config: Config) -> bool;

/// Whether a configuration asks for component semantics: what was last
/// handed to `Config::wasm_component_model`.
pub uninterp spec fn components_asked(config: Config) -> bool;

/// Whether a configuration asks for asynchronous invocation: what was last
/// handed to `Config::async_support`.
pub uninterp spec fn async_asked(config: Config) -> bool;

/// `Engine::config`: the configuration that an engine is using.
pub uninterp spec fn engine_config(engine: Engine) -> Config;

/// Whether `component` is what `Component::from_binary` made of `binary` on
/// `engine`.
pub uninterp spec fn compiled_of(engine: Engine, binary: Seq<u8>, component: Component) -> bool;

/// `Config::new`: the engine's default configuration. Nothing is claimed of
/// it.
#[verifier::external_body]
fn config_new() -> (config: Config) {
    Config::new()
}

/// `Config::consume_fuel`: switches fuel metering on or off and leaves the
/// other two switches as they were.
#[verifier::external_body]
fn config_consume_fuel(config: &mut Config, enable: bool)
    ensures
        fuel_asked(*final(config)) == enable,
        components_asked(*final(config)) == components_asked(*old(config)),
        async_asked(*final(config)) == async_asked(*old(config)),
{
    config.consume_fuel(enable);
}

/// `Config::wasm_component_model`: switches component semantics on or off
/// and leaves the other two switches as they were.
#[verifier::external_body]
fn config_wasm_component_model(config: &mut Config, enable: bool)
    ensures
        components_asked(*final(config)) == enable,
        fuel_asked(*final(config)) == fuel_asked(*old(config)),
        async_asked(*final(config)) == async_asked(*old(config)),
{
    config.wasm_component_model(enable);
}

/// `Config::async_support`: switches asynchronous invocation on or off and
/// leaves the other two switches as they were.
#[verifier::external_body]
fn config_async_support(config: &mut Config, enable: bool)
    ensures
        async_asked(*final(config)) == enable,
        fuel_asked(*final(config)) == fuel_asked(*old(config)),
        components_asked(*final(config)) == components_asked(*old(config)),
{
    config.async_support(enable);
}

/// `Engine::new`: an engine for a configuration, or the reason why there is
/// none. An engine that is made uses the configuration with its three
/// switches as they were handed in. When there is an engine is not stated.
#[verifier::external_body]
fn engine_new(config: &Config) -> (engine: Result<Engine, wasmtime::Error>)
    ensures
        engine is Ok ==> fuel_asked(engine_config(engine->Ok_0)) == fuel_asked(*config),
        engine is Ok ==> components_asked(engine_config(engine->Ok_0)) == components_asked(
            *config,
        ),
        engine is Ok ==> async_asked(engine_config(engine->Ok_0)) == async_asked(*config),
{
    Engine::new(config)
}

/// `Component::from_binary`: the compiled form of a binary, or the reason why
/// it was refused. What comes back compiled was made of this binary on this
/// engine. Which binaries compile is not stated.
#[verifier::external_body]
fn component_from_binary(engine: &Engine, binary: &[u8]) -> (component: Result<
    Component,
    wasmtime::Error,
>)
    ensures
        component is Ok ==> compiled_of(*engine, binary@, component->Ok_0),
{
    Component::from_binary(engine, binary)
}

/// The kinds of thing that a component can export.
#[derive(Clone, Copy, Debug, PartialEq, Eq, Structural)]
pub enum ExportKind {
    ComponentFunc,
    CoreFunc,
    Module,
    Component,
    ComponentInstance,
    Type,
    Resource,
}

/// What `Component::export_index` finds in `component` under `name`, at the
/// root of the component or inside the exported instance `parent`: the kind
/// and the place of the export, if there is one. The lookup reads the
/// component and nothing else, so it finds the same whenever it is asked the
/// same.
pub uninterp spec fn export_index_of(
    component: Component,
    parent: Option<ComponentExportIndex>,
    name: Seq<char>,
) -> Option<(ExportKind, ComponentExportIndex)>;

/// `Component::export_index`: the kind and the place of the export `name`,
/// at the root of the component or inside the exported instance `parent`, if
/// there is such an export. Of the export's type only its kind is kept.
#[verifier::external_body]
fn component_export_index(
    component: &Component,
    parent: Option<&ComponentExportIndex>,
    name: &str,
) -> (found: Option<(ExportKind, ComponentExportIndex)>)
    ensures
        found == export_index_of(
            *component,
            match parent {
                Some(place) => Some(*place),
                None => None,
            },
            name@,
        ),
{
    let (item, index) = component.export_index(parent, name)?;
    let kind = match item {
        ComponentItem::ComponentFunc(_) => ExportKind::ComponentFunc,
        ComponentItem::CoreFunc(_) => ExportKind::CoreFunc,
        ComponentItem::Module(_) => ExportKind::Module,
        ComponentItem::Component(_) => ExportKind::Component,
        ComponentItem::ComponentInstance(_) => ExportKind::ComponentInstance,
        ComponentItem::Type(_) => ExportKind::Type,
        ComponentItem::Resource(_) => ExportKind::Resource,
    };
    Some((kind, index))
}

/// The text of a `wasmtime::Error`, as its `Display` gives it. Nothing is
/// claimed of the text.
#[verifier::external_body]
fn error_text(error: &wasmtime::Error) -> (text: String) {
    error.to_string()
}

/// The interface that a command exports.
pub open spec fn run_interface() -> Seq<char> {
    "wasi:cli/run@0.2.2"@
}

/// The entry point inside that interface.
pub open spec fn run_function() -> Seq<char> {
    "run"@
}

/// Whether a component exports the entry point as a function inside the
/// exported instance at `interface`.
pub open spec fn has_run_function(component: Component, interface: ComponentExportIndex) -> bool {
    match export_index_of(component, Some(interface), run_function()) {
        Some(found) => found.0 == ExportKind::ComponentFunc,
        None => false,
    }
}

/// Whether a component is a command: it exports the run interface, and
/// inside it the entry point, as a function.
pub open spec fn is_command(component: Component) -> bool {
    match export_index_of(component, None, run_interface()) {
        Some(interface) => has_run_function(component, interface.1),
        None => false,
    }
}

/// Whether an engine has the three switches as `settings` has them.
pub open spec fn configured(engine: Engine, settings: EngineSettings) -> bool {
    &&& fuel_asked(engine_config(engine)) == settings.consume_fuel
    &&& components_asked(engine_config(engine)) == settings.component_model
    &&& async_asked(engine_config(engine)) == settings.async_support
}

/// What a component that is no command lacks first: the run interface, or
/// the entry point inside it.
pub open spec fn missing_export(component: Component) -> Seq<char> {
    if export_index_of(component, None, run_interface()) is Some {
        run_function()
    } else {
        run_interface()
    }
}

/// What an engine is asked to do when it is made.
#[derive(Clone, Copy, Debug, PartialEq, Eq, Structural)]
pub struct EngineSettings {
    /// Meter the guest's work against a budget.
    pub consume_fuel: bool,
    /// Take components, not bare modules.
    pub component_model: bool,
    /// Let an invocation be awaited.
    pub async_support: bool,
}

impl EngineSettings {
    /// The settings of the harness: all three switched on.
    pub fn harness() -> (settings: Self)
        ensures
            settings == (EngineSettings {
                consume_fuel: true,
                component_model: true,
                async_support: true,
            }),
    {
        EngineSettings { consume_fuel: true, component_model: true, async_support: true }
    }
}

/// Why no engine could be made.
#[derive(Clone, Debug, PartialEq, Eq)]
pub struct EngineError {
    /// The engine's own words.
    pub detail: String,
}

/// Why a binary was not taken as a module.
#[derive(Clone, Debug, PartialEq, Eq)]
pub enum LoadError {
    /// The binary is no component that the engine can compile.
    Malformed { detail: String },
    /// The component does not export the entry point of a command.
    InterfaceMismatch { missing: String },
}

/// Decides from what was found among a component's exports whether it is a
/// command: it is one when it exports the run interface and, as a function,
/// the entry point inside it. Otherwise the first of the two that is missing
/// is named.
pub fn check_entry_point(has_interface: bool, has_function: bool) -> (result: Result<
    (),
    LoadError,
>)
    ensures
        result is Ok <==> has_interface && has_function,
        match result {
            Ok(()) => true,
            Err(LoadError::InterfaceMismatch { missing }) => missing@ == if has_interface {
                run_function()
            } else {
                run_interface()
            },
            Err(LoadError::Malformed { .. }) => false,
        },
{
    if !has_interface {
        Err(LoadError::InterfaceMismatch { missing: "wasi:cli/run@0.2.2".to_string() })
    } else if !has_function {
        Err(LoadError::InterfaceMismatch { missing: "run".to_string() })
    } else {
        Ok(())
    }
}

/// A module that was compiled and found to be a command. It is never
/// changed again and may serve any number of instances.
pub struct CompiledModule {
    component: Component,
}

impl CompiledModule {
    #[verifier::type_invariant]
    closed spec fn inv(&self) -> bool {
        is_command(self.component)
    }

    /// The compiled component.
    pub closed spec fn spec_component(&self) -> Component {
        self.component
    }

    /// Takes a compiled component as a module if it is a command, and says
    /// what it lacks if it is none.
    pub fn from_component(component: Component) -> (result: Result<CompiledModule, LoadError>)
        ensures
            result is Ok <==> is_command(component),
            match result {
                Ok(module) => module.spec_component() == component,
                Err(LoadError::InterfaceMismatch { missing }) => missing@ == missing_export(
                    component,
                ),
                Err(LoadError::Malformed { .. }) => false,
            },
    {
        let interface = component_export_index(&component, None, "wasi:cli/run@0.2.2");
        let has_function = match &interface {
            Some(found) => match component_export_index(&component, Some(&found.1), "run") {
                Some(entry) => entry.0 == ExportKind::ComponentFunc,
                None => false,
            },
            None => false,
        };
        match check_entry_point(interface.is_some(), has_function) {
            Ok(()) => Ok(CompiledModule { component }),
            Err(error) => Err(error),
        }
    }

    /// The compiled component, for the engine to instantiate. It is a
    /// command.
    pub fn component(&self) -> (component: &Component)
        ensures
            *component == self.spec_component(),
            is_command(*component),
    {
        proof {
            use_type_invariant(self);
        }
        &self.component
    }
}

/// The engine that compiles and runs modules.
pub struct ExecutionEngine {
    engine: Engine,
    settings: EngineSettings,
}

impl ExecutionEngine {
    /// The settings that are recorded with the engine.
    pub closed spec fn spec_settings(&self) -> EngineSettings {
        self.settings
    }

    /// Makes the engine of the harness: one that meters fuel, takes
    /// components and lets invocations be awaited. Whether there is such an
    /// engine on this machine is for `wasmtime` to say.
    pub fn new() -> (result: Result<Self, EngineError>)
        ensures
            result is Ok ==> result->Ok_0.spec_settings() == (EngineSettings {
                consume_fuel: true,
                component_model: true,
                async_support: true,
            }),
            result is Ok ==> fuel_asked(engine_config(result->Ok_0.spec_raw())),
            result is Ok ==> components_asked(engine_config(result->Ok_0.spec_raw())),
            result is Ok ==> async_asked(engine_config(result->Ok_0.spec_raw())),
    {
        Self::with_settings(EngineSettings::harness())
    }

    /// Makes an engine with the three switches as `settings` has them.
    /// Whether there is such an engine on this machine is for `wasmtime` to
    /// say.
    pub fn with_settings(settings: EngineSettings) -> (result: Result<Self, EngineError>)
        ensures
            result is Ok ==> result->Ok_0.spec_settings() == settings,
            result is Ok ==> configured(result->Ok_0.spec_raw(), settings),
    {
        let mut config = config_new();
        config_consume_fuel(&mut config, settings.consume_fuel);
        config_wasm_component_model(&mut config, settings.component_model);
        config_async_support(&mut config, settings.async_support);
        let answer = match engine_new(&config) {
            Ok(engine) => Ok(engine),
            Err(error) => Err(error_text(&error)),
        };
        Self::from_answer(settings, answer)
    }

    /// What making an engine comes to, given the answer of `wasmtime`: the
    /// engine it made, recorded with `settings`, or its refusal in its own
    /// words. That the engine has these settings is known of one that
    /// `with_settings` made; here it is the caller's word.
    pub fn from_answer(settings: EngineSettings, answer: Result<Engine, String>) -> (result: Result<
        Self,
        EngineError,
    >)
        ensures
            match answer {
                Ok(engine) => result is Ok && result->Ok_0.spec_raw() == engine
                    && result->Ok_0.spec_settings() == settings,
                Err(text) => result is Err && result->Err_0.detail == text,
            },
    {
        match answer {
            Ok(engine) => Ok(ExecutionEngine { engine, settings }),
            Err(detail) => Err(EngineError { detail }),
        }
    }

    /// The settings that are recorded with the engine.
    pub fn settings(&self) -> (settings: EngineSettings)
        ensures
            settings == self.spec_settings(),
    {
        self.settings
    }

    /// The engine itself.
    pub closed spec fn spec_raw(&self) -> Engine {
        self.engine
    }

    /// The engine itself, for the caller to drive.
    pub fn raw(&self) -> (engine: &Engine)
        ensures
            *engine == self.spec_raw(),
    {
        &self.engine
    }

    /// Compiles `binary` on this engine and takes what comes of it as a
    /// module if it is a command. Whether a binary compiles is for the engine
    /// to say. A module that is returned was compiled of `binary` and is a
    /// command; a compiled binary that is refused is none and is told what it
    /// lacks.
    pub fn load(&self, binary: &[u8]) -> (result: Result<CompiledModule, LoadError>)
        ensures
            match result {
                Ok(module) => {
                    &&& compiled_of(self.spec_raw(), binary@, module.spec_component())
                    &&& is_command(module.spec_component())
                },
                Err(LoadError::InterfaceMismatch { missing }) => {
                    &&& missing@ == run_interface() || missing@ == run_function()
                    &&& exists|compiled: Component| #[trigger]
                        compiled_of(self.spec_raw(), binary@, compiled) && !is_command(compiled)
                            && missing@ == missing_export(compiled)
                },
                Err(LoadError::Malformed { .. }) => true,
            },
    {
        match component_from_binary(&self.engine, binary) {
            Ok(component) => {
                let ghost compiled = component;
                let result = CompiledModule::from_component(component);
                assert(compiled_of(self.spec_raw(), binary@, compiled));
                result
            },
            Err(error) => Err(LoadError::Malformed { detail: error_text(&error) }),
        }
    }
}

} // verus!
