//! The module registry: named source units evaluated once and placed where
//! the guest's `require` finds them, and a second registry of raw source text.

use vstd::prelude::*;
use crate::aos::{lua_program_handle, lua_src_default, lua_src_eval, lua_src_pretty};
use crate::lua::{home_of_lua, home_of_table, chunk_ran, cleared, create_eval_callback, create_eval_module, create_table, eval_function, eval_table, evaluated_function, evaluated_table, exec_chunk, exec_source, get_function, get_table, globals, got_function, got_table, is_globals, made_eval_callback, made_eval_module, made_table, set_function, set_nil, set_string, set_table, source_ran, stored_function, stored_string, stored_table};

verus! {

/// What a module's source must evaluate to.
#[derive(Clone, Copy, Debug, PartialEq, Eq, Structural)]
pub enum LoadType {
    Function,
    Table,
}

/// The step at which a registration failed.
#[derive(Clone, Copy, Debug, PartialEq, Eq, Structural)]
pub enum LoadStage {
    /// A registry table could not be reached.
    Lookup,
    /// The interpreter could not make a value that the entry needs.
    Create,
    /// The source did not evaluate to a value of the expected kind.
    Evaluate,
    /// The registry did not take the entry.
    Store,
}

/// A failed registration.
#[derive(Clone, Debug)]
pub struct LoadError {
    pub stage: LoadStage,
    /// The interpreter's account of the failure.
    pub message: String,
}

/// That `message` is the text in which the interpreter describes `cause`.
pub open spec fn describes(cause: mlua::Error, message: String) -> bool {
    vstd::string::to_string_from_display_ensures::<mlua::Error>(&cause, message)
}

/// That `result` is the failure at `stage` whose message describes `cause`.
pub open spec fn fails_with<T>(result: Result<T, LoadError>, stage: LoadStage, cause: mlua::Error) -> bool {
    result matches Err(error) && error.stage == stage && describes(cause, error.message)
}

/// The result of a registration whose last call came back with `last`:
/// success where the call succeeded, and otherwise the failure at `stage`
/// that describes the call's error.
pub open spec fn ends_with(
    result: Result<(), LoadError>,
    stage: LoadStage,
    last: Result<(), mlua::Error>,
) -> bool {
    match last {
        Ok(_) => result is Ok,
        Err(cause) => fails_with(result, stage, cause),
    }
}

pub(crate) fn failed(stage: LoadStage, cause: mlua::Error) -> (error: LoadError)
    ensures
        error.stage == stage,
        describes(cause, error.message),
{
    LoadError { stage, message: cause.to_string() }
}

/// What a lookup of `package.loaded` in `lua` gave: the table that the
/// table `package` of the globals holds under `loaded`, or the failure of
/// the first of the two lookups that failed.
pub open spec fn loaded_found<'lua>(
    lua: &'lua mlua::Lua,
    result: Result<mlua::Table<'lua>, LoadError>,
) -> bool {
    exists|globals: mlua::Table<'lua>, package: Result<mlua::Table<'lua>, mlua::Error>|
        is_globals(lua, globals) && got_table(&globals, "package"@, package) && match package {
            Err(cause) => fails_with(result, LoadStage::Lookup, cause),
            Ok(package) => exists|loaded: Result<mlua::Table<'lua>, mlua::Error>|
                got_table(&package, "loaded"@, loaded) && match loaded {
                    Ok(table) => result == Ok::<mlua::Table<'lua>, LoadError>(table),
                    Err(cause) => fails_with(result, LoadStage::Lookup, cause),
                },
        }
}

/// What the registration of a module gave. The registry is looked up; the
/// source is evaluated under its name, for a value of the kind asked for;
/// the registry is told to hold the value under the name. The result is the
/// failure of the first of these calls that failed, and success where none
/// did.
pub open spec fn module_registered<'lua>(
    lua: &'lua mlua::Lua,
    name: Seq<char>,
    content: Seq<char>,
    load_type: LoadType,
    result: Result<(), LoadError>,
) -> bool {
    exists|lookup: Result<mlua::Table<'lua>, LoadError>|
        loaded_found(lua, lookup) && match lookup {
            Err(error) => result == Err::<(), LoadError>(error),
            Ok(loaded) => match load_type {
                LoadType::Function => exists|value: Result<mlua::Function<'lua>, mlua::Error>|
                    evaluated_function(lua, name, content, value) && match value {
                        Err(cause) => fails_with(result, LoadStage::Evaluate, cause),
                        Ok(function) => exists|stored: Result<(), mlua::Error>|
                            stored_function(&loaded, name, function, stored) && ends_with(
                                result,
                                LoadStage::Store,
                                stored,
                            ),
                    },
                LoadType::Table => exists|value: Result<mlua::Table<'lua>, mlua::Error>|
                    evaluated_table(lua, name, content, value) && match value {
                        Err(cause) => fails_with(result, LoadStage::Evaluate, cause),
                        Ok(table) => exists|stored: Result<(), mlua::Error>|
                            stored_table(&loaded, name, table, stored) && ends_with(
                                result,
                                LoadStage::Store,
                                stored,
                            ),
                    },
            },
        }
}

/// Evaluates `content` under the chunk name `name` and registers the value
/// under `name` in `package.loaded`. The value must be of the kind that
/// `load_type` names. Registering a name again replaces its entry.
pub fn set_loaded(lua: &mlua::Lua, name: &str, content: &str, load_type: LoadType) -> (result:
    Result<(), LoadError>)
    ensures
        module_registered(lua, name@, content@, load_type, result),
        result matches Err(error) ==> error.stage != LoadStage::Create,
{
    let loaded = match loaded_modules(lua) {
        Ok(table) => table,
        Err(error) => { return Err(error); },
    };
    match load_type {
        LoadType::Function => {
            match eval_function(lua, name, content) {
                Ok(value) => finish(LoadStage::Store, set_function(&loaded, name, value)),
                Err(cause) => Err(failed(LoadStage::Evaluate, cause)),
            }
        },
        LoadType::Table => {
            match eval_table(lua, name, content) {
                Ok(value) => finish(LoadStage::Store, set_table(&loaded, name, value)),
                Err(cause) => Err(failed(LoadStage::Evaluate, cause)),
            }
        },
    }
}

/// Closes a registration on the outcome of its last call.
pub(crate) fn finish(stage: LoadStage, last: Result<(), mlua::Error>) -> (result: Result<(), LoadError>)
    ensures
        ends_with(result, stage, last),
        result matches Err(error) ==> error.stage == stage,
{
    match last {
        Ok(()) => Ok(()),
        Err(cause) => Err(failed(stage, cause)),
    }
}

/// How the move of a global ends once the registry has answered `stored`:
/// with the failure of that call, or with the outcome of the call that
/// clears the global.
pub open spec fn moved<'lua>(
    globals: mlua::Table<'lua>,
    name: Seq<char>,
    stored: Result<(), mlua::Error>,
    result: Result<(), LoadError>,
) -> bool {
    match stored {
        Err(cause) => fails_with(result, LoadStage::Store, cause),
        Ok(_) => exists|dropped: Result<(), mlua::Error>|
            cleared(&globals, name, dropped) && ends_with(result, LoadStage::Store, dropped),
    }
}

/// What the registration of a unit that defines a global gave. The source
/// is run; the global of that name is looked up, for a value of the kind
/// asked for; `loaded` is told to hold the value under the name; the global
/// is cleared. The result is the failure of the first of these calls that
/// failed, and success where none did.
pub open spec fn global_registered<'lua>(
    lua: &'lua mlua::Lua,
    loaded: &mlua::Table<'lua>,
    name: Seq<char>,
    content: Seq<char>,
    load_type: LoadType,
    result: Result<(), LoadError>,
) -> bool {
    exists|done: Result<(), mlua::Error>|
        source_ran(lua, content, done) && match done {
            Err(cause) => fails_with(result, LoadStage::Evaluate, cause),
            Ok(_) => exists|globals: mlua::Table<'lua>|
                is_globals(lua, globals) && match load_type {
                    LoadType::Function => exists|found: Result<mlua::Function<'lua>, mlua::Error>|
                        got_function(&globals, name, found) && match found {
                            Err(cause) => fails_with(result, LoadStage::Evaluate, cause),
                            Ok(value) => exists|stored: Result<(), mlua::Error>|
                                stored_function(loaded, name, value, stored) && moved(
                                    globals,
                                    name,
                                    stored,
                                    result,
                                ),
                        },
                    LoadType::Table => exists|found: Result<mlua::Table<'lua>, mlua::Error>|
                        got_table(&globals, name, found) && match found {
                            Err(cause) => fails_with(result, LoadStage::Evaluate, cause),
                            Ok(value) => exists|stored: Result<(), mlua::Error>|
                                stored_table(loaded, name, value, stored) && moved(
                                    globals,
                                    name,
                                    stored,
                                    result,
                                ),
                        },
                },
        }
}

/// Clears the global `name` once the registry has taken its value.
fn clear_moved<'lua>(globals: &mlua::Table<'lua>, name: &str, stored: Result<(), mlua::Error>) -> (result:
    Result<(), LoadError>)
    ensures
        moved(*globals, name@, stored, result),
        result matches Err(error) ==> error.stage == LoadStage::Store,
{
    match stored {
        Ok(()) => finish(LoadStage::Store, set_nil(globals, name)),
        Err(cause) => Err(failed(LoadStage::Store, cause)),
    }
}

/// Runs `content`, a unit that defines the global `name`, and moves that
/// global to `loaded` under the same name: afterwards the global is cleared.
/// The global must be of the kind that `load_type` names. The registry
/// `loaded` must be a table of the interpreter `lua`: a table does not take
/// the values of another interpreter.
pub fn set_global<'lua>(
    lua: &'lua mlua::Lua,
    loaded: &mlua::Table<'lua>,
    name: &str,
    content: &str,
    load_type: LoadType,
) -> (result: Result<(), LoadError>)
    requires
        home_of_table(loaded) == home_of_lua(lua),
    ensures
        global_registered(lua, loaded, name@, content@, load_type, result),
        result matches Err(error) ==> error.stage == LoadStage::Evaluate || error.stage
            == LoadStage::Store,
{
    match exec_source(lua, content) {
        Ok(()) => {},
        Err(cause) => { return Err(failed(LoadStage::Evaluate, cause)); },
    }
    let globals = globals(lua);
    match load_type {
        LoadType::Function => {
            match get_function(&globals, name) {
                Ok(value) => clear_moved(&globals, name, set_function(loaded, name, value)),
                Err(cause) => Err(failed(LoadStage::Evaluate, cause)),
            }
        },
        LoadType::Table => {
            match get_table(&globals, name) {
                Ok(value) => clear_moved(&globals, name, set_table(loaded, name, value)),
                Err(cause) => Err(failed(LoadStage::Evaluate, cause)),
            }
        },
    }
}

/// What a run of `content` as an unnamed chunk gave: success where the run
/// ended well, and otherwise the failure in evaluation that describes its
/// error.
pub open spec fn source_run(lua: &mlua::Lua, content: Seq<char>, result: Result<(), LoadError>) -> bool {
    exists|done: Result<(), mlua::Error>|
        source_ran(lua, content, done) && ends_with(result, LoadStage::Evaluate, done)
}

/// Runs `content` as an unnamed chunk and registers nothing.
pub fn run(lua: &mlua::Lua, content: &str) -> (result: Result<(), LoadError>)
    ensures
        source_run(lua, content@, result),
        result matches Err(error) ==> error.stage == LoadStage::Evaluate,
{
    finish(LoadStage::Evaluate, exec_source(lua, content))
}

/// The table `package.loaded`, in which `require` looks modules up.
pub fn loaded_modules<'lua>(lua: &'lua mlua::Lua) -> (result: Result<
    mlua::Table<'lua>,
    LoadError,
>)
    ensures
        loaded_found(lua, result),
        result matches Ok(loaded) ==> home_of_table(&loaded) == home_of_lua(lua),
        result matches Err(error) ==> error.stage == LoadStage::Lookup,
{
    let package = match get_table(&globals(lua), "package") {
        Ok(table) => table,
        Err(cause) => { return Err(failed(LoadStage::Lookup, cause)); },
    };
    match get_table(&package, "loaded") {
        Ok(table) => Ok(table),
        Err(cause) => Err(failed(LoadStage::Lookup, cause)),
    }
}

/// What the storing of a bundle gave. The global table `lua_bundle` is
/// looked up and told to hold the text under the name. The result is the
/// failure of the first of the two calls that failed, and success where
/// none did.
pub open spec fn bundle_stored<'lua>(
    lua: &'lua mlua::Lua,
    name: Seq<char>,
    content: Seq<char>,
    result: Result<(), LoadError>,
) -> bool {
    exists|globals: mlua::Table<'lua>, lookup: Result<mlua::Table<'lua>, mlua::Error>|
        is_globals(lua, globals) && got_table(&globals, "lua_bundle"@, lookup) && match lookup {
            Err(cause) => fails_with(result, LoadStage::Lookup, cause),
            Ok(bundle) => exists|stored: Result<(), mlua::Error>|
                stored_string(&bundle, name, content, stored) && ends_with(
                    result,
                    LoadStage::Store,
                    stored,
                ),
        }
}

/// Stores `content`, unevaluated, under `name` in the bundle registry, the
/// global table `lua_bundle`. Storing a name again replaces its text.
pub fn set_bundle(lua: &mlua::Lua, name: &str, content: &str) -> (result: Result<(), LoadError>)
    ensures
        bundle_stored(lua, name@, content@, result),
        result matches Err(error) ==> error.stage == LoadStage::Lookup || error.stage
            == LoadStage::Store,
{
    let bundle = match get_table(&globals(lua), "lua_bundle") {
        Ok(table) => table,
        Err(cause) => { return Err(failed(LoadStage::Lookup, cause)); },
    };
    finish(LoadStage::Store, set_string(&bundle, name, content))
}

/// What a run of `content` under the chunk name `name` gave: success where
/// the run ended well, and otherwise the failure in evaluation that
/// describes its error.
pub open spec fn script_run(
    lua: &mlua::Lua,
    name: Seq<char>,
    content: Seq<char>,
    result: Result<(), LoadError>,
) -> bool {
    exists|done: Result<(), mlua::Error>|
        chunk_ran(lua, name, content, done) && ends_with(result, LoadStage::Evaluate, done)
}

/// Runs `content` under the chunk name `name` and registers nothing.
pub fn exec(lua: &mlua::Lua, name: &str, content: &str) -> (result: Result<(), LoadError>)
    ensures
        script_run(lua, name@, content@, result),
        result matches Err(error) ==> error.stage == LoadStage::Evaluate,
{
    finish(LoadStage::Evaluate, exec_chunk(lua, name, content))
}

/// What the search for the bundle registry gave: the global table
/// `lua_bundle` where the globals hold one, and otherwise a new table, which
/// the globals are told to hold under that name and are then asked for. The
/// result is the table, or the failure of the first call that failed after
/// the first lookup.
pub open spec fn registry_ready<'lua>(
    lua: &'lua mlua::Lua,
    globals: mlua::Table<'lua>,
    result: Result<mlua::Table<'lua>, LoadError>,
) -> bool {
    exists|first: Result<mlua::Table<'lua>, mlua::Error>|
        got_table(&globals, "lua_bundle"@, first) && match first {
            Ok(bundle) => result == Ok::<mlua::Table<'lua>, LoadError>(bundle),
            Err(_) => exists|made: Result<mlua::Table<'lua>, mlua::Error>|
                made_table(lua, made) && match made {
                    Err(cause) => fails_with(result, LoadStage::Create, cause),
                    Ok(fresh) => exists|stored: Result<(), mlua::Error>|
                        stored_table(&globals, "lua_bundle"@, fresh, stored) && match stored {
                            Err(cause) => fails_with(result, LoadStage::Store, cause),
                            Ok(_) => exists|second: Result<mlua::Table<'lua>, mlua::Error>|
                                got_table(&globals, "lua_bundle"@, second) && match second {
                                    Ok(bundle) => result == Ok::<mlua::Table<'lua>, LoadError>(
                                        bundle,
                                    ),
                                    Err(cause) => fails_with(result, LoadStage::Lookup, cause),
                                },
                        },
                },
        }
}

/// What the installing of the evaluation callback gave: the callback is
/// made, and `bundle` is told to hold it under `.eval-cb`.
pub open spec fn callback_installed<'lua>(
    lua: &'lua mlua::Lua,
    bundle: mlua::Table<'lua>,
    result: Result<(), LoadError>,
) -> bool {
    exists|made: Result<mlua::Function<'lua>, mlua::Error>|
        made_eval_callback(lua, made) && match made {
            Err(cause) => fails_with(result, LoadStage::Create, cause),
            Ok(callback) => exists|stored: Result<(), mlua::Error>|
                stored_function(&bundle, ".eval-cb"@, callback, stored) && ends_with(
                    result,
                    LoadStage::Store,
                    stored,
                ),
        }
}

/// What the installing of the `.eval` module gave: `package.loaded` is
/// looked up, the module is made, and the registry is told to hold it under
/// `.eval`.
pub open spec fn module_installed<'lua>(lua: &'lua mlua::Lua, result: Result<(), LoadError>) -> bool {
    exists|lookup: Result<mlua::Table<'lua>, LoadError>|
        loaded_found(lua, lookup) && match lookup {
            Err(error) => result == Err::<(), LoadError>(error),
            Ok(loaded) => exists|made: Result<mlua::Function<'lua>, mlua::Error>|
                made_eval_module(lua, made) && match made {
                    Err(cause) => fails_with(result, LoadStage::Create, cause),
                    Ok(module) => exists|stored: Result<(), mlua::Error>|
                        stored_function(&loaded, ".eval"@, module, stored) && ends_with(
                            result,
                            LoadStage::Store,
                            stored,
                        ),
                },
        }
}

/// What the installing of evaluation on request gave: the bundle registry
/// is found or made, the callback is installed in it, and the module is
/// installed in `package.loaded`, in this order. The result is the failure
/// of the first part that failed, and success where none did.
pub open spec fn eval_installed<'lua>(lua: &'lua mlua::Lua, result: Result<(), LoadError>) -> bool {
    exists|globals: mlua::Table<'lua>, registry: Result<mlua::Table<'lua>, LoadError>|
        is_globals(lua, globals) && registry_ready(lua, globals, registry) && match registry {
            Err(error) => result == Err::<(), LoadError>(error),
            Ok(bundle) => exists|callback: Result<(), LoadError>|
                callback_installed(lua, bundle, callback) && match callback {
                    Err(error) => result == Err::<(), LoadError>(error),
                    Ok(_) => module_installed(lua, result),
                },
        }
}

/// Finds the bundle registry, or makes it where the globals hold none.
fn bundle_registry<'lua>(lua: &'lua mlua::Lua, globals: &mlua::Table<'lua>) -> (result: Result<
    mlua::Table<'lua>,
    LoadError,
>)
    requires
        home_of_table(globals) == home_of_lua(lua),
    ensures
        registry_ready(lua, *globals, result),
        result matches Ok(bundle) ==> home_of_table(&bundle) == home_of_lua(lua),
        result matches Err(error) ==> error.stage != LoadStage::Evaluate,
{
    match get_table(globals, "lua_bundle") {
        Ok(table) => Ok(table),
        Err(_) => {
            let fresh = match create_table(lua) {
                Ok(table) => table,
                Err(cause) => { return Err(failed(LoadStage::Create, cause)); },
            };
            match set_table(globals, "lua_bundle", fresh) {
                Ok(()) => {},
                Err(cause) => { return Err(failed(LoadStage::Store, cause)); },
            }
            match get_table(globals, "lua_bundle") {
                Ok(table) => Ok(table),
                Err(cause) => Err(failed(LoadStage::Lookup, cause)),
            }
        },
    }
}

/// Installs the evaluation callback in the bundle registry.
fn install_callback<'lua>(lua: &'lua mlua::Lua, bundle: &mlua::Table<'lua>) -> (result: Result<
    (),
    LoadError,
>)
    requires
        home_of_table(bundle) == home_of_lua(lua),
    ensures
        callback_installed(lua, *bundle, result),
        result matches Err(error) ==> error.stage != LoadStage::Evaluate,
{
    match create_eval_callback(lua) {
        Ok(callback) => finish(LoadStage::Store, set_function(bundle, ".eval-cb", callback)),
        Err(cause) => Err(failed(LoadStage::Create, cause)),
    }
}

/// Installs the `.eval` module in `package.loaded`.
fn install_module(lua: &mlua::Lua) -> (result: Result<(), LoadError>)
    ensures
        module_installed(lua, result),
        result matches Err(error) ==> error.stage != LoadStage::Evaluate,
{
    let loaded = match loaded_modules(lua) {
        Ok(table) => table,
        Err(error) => { return Err(error); },
    };
    match create_eval_module(lua) {
        Ok(module) => finish(LoadStage::Store, set_function(&loaded, ".eval", module)),
        Err(cause) => Err(failed(LoadStage::Create, cause)),
    }
}

/// Installs evaluation on request: the callback `.eval-cb` in the bundle
/// registry, which is made first where it does not exist, and the module
/// `.eval` in `package.loaded`, which hands the callback to the guest.
pub fn set_eval_lua(lua: &mlua::Lua) -> (result: Result<(), LoadError>)
    ensures
        eval_installed(lua, result),
        result matches Err(error) ==> error.stage != LoadStage::Evaluate,
{
    let globals = globals(lua);
    let bundle = match bundle_registry(lua, &globals) {
        Ok(table) => table,
        Err(error) => { return Err(error); },
    };
    match install_callback(lua, &bundle) {
        Ok(()) => install_module(lua),
        Err(error) => Err(error),
    }
}

/// One step of the boot sequence.
#[derive(Clone, Debug)]
pub enum BootStep {
    /// Evaluate a source unit and register its value: [`set_loaded`].
    Module { name: String, content: String, load_type: LoadType },
    /// Store a source unit as text: [`set_bundle`].
    Bundle { name: String, content: String },
    /// Run a source unit: [`exec`].
    Script { name: String, content: String },
    /// Install evaluation on request: [`set_eval_lua`].
    EvalSupport,
    /// Register a unit that the runtime brings along.
    Unit(BuiltinUnit),
}

/// The guest units that the runtime brings along.
#[derive(Clone, Copy, Debug, PartialEq, Eq, Structural)]
pub enum BuiltinUnit {
    /// The module `pretty`, which prints tables.
    Pretty,
    /// The module `eval`, the guest's own handler for evaluation.
    Eval,
    /// The module `default`, the handler for messages that nothing else takes.
    Default,
    /// The program that defines the global function `handle`.
    Program,
}

/// What the registration of a unit in `package.loaded` gave: the registry
/// is looked up, and the unit is registered in it as a unit that defines a
/// global.
pub open spec fn unit_moved<'lua>(
    lua: &'lua mlua::Lua,
    name: Seq<char>,
    content: Seq<char>,
    load_type: LoadType,
    result: Result<(), LoadError>,
) -> bool {
    exists|lookup: Result<mlua::Table<'lua>, LoadError>|
        loaded_found(lua, lookup) && match lookup {
            Err(error) => result == Err::<(), LoadError>(error),
            Ok(loaded) => global_registered(lua, &loaded, name, content, load_type, result),
        }
}

/// What the registration of a unit that the runtime brings along gave: the
/// program is run from its source text, and each module is registered in
/// `package.loaded` under its name, from its source text and as a value of
/// its kind.
pub open spec fn unit_registered<'lua>(
    lua: &'lua mlua::Lua,
    unit: BuiltinUnit,
    result: Result<(), LoadError>,
) -> bool {
    match unit {
        BuiltinUnit::Program => source_run(lua, lua_program_handle::SOURCE@, result),
        BuiltinUnit::Pretty => unit_moved(
            lua,
            lua_src_pretty::NAME@,
            lua_src_pretty::SOURCE@,
            LoadType::Table,
            result,
        ),
        BuiltinUnit::Eval => unit_moved(
            lua,
            lua_src_eval::NAME@,
            lua_src_eval::SOURCE@,
            LoadType::Function,
            result,
        ),
        BuiltinUnit::Default => unit_moved(
            lua,
            lua_src_default::NAME@,
            lua_src_default::SOURCE@,
            LoadType::Function,
            result,
        ),
    }
}

/// Registers one of the units that the runtime brings along: the program
/// is run, and each module is moved into `package.loaded`.
pub fn register_unit(lua: &mlua::Lua, unit: BuiltinUnit) -> (result: Result<(), LoadError>)
    ensures
        unit_registered(lua, unit, result),
        result matches Err(error) ==> error.stage != LoadStage::Create,
        unit == BuiltinUnit::Program ==> (result matches Err(error) ==> error.stage
            == LoadStage::Evaluate),
{
    match unit {
        BuiltinUnit::Program => lua_program_handle::main(lua),
        BuiltinUnit::Pretty => match loaded_modules(lua) {
            Ok(loaded) => lua_src_pretty::main(lua, &loaded),
            Err(error) => Err(error),
        },
        BuiltinUnit::Eval => match loaded_modules(lua) {
            Ok(loaded) => lua_src_eval::main(lua, &loaded),
            Err(error) => Err(error),
        },
        BuiltinUnit::Default => match loaded_modules(lua) {
            Ok(loaded) => lua_src_default::main(lua, &loaded),
            Err(error) => Err(error),
        },
    }
}

/// The name of the script that closes the boot sequence.
pub const PING_NAME: &'static str = "pingpong";

/// The script that closes the boot sequence: it registers the handler that
/// answers a message with the action `ping` with `pong`.
pub const PING_SCRIPT: &'static str =
    r#"Handlers.add("pingpong", Handlers.utils.hasMatchingTag("Action", "ping"), Handlers.utils.reply("pong"))"#;

/// That `steps` is the boot sequence of the runtime: the units that the
/// runtime brings along, each behind the units that it imports, and last the
/// script that registers the ping handler.
pub open spec fn is_boot_sequence(steps: Seq<BootStep>) -> bool {
    &&& steps.len() == 5
    &&& steps[0] == BootStep::Unit(BuiltinUnit::Pretty)
    &&& steps[1] == BootStep::Unit(BuiltinUnit::Eval)
    &&& steps[2] == BootStep::Unit(BuiltinUnit::Default)
    &&& steps[3] == BootStep::Unit(BuiltinUnit::Program)
    &&& steps[4] matches BootStep::Script { name, content } && name@ == PING_NAME@ && content@
        == PING_SCRIPT@
}

/// The boot sequence of the runtime.
pub fn boot_sequence() -> (steps: Vec<BootStep>)
    ensures
        is_boot_sequence(steps@),
{
    let mut steps: Vec<BootStep> = Vec::new();
    steps.push(BootStep::Unit(BuiltinUnit::Pretty));
    steps.push(BootStep::Unit(BuiltinUnit::Eval));
    steps.push(BootStep::Unit(BuiltinUnit::Default));
    steps.push(BootStep::Unit(BuiltinUnit::Program));
    steps.push(BootStep::Script { name: PING_NAME.to_string(), content: PING_SCRIPT.to_string() });
    steps
}

/// A boot sequence that stopped.
#[derive(Clone, Debug)]
pub struct PreloadError {
    /// The position of the step that failed.
    pub step: usize,
    pub cause: LoadError,
}

/// The stages at which a step of a boot sequence can fail. A module fails
/// where its registry is out of reach, where its source does not give a
/// value of the expected kind, or where the registry refuses the entry; a
/// bundle is not evaluated and so cannot fail there; a script can only fail
/// in its evaluation.
pub open spec fn can_fail_at(step: BootStep, stage: LoadStage) -> bool {
    match step {
        BootStep::Module { .. } => stage != LoadStage::Create,
        BootStep::Bundle { .. } => stage == LoadStage::Lookup || stage == LoadStage::Store,
        BootStep::Script { .. } => stage == LoadStage::Evaluate,
        BootStep::EvalSupport => stage != LoadStage::Evaluate,
        BootStep::Unit(BuiltinUnit::Program) => stage == LoadStage::Evaluate,
        BootStep::Unit(_) => stage != LoadStage::Create,
    }
}

/// What a step of a boot sequence gave: what the registration that the
/// step stands for gave, on the fields of the step.
pub open spec fn performed<'lua>(
    lua: &'lua mlua::Lua,
    step: BootStep,
    result: Result<(), LoadError>,
) -> bool {
    match step {
        BootStep::Module { name, content, load_type } => module_registered(
            lua,
            name@,
            content@,
            load_type,
            result,
        ),
        BootStep::Bundle { name, content } => bundle_stored(lua, name@, content@, result),
        BootStep::Script { name, content } => script_run(lua, name@, content@, result),
        BootStep::EvalSupport => eval_installed(lua, result),
        BootStep::Unit(unit) => unit_registered(lua, unit, result),
    }
}

/// That a step of a boot sequence was performed and succeeded.
pub open spec fn succeeded<'lua>(lua: &'lua mlua::Lua, step: BootStep) -> bool {
    exists|done: Result<(), LoadError>| done is Ok && performed(lua, step, done)
}

/// What a boot sequence gave. Where it succeeded, every step was performed
/// and succeeded. Where it failed, the error names the first step that
/// failed and holds that step's failure: every step before it was performed
/// and succeeded.
pub open spec fn sequence_performed<'lua>(
    lua: &'lua mlua::Lua,
    steps: Seq<BootStep>,
    result: Result<(), PreloadError>,
) -> bool {
    match result {
        Ok(_) => forall|i: int| 0 <= i < steps.len() ==> succeeded(lua, #[trigger] steps[i]),
        Err(error) => {
            &&& error.step < steps.len()
            &&& performed(lua, steps[error.step as int], Err::<(), LoadError>(error.cause))
            &&& forall|i: int| 0 <= i < error.step ==> succeeded(lua, #[trigger] steps[i])
        },
    }
}

/// Performs one step of a boot sequence.
pub fn perform(lua: &mlua::Lua, step: &BootStep) -> (result: Result<(), LoadError>)
    ensures
        performed(lua, *step, result),
        result matches Err(error) ==> can_fail_at(*step, error.stage),
{
    match step {
        BootStep::Module { name, content, load_type } => set_loaded(
            lua,
            name.as_str(),
            content.as_str(),
            *load_type,
        ),
        BootStep::Bundle { name, content } => set_bundle(lua, name.as_str(), content.as_str()),
        BootStep::Script { name, content } => exec(lua, name.as_str(), content.as_str()),
        BootStep::EvalSupport => set_eval_lua(lua),
        BootStep::Unit(unit) => register_unit(lua, *unit),
    }
}

/// Performs the steps in their order and stops at the first that fails: a
/// step is never performed before all that precede it have succeeded, so a
/// module finds what it imports where the sequence lists its imports first.
/// The empty sequence succeeds.
pub fn perform_sequence(lua: &mlua::Lua, steps: &Vec<BootStep>) -> (result: Result<
    (),
    PreloadError,
>)
    ensures
        sequence_performed(lua, steps@, result),
        steps@.len() == 0 ==> result is Ok,
        result matches Err(error) ==> error.step < steps@.len() && can_fail_at(
            steps@[error.step as int],
            error.cause.stage,
        ),
{
    let mut done: usize = 0;
    while done < steps.len()
        invariant
            done <= steps@.len(),
            forall|i: int| 0 <= i < done ==> succeeded(lua, #[trigger] steps@[i]),
        decreases steps@.len() - done,
    {
        let outcome = perform(lua, &steps[done]);
        match outcome {
            Ok(()) => {
                assert(succeeded(lua, steps@[done as int]));
            },
            Err(cause) => { return Err(PreloadError { step: done, cause }); },
        }
        done = done + 1;
    }
    Ok(())
}

} // verus!
