//! Evaluation of guest expressions on request: the callback behind the
//! `.eval` module. A message brings source text in its `Data` field; the
//! result, or the reason why there is none, goes to the outbox of the
//! guest's `ao` table.

use vstd::prelude::*;
use vstd::string::StringExecFns;
use crate::lua::{home_of_function, home_of_lua, home_of_table, value_lives_in, call_with_value, called_with_value, create_table, eval_string, eval_value, evaluated_string, evaluated_value, get_function, get_string, get_table, globals, got_function, got_string, got_table, is_globals, json_of_value, kind_of_value, made_table, set_string, set_table, stored_string, stored_table, text_of, value_json, value_kind, value_text};
use crate::preloader::describes;

verus! {

/// The kinds of value that an evaluation can give, as far as the rendering
/// of the result tells them apart.
#[derive(Clone, Copy, Debug, PartialEq, Eq, Structural)]
pub enum ValueKind {
    Table,
    Text,
    Number,
    Integer,
    Boolean,
    Other,
}

/// What to do with the `Data` of a message.
#[derive(Clone, Debug)]
pub enum EvalRequest {
    /// Evaluate this source text.
    Evaluate(String),
    /// Evaluate nothing and report this error to the outbox.
    Refuse(String),
}

/// The view of an [`EvalRequest`].
pub enum EvalRequestModel {
    Evaluate(Seq<char>),
    Refuse(Seq<char>),
}

impl View for EvalRequest {
    type V = EvalRequestModel;

    open spec fn view(&self) -> EvalRequestModel {
        match self {
            EvalRequest::Evaluate(source) => EvalRequestModel::Evaluate(source@),
            EvalRequest::Refuse(reason) => EvalRequestModel::Refuse(reason@),
        }
    }
}

/// The request that the `Data` field of a message stands for. `Ok` holds the
/// field's text, `Err` the reason why it could not be read as text.
pub open spec fn eval_request_of(data: Result<Seq<char>, Seq<char>>) -> EvalRequestModel {
    match data {
        Ok(source) => if source.len() == 0 {
            EvalRequestModel::Refuse("No Data to Eval, received empty string."@)
        } else {
            EvalRequestModel::Evaluate(source)
        },
        Err(cause) => EvalRequestModel::Refuse("Error evaluating Data. "@ + cause),
    }
}

/// The view of a `Data` field as it was read.
pub open spec fn data_view(data: Result<String, String>) -> Result<Seq<char>, Seq<char>> {
    match data {
        Ok(source) => Ok(source@),
        Err(cause) => Err(cause@),
    }
}

/// Decides what to do with the `Data` field of a message: empty text and
/// unreadable fields are refused, each with its own report.
pub fn eval_request(data: Result<String, String>) -> (request: EvalRequest)
    ensures
        request@ == eval_request_of(data_view(data)),
{
    match data {
        Ok(source) => {
            if source.as_str().is_empty() {
                EvalRequest::Refuse("No Data to Eval, received empty string.".to_string())
            } else {
                EvalRequest::Evaluate(source)
            }
        },
        Err(cause) => {
            let report = "Error evaluating Data. ".to_string().concat(cause.as_str());
            EvalRequest::Refuse(report)
        },
    }
}

/// The `json` field of an output: the JSON text of a table, and `undefined`
/// for a table without one.
pub fn json_or_undefined(encoded: Option<String>) -> (text: String)
    ensures
        text@ == (match encoded {
            Some(json) => json@,
            None => "undefined"@,
        }),
{
    match encoded {
        Some(json) => json,
        None => "undefined".to_string(),
    }
}

/// The `prompt` field of an output: what the guest's `Prompt()` gave, and
/// `aos> ` where it gave nothing.
pub fn prompt_or_default(prompt: Option<String>) -> (text: String)
    ensures
        text@ == (match prompt {
            Some(shown) => shown@,
            None => "aos> "@,
        }),
{
    match prompt {
        Some(shown) => shown,
        None => "aos> ".to_string(),
    }
}

fn report_error<'lua>(outbox: &mlua::Table<'lua>, cause: mlua::Error) -> (done: Result<
    (),
    mlua::Error,
>)
    ensures
        error_reported(*outbox, cause, done),
{
    let report = cause.to_string();
    let done = set_string(outbox, "Error", report.as_str());
    assert(describes(cause, report) && stored_string(outbox, "Error"@, report@, done));
    done
}

/// The callback: evaluates the `Data` of `message` and leaves the result in
/// the outbox of the `ao` table that [`bind_process`] has set. The callback
/// fails only where a table it needs is out of reach or refuses an entry;
/// what goes wrong with the data itself is reported to the outbox.
pub(crate) fn evaluate_message<'lua>(lua: &'lua mlua::Lua, message: mlua::Table<'lua>) -> (done:
    Result<(), mlua::Error>)
    ensures
        message_evaluated(lua, message, done),
{
    let context = match find_context(lua) {
        Ok(context) => context,
        Err(cause) => { return Err(cause); },
    };
    match eval_request(read_data(&message)) {
        EvalRequest::Evaluate(source) => evaluate_source(lua, &context, source.as_str()),
        EvalRequest::Refuse(report) => set_string(&context.outbox, "Error", report.as_str()),
    }
}

/// The `.eval` module: remembers the guest's `ao` table as the global `_AO`
/// and hands out the evaluation callback from the bundle registry.
pub(crate) fn bind_process<'lua>(lua: &'lua mlua::Lua, ao: mlua::Table<'lua>) -> (callback:
    Result<mlua::Function<'lua>, mlua::Error>)
    requires
        home_of_table(&ao) == home_of_lua(lua),
    ensures
        process_bound(lua, ao, callback),
{
    let globals = globals(lua);
    match set_table(&globals, "_AO", ao) {
        Ok(()) => {},
        Err(cause) => { return Err(cause); },
    }
    match get_table(&globals, "lua_bundle") {
        Ok(bundle) => get_function(&bundle, ".eval-cb"),
        Err(cause) => Err(cause),
    }
}

/// What the callback works with: the function that renders a table, the
/// guest's `ao` table and its outbox.
pub struct EvalContext<'lua> {
    pub stringify: mlua::Function<'lua>,
    pub ao: mlua::Table<'lua>,
    pub outbox: mlua::Table<'lua>,
}

/// That the three handles of a context belong to the interpreter `home`.
pub open spec fn context_lives_in<'lua>(context: EvalContext<'lua>, home: int) -> bool {
    &&& home_of_function(&context.stringify) == home
    &&& home_of_table(&context.ao) == home
    &&& home_of_table(&context.outbox) == home
}

/// How the text of an evaluated value came out.
pub enum Shown {
    /// The value has this text.
    Text(String),
    /// The text could not be had: the callback fails with this error.
    Failed(mlua::Error),
    /// The value has no text: this error goes to the outbox.
    Unprintable(mlua::Error),
}

/// What the report of an error to an outbox gave: the outbox is told to
/// hold the description of the error under `Error`.
pub open spec fn error_reported<'lua>(
    outbox: mlua::Table<'lua>,
    cause: mlua::Error,
    done: Result<(), mlua::Error>,
) -> bool {
    exists|report: String| describes(cause, report) && stored_string(&outbox, "Error"@, report@, done)
}

/// What the binding of a process gave: the globals are told to hold `ao`
/// under `_AO`, then asked for the bundle registry, which is asked for the
/// function under `.eval-cb`. The result is that function, or the error of
/// the first of these calls that failed.
pub open spec fn process_bound<'lua>(
    lua: &'lua mlua::Lua,
    ao: mlua::Table<'lua>,
    callback: Result<mlua::Function<'lua>, mlua::Error>,
) -> bool {
    exists|globals: mlua::Table<'lua>, stored: Result<(), mlua::Error>|
        is_globals(lua, globals) && stored_table(&globals, "_AO"@, ao, stored) && match stored {
            Err(cause) => callback == Err::<mlua::Function<'lua>, mlua::Error>(cause),
            Ok(_) => exists|bundle: Result<mlua::Table<'lua>, mlua::Error>|
                got_table(&globals, "lua_bundle"@, bundle) && match bundle {
                    Err(cause) => callback == Err::<mlua::Function<'lua>, mlua::Error>(cause),
                    Ok(registry) => got_function(&registry, ".eval-cb"@, callback),
                },
        }
}

/// What the search for the callback's context gave. These lookups are made,
/// each in the table that the one before it gave: `package` and `_AO` in the
/// globals, `loaded` in `package`, `.stringify` in `loaded`, `format` in
/// `.stringify`, `outbox` in `_AO`. The result is the context, or the error
/// of the first lookup that failed.
pub open spec fn context_found<'lua>(
    lua: &'lua mlua::Lua,
    result: Result<EvalContext<'lua>, mlua::Error>,
) -> bool {
    exists|globals: mlua::Table<'lua>, package: Result<mlua::Table<'lua>, mlua::Error>|
        is_globals(lua, globals) && got_table(&globals, "package"@, package) && match package {
            Err(cause) => result == Err::<EvalContext<'lua>, mlua::Error>(cause),
            Ok(package) => exists|loaded: Result<mlua::Table<'lua>, mlua::Error>|
                got_table(&package, "loaded"@, loaded) && match loaded {
                    Err(cause) => result == Err::<EvalContext<'lua>, mlua::Error>(cause),
                    Ok(loaded) => renderer_found(globals, loaded, result),
                },
        }
}

/// The second half of the search for the callback's context, from the
/// registry `loaded` on.
pub open spec fn renderer_found<'lua>(
    globals: mlua::Table<'lua>,
    loaded: mlua::Table<'lua>,
    result: Result<EvalContext<'lua>, mlua::Error>,
) -> bool {
    exists|module: Result<mlua::Table<'lua>, mlua::Error>|
        got_table(&loaded, ".stringify"@, module) && match module {
            Err(cause) => result == Err::<EvalContext<'lua>, mlua::Error>(cause),
            Ok(module) => exists|format: Result<mlua::Function<'lua>, mlua::Error>|
                got_function(&module, "format"@, format) && match format {
                    Err(cause) => result == Err::<EvalContext<'lua>, mlua::Error>(cause),
                    Ok(stringify) => outbox_found(globals, stringify, result),
                },
        }
}

/// The last part of the search for the callback's context: the `ao` table
/// and its outbox.
pub open spec fn outbox_found<'lua>(
    globals: mlua::Table<'lua>,
    stringify: mlua::Function<'lua>,
    result: Result<EvalContext<'lua>, mlua::Error>,
) -> bool {
    exists|process: Result<mlua::Table<'lua>, mlua::Error>|
        got_table(&globals, "_AO"@, process) && match process {
            Err(cause) => result == Err::<EvalContext<'lua>, mlua::Error>(cause),
            Ok(ao) => exists|found: Result<mlua::Table<'lua>, mlua::Error>|
                got_table(&ao, "outbox"@, found) && match found {
                    Err(cause) => result == Err::<EvalContext<'lua>, mlua::Error>(cause),
                    Ok(outbox) => result == Ok::<EvalContext<'lua>, mlua::Error>(
                        EvalContext { stringify, ao, outbox },
                    ),
                },
        }
}

/// What the reading of the `Data` field gave: its text, or the description
/// of the reason why the field has none.
pub open spec fn data_read<'lua>(message: mlua::Table<'lua>, data: Result<String, String>) -> bool {
    exists|found: Result<String, mlua::Error>|
        got_string(&message, "Data"@, found) && match found {
            Ok(source) => data == Ok::<String, String>(source),
            Err(cause) => data matches Err(reason) && describes(cause, reason),
        }
}

/// The `json` field of an output: the JSON text of a table, `undefined` for
/// a table without one, and `undefined` for every value that is no table.
pub open spec fn json_field<'lua>(kind: ValueKind, value: mlua::Value<'lua>, json: Seq<char>) -> bool {
    if kind == ValueKind::Table {
        exists|encoded: Option<String>|
            json_of_value(&value, encoded) && json == (match encoded {
                Some(text) => text@,
                None => "undefined"@,
            })
    } else {
        json == "undefined"@
    }
}

/// How the text of a value of the kind `kind` comes out. A table is handed
/// to the function that renders tables; every other value is asked for its
/// text. A failure fails the callback, but for a value that is neither a
/// table nor text, number or truth value: there the failure goes to the
/// outbox.
pub open spec fn shown_as<'lua>(
    stringify: mlua::Function<'lua>,
    kind: ValueKind,
    value: mlua::Value<'lua>,
    shown: Shown,
) -> bool {
    if kind == ValueKind::Table {
        exists|returned: Result<String, mlua::Error>|
            called_with_value(&stringify, value, returned) && match returned {
                Ok(text) => shown == Shown::Text(text),
                Err(cause) => shown == Shown::Failed(cause),
            }
    } else {
        exists|text: Result<String, mlua::Error>|
            text_of(&value, text) && match text {
                Ok(text) => shown == Shown::Text(text),
                Err(cause) => if kind == ValueKind::Other {
                    shown == Shown::Unprintable(cause)
                } else {
                    shown == Shown::Failed(cause)
                },
            }
    }
}

/// The `prompt` field of an output: what the evaluation of `Prompt()` gave,
/// and `aos> ` where it failed.
pub open spec fn prompt_field(prompt: Result<String, mlua::Error>) -> Seq<char> {
    match prompt {
        Ok(shown) => shown@,
        Err(_) => "aos> "@,
    }
}

/// What the storing of an output gave: `data_table` is told to hold the
/// three texts under `json`, `output` and `prompt`, in this order, and the
/// outbox is told to hold `data_table` under `Output`. The result is the
/// error of the first of these calls that failed, and success where none
/// did.
pub open spec fn output_stored<'lua>(
    data_table: mlua::Table<'lua>,
    outbox: mlua::Table<'lua>,
    json: Seq<char>,
    shown: Seq<char>,
    prompt: Seq<char>,
    done: Result<(), mlua::Error>,
) -> bool {
    exists|first: Result<(), mlua::Error>|
        stored_string(&data_table, "json"@, json, first) && match first {
            Err(cause) => done == Err::<(), mlua::Error>(cause),
            Ok(_) => exists|second: Result<(), mlua::Error>|
                stored_string(&data_table, "output"@, shown, second) && match second {
                    Err(cause) => done == Err::<(), mlua::Error>(cause),
                    Ok(_) => exists|third: Result<(), mlua::Error>|
                        stored_string(&data_table, "prompt"@, prompt, third) && match third {
                            Err(cause) => done == Err::<(), mlua::Error>(cause),
                            Ok(_) => stored_table(&outbox, "Output"@, data_table, done),
                        },
                },
        }
}

/// What the rendering of an evaluated value gave. A table for the output is
/// made; the kind of the value is found, then its `json` field, then its
/// text. Where the text came out, `Prompt()` is evaluated and the output is
/// stored; where the value has no text, the error is reported to the outbox.
pub open spec fn rendered<'lua>(
    lua: &'lua mlua::Lua,
    context: EvalContext<'lua>,
    value: mlua::Value<'lua>,
    done: Result<(), mlua::Error>,
) -> bool {
    exists|made: Result<mlua::Table<'lua>, mlua::Error>|
        made_table(lua, made) && match made {
            Err(cause) => done == Err::<(), mlua::Error>(cause),
            Ok(data_table) => exists|json: String, shown: Shown|
                json_field(kind_of_value(&value), value, json@) && shown_as(
                    context.stringify,
                    kind_of_value(&value),
                    value,
                    shown,
                ) && match shown {
                    Shown::Failed(cause) => done == Err::<(), mlua::Error>(cause),
                    Shown::Unprintable(cause) => error_reported(context.outbox, cause, done),
                    Shown::Text(text) => exists|prompt: Result<String, mlua::Error>|
                        evaluated_string(lua, "return Prompt()"@, prompt) && output_stored(
                            data_table,
                            context.outbox,
                            json@,
                            text@,
                            prompt_field(prompt),
                            done,
                        ),
                },
        }
}

/// What the evaluation of source text gave. The text is evaluated under the
/// chunk name `aos`. Its value is rendered to the outbox; its error is
/// reported to the outbox, which is looked up in the `ao` table once more.
pub open spec fn source_evaluated<'lua>(
    lua: &'lua mlua::Lua,
    context: EvalContext<'lua>,
    source: Seq<char>,
    done: Result<(), mlua::Error>,
) -> bool {
    exists|output: Result<mlua::Value<'lua>, mlua::Error>|
        evaluated_value(lua, "aos"@, source, output) && match output {
            Ok(value) => rendered(lua, context, value, done),
            Err(cause) => exists|again: Result<mlua::Table<'lua>, mlua::Error>|
                got_table(&context.ao, "outbox"@, again) && match again {
                    Err(failure) => done == Err::<(), mlua::Error>(failure),
                    Ok(outbox) => error_reported(outbox, cause, done),
                },
        }
}

/// What the callback gave. Its context is searched; the `Data` field of
/// the message is read, and what to do with it is decided as
/// [`eval_request_of`] says: a refusal is stored under `Error` in the outbox,
/// and source text is evaluated. The result is the error of the first call
/// that failed in the search, in the storing or in the rendering, and
/// success otherwise.
pub open spec fn message_evaluated<'lua>(
    lua: &'lua mlua::Lua,
    message: mlua::Table<'lua>,
    done: Result<(), mlua::Error>,
) -> bool {
    exists|found: Result<EvalContext<'lua>, mlua::Error>|
        context_found(lua, found) && match found {
            Err(cause) => done == Err::<(), mlua::Error>(cause),
            Ok(context) => exists|data: Result<String, String>|
                data_read(message, data) && match eval_request_of(data_view(data)) {
                    EvalRequestModel::Refuse(report) => stored_string(
                        &context.outbox,
                        "Error"@,
                        report,
                        done,
                    ),
                    EvalRequestModel::Evaluate(source) => source_evaluated(
                        lua,
                        context,
                        source,
                        done,
                    ),
                },
        }
}

/// Searches the context of the callback.
fn find_context<'lua>(lua: &'lua mlua::Lua) -> (result: Result<EvalContext<'lua>, mlua::Error>)
    ensures
        context_found(lua, result),
        result matches Ok(context) ==> context_lives_in(context, home_of_lua(lua)),
{
    let globals = globals(lua);
    let package = match get_table(&globals, "package") {
        Ok(table) => table,
        Err(cause) => { return Err(cause); },
    };
    match get_table(&package, "loaded") {
        Ok(loaded) => find_renderer(globals, &loaded),
        Err(cause) => Err(cause),
    }
}

/// Searches the function that renders tables, then the outbox.
fn find_renderer<'lua>(globals: mlua::Table<'lua>, loaded: &mlua::Table<'lua>) -> (result: Result<
    EvalContext<'lua>,
    mlua::Error,
>)
    requires
        home_of_table(loaded) == home_of_table(&globals),
    ensures
        renderer_found(globals, *loaded, result),
        result matches Ok(context) ==> context_lives_in(context, home_of_table(&globals)),
{
    let module = match get_table(loaded, ".stringify") {
        Ok(table) => table,
        Err(cause) => { return Err(cause); },
    };
    match get_function(&module, "format") {
        Ok(stringify) => find_outbox(globals, stringify),
        Err(cause) => Err(cause),
    }
}

/// Searches the `ao` table and its outbox.
fn find_outbox<'lua>(globals: mlua::Table<'lua>, stringify: mlua::Function<'lua>) -> (result:
    Result<EvalContext<'lua>, mlua::Error>)
    requires
        home_of_function(&stringify) == home_of_table(&globals),
    ensures
        outbox_found(globals, stringify, result),
        result matches Ok(context) ==> context_lives_in(context, home_of_table(&globals)),
{
    let ao = match get_table(&globals, "_AO") {
        Ok(table) => table,
        Err(cause) => { return Err(cause); },
    };
    let found = get_table(&ao, "outbox");
    match found {
        Ok(outbox) => Ok(EvalContext { stringify, ao, outbox }),
        Err(cause) => Err(cause),
    }
}

/// Reads the `Data` field of a message.
fn read_data<'lua>(message: &mlua::Table<'lua>) -> (data: Result<String, String>)
    ensures
        data_read(*message, data),
{
    match get_string(message, "Data") {
        Ok(source) => Ok(source),
        Err(cause) => Err(cause.to_string()),
    }
}

/// Evaluates source text and leaves the result in the outbox.
fn evaluate_source<'lua>(lua: &'lua mlua::Lua, context: &EvalContext<'lua>, source: &str) -> (done:
    Result<(), mlua::Error>)
    requires
        context_lives_in(*context, home_of_lua(lua)),
    ensures
        source_evaluated(lua, *context, source@, done),
{
    match eval_value(lua, "aos", source) {
        Ok(output) => render(lua, context, output),
        Err(cause) => {
            match get_table(&context.ao, "outbox") {
                Ok(outbox) => report_error(&outbox, cause),
                Err(failure) => Err(failure),
            }
        },
    }
}

/// The `json` field for a value of the kind `kind`.
fn encode<'lua>(kind: ValueKind, value: &mlua::Value<'lua>) -> (json: String)
    ensures
        json_field(kind, *value, json@),
{
    match kind {
        ValueKind::Table => json_or_undefined(value_json(value)),
        _ => json_or_undefined(None),
    }
}

/// The text of a value of the kind `kind`.
fn show<'lua>(stringify: &mlua::Function<'lua>, kind: ValueKind, value: mlua::Value<'lua>) -> (shown:
    Shown)
    requires
        value_lives_in(&value, home_of_function(stringify)),
    ensures
        shown_as(*stringify, kind, value, shown),
{
    match kind {
        ValueKind::Table => {
            match call_with_value(stringify, value) {
                Ok(text) => Shown::Text(text),
                Err(cause) => Shown::Failed(cause),
            }
        },
        ValueKind::Other => {
            match value_text(&value) {
                Ok(text) => Shown::Text(text),
                Err(cause) => Shown::Unprintable(cause),
            }
        },
        _ => {
            match value_text(&value) {
                Ok(text) => Shown::Text(text),
                Err(cause) => Shown::Failed(cause),
            }
        },
    }
}

/// Stores an output in the outbox.
fn store_output<'lua>(
    data_table: mlua::Table<'lua>,
    outbox: &mlua::Table<'lua>,
    json: &str,
    shown: &str,
    prompt: &str,
) -> (done: Result<(), mlua::Error>)
    requires
        home_of_table(&data_table) == home_of_table(outbox),
    ensures
        output_stored(data_table, *outbox, json@, shown@, prompt@, done),
{
    match set_string(&data_table, "json", json) {
        Ok(()) => {},
        Err(cause) => { return Err(cause); },
    }
    match set_string(&data_table, "output", shown) {
        Ok(()) => {},
        Err(cause) => { return Err(cause); },
    }
    match set_string(&data_table, "prompt", prompt) {
        Ok(()) => set_table(outbox, "Output", data_table),
        Err(cause) => Err(cause),
    }
}

/// Renders an evaluated value to the outbox.
fn render<'lua>(lua: &'lua mlua::Lua, context: &EvalContext<'lua>, value: mlua::Value<'lua>) -> (done:
    Result<(), mlua::Error>)
    requires
        context_lives_in(*context, home_of_lua(lua)),
        value_lives_in(&value, home_of_lua(lua)),
    ensures
        rendered(lua, *context, value, done),
{
    let data_table = match create_table(lua) {
        Ok(table) => table,
        Err(cause) => { return Err(cause); },
    };
    let kind = value_kind(&value);
    let json = encode(kind, &value);
    match show(&context.stringify, kind, value) {
        Shown::Failed(cause) => Err(cause),
        Shown::Unprintable(cause) => report_error(&context.outbox, cause),
        Shown::Text(text) => {
            let prompt = match eval_string(lua, "return Prompt()") {
                Ok(shown) => prompt_or_default(Some(shown)),
                Err(_) => prompt_or_default(None),
            };
            store_output(
                data_table,
                &context.outbox,
                json.as_str(),
                text.as_str(),
                prompt.as_str(),
            )
        },
    }
}

} // verus!
