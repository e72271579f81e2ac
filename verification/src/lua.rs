//! The interpreter, as far as the runtime uses it.
//!
//! Each outside call is made in one place: a function whose body is the
//! call into `mlua` or `serde_json` and nothing else. That body is not
//! verified. Of what the interpreter holds after a call nothing is claimed,
//! and of what a call returns only this: a handle belongs to the interpreter
//! that handed it out, and the kind of a value, the parsing of a text and
//! the wrapping of an error depend on their argument alone. A call that
//! takes two handles asks that they belong to one interpreter, which `mlua`
//! asserts. A call that runs guest code returns when the guest code does.
//!
//! Beside each such function stand a predicate, which says that the call was
//! made on given arguments and came back with a given outcome, and a verified
//! function that makes the call and reports it in that predicate. The
//! contracts of the runtime are written over these predicates: they say
//! which calls a result comes from, and are proved for every outcome.

use vstd::prelude::*;
use crate::eval::ValueKind;

verus! {

#[verifier::external_type_specification]
#[verifier::external_body]
pub struct ExLua(mlua::Lua);

#[verifier::external_type_specification]
#[verifier::external_body]
pub struct ExTable<'lua>(mlua::Table<'lua>);

#[verifier::external_type_specification]
#[verifier::external_body]
pub struct ExFunction<'lua>(mlua::Function<'lua>);

#[verifier::external_type_specification]
#[verifier::external_body]
pub struct ExValue<'lua>(mlua::Value<'lua>);

#[verifier::external_type_specification]
#[verifier::external_body]
pub struct ExError(mlua::Error);

#[verifier::external_type_specification]
#[verifier::external_body]
pub struct ExJsonError(serde_json::Error);

#[verifier::external_type_specification]
#[verifier::external_body]
pub struct ExJsonValue(serde_json::Value);

/// The interpreter that `lua` is: every handle keeps the interpreter that
/// handed it out, and `mlua` refuses to mix the handles of two.
pub uninterp spec fn home_of_lua(lua: &mlua::Lua) -> int;

/// The interpreter that handed out the table handle `table`.
pub uninterp spec fn home_of_table(table: &mlua::Table) -> int;

/// The interpreter that handed out the function handle `function`.
pub uninterp spec fn home_of_function(function: &mlua::Function) -> int;

/// That every handle which `value` holds was handed out by the interpreter
/// `home`. It holds of every interpreter for a value that holds no handle.
pub uninterp spec fn value_lives_in(value: &mlua::Value, home: int) -> bool;

/// The kind of a guest value: which variant of `mlua::Value` it is.
pub uninterp spec fn kind_of_value(value: &mlua::Value) -> ValueKind;

/// What `serde_json` makes of a text: the JSON value that it stands for, or
/// the error that says why it is no JSON.
pub uninterp spec fn json_parsed(text: Seq<char>) -> Result<serde_json::Value, serde_json::Error>;

/// A JSON error as the guest gets it: the error that `mlua` wraps it in.
pub uninterp spec fn guest_error(cause: serde_json::Error) -> mlua::Error;

/// Calls `f` on one argument. What comes back is an outcome of this call.
fn call1<A, R, F: FnOnce(A) -> R>(f: F, a: A) -> (r: R)
    requires
        call_requires(f, (a,)),
    ensures
        call_ensures(f, (a,), r),
{
    f(a)
}

/// Calls `f` on two arguments. What comes back is an outcome of this call.
fn call2<A, B, R, F: FnOnce(A, B) -> R>(f: F, a: A, b: B) -> (r: R)
    requires
        call_requires(f, (a, b)),
    ensures
        call_ensures(f, (a, b), r),
{
    f(a, b)
}

/// Calls `f` on three arguments. What comes back is an outcome of this call.
fn call3<A, B, C, R, F: FnOnce(A, B, C) -> R>(f: F, a: A, b: B, c: C) -> (r: R)
    requires
        call_requires(f, (a, b, c)),
    ensures
        call_ensures(f, (a, b, c), r),
{
    f(a, b, c)
}

/// `mlua::Lua::new`: a fresh interpreter with the safe standard libraries.
#[verifier::external_body]
pub(crate) fn new_state() -> (lua: mlua::Lua) {
    mlua::Lua::new()
}

/// `mlua::Lua::globals`: a handle to the global table.
/// The handle belongs to the interpreter `lua`.
#[verifier::external_body]
fn raw_globals<'lua>(lua: &'lua mlua::Lua) -> (table: mlua::Table<'lua>)
    ensures
        home_of_table(&table) == home_of_lua(lua),
{
    lua.globals()
}

/// That `table` is what the interpreter handed out as its global table.
pub closed spec fn is_globals<'lua>(lua: &'lua mlua::Lua, table: mlua::Table<'lua>) -> bool {
    call_ensures(raw_globals, (lua,), table)
}

/// The global table of the interpreter.
pub(crate) fn globals<'lua>(lua: &'lua mlua::Lua) -> (table: mlua::Table<'lua>)
    ensures
        is_globals(lua, table),
        home_of_table(&table) == home_of_lua(lua),
{
    call1(raw_globals, lua)
}

/// `mlua::Lua::create_table`: a handle to a new table.
/// A table that was made belongs to the interpreter `lua`.
#[verifier::external_body]
fn raw_create_table<'lua>(lua: &'lua mlua::Lua) -> (made: Result<mlua::Table<'lua>, mlua::Error>)
    ensures
        made matches Ok(fresh) ==> home_of_table(&fresh) == home_of_lua(lua),
{
    lua.create_table()
}

/// That the interpreter was asked for a new table and answered `made`.
pub closed spec fn made_table<'lua>(
    lua: &'lua mlua::Lua,
    made: Result<mlua::Table<'lua>, mlua::Error>,
) -> bool {
    call_ensures(raw_create_table, (lua,), made)
}

/// Asks the interpreter for a new table.
pub(crate) fn create_table<'lua>(
    lua: &'lua mlua::Lua,
) -> (made: Result<mlua::Table<'lua>, mlua::Error>)
    ensures
        made_table(lua, made),
        made matches Ok(fresh) ==> home_of_table(&fresh) == home_of_lua(lua),
{
    call1(raw_create_table, lua)
}

/// `mlua::Table::get`, for a value that must be a table.
/// A table that was found belongs to the interpreter of `table`.
#[verifier::external_body]
fn raw_get_table<'lua>(
    table: &mlua::Table<'lua>,
    key: &str,
) -> (found: Result<mlua::Table<'lua>, mlua::Error>)
    ensures
        found matches Ok(inner) ==> home_of_table(&inner) == home_of_table(table),
{
    table.get(key)
}

/// That `table` was asked for the table under `key` and answered `found`.
pub closed spec fn got_table<'lua>(
    table: &mlua::Table<'lua>,
    key: Seq<char>,
    found: Result<mlua::Table<'lua>, mlua::Error>,
) -> bool {
    exists|key_text: &str| key_text@ == key && call_ensures(raw_get_table, (table, key_text), found)
}

/// Asks a table for the table under `key`.
pub(crate) fn get_table<'lua>(
    table: &mlua::Table<'lua>,
    key: &str,
) -> (found: Result<mlua::Table<'lua>, mlua::Error>)
    ensures
        got_table(table, key@, found),
        found matches Ok(inner) ==> home_of_table(&inner) == home_of_table(table),
{
    call2(raw_get_table, table, key)
}

/// `mlua::Table::get`, for a value that must be a function.
/// A function that was found belongs to the interpreter of `table`.
#[verifier::external_body]
fn raw_get_function<'lua>(
    table: &mlua::Table<'lua>,
    key: &str,
) -> (found: Result<mlua::Function<'lua>, mlua::Error>)
    ensures
        found matches Ok(inner) ==> home_of_function(&inner) == home_of_table(table),
{
    table.get(key)
}

/// That `table` was asked for the function under `key` and answered `found`.
pub closed spec fn got_function<'lua>(
    table: &mlua::Table<'lua>,
    key: Seq<char>,
    found: Result<mlua::Function<'lua>, mlua::Error>,
) -> bool {
    exists|key_text: &str|
        key_text@ == key && call_ensures(raw_get_function, (table, key_text), found)
}

/// Asks a table for the function under `key`.
pub(crate) fn get_function<'lua>(
    table: &mlua::Table<'lua>,
    key: &str,
) -> (found: Result<mlua::Function<'lua>, mlua::Error>)
    ensures
        got_function(table, key@, found),
        found matches Ok(inner) ==> home_of_function(&inner) == home_of_table(table),
{
    call2(raw_get_function, table, key)
}

/// `mlua::Table::get`, for a value that must convert to text.
#[verifier::external_body]
fn raw_get_string<'lua>(
    table: &mlua::Table<'lua>,
    key: &str,
) -> (found: Result<String, mlua::Error>) {
    table.get(key)
}

/// That `table` was asked for the text under `key` and answered `found`.
pub closed spec fn got_string<'lua>(
    table: &mlua::Table<'lua>,
    key: Seq<char>,
    found: Result<String, mlua::Error>,
) -> bool {
    exists|key_text: &str|
        key_text@ == key && call_ensures(raw_get_string, (table, key_text), found)
}

/// Asks a table for the text under `key`.
pub(crate) fn get_string<'lua>(
    table: &mlua::Table<'lua>,
    key: &str,
) -> (found: Result<String, mlua::Error>)
    ensures
        got_string(table, key@, found),
{
    call2(raw_get_string, table, key)
}

/// `mlua::Table::set`, with a table as the value.
/// Both tables must belong to one interpreter: `mlua` asserts it.
#[verifier::external_body]
fn raw_set_table<'lua>(
    table: &mlua::Table<'lua>,
    key: &str,
    value: mlua::Table<'lua>,
) -> (stored: Result<(), mlua::Error>)
    requires
        home_of_table(&value) == home_of_table(table),
{
    table.set(key, value)
}

/// That `table` was told to hold the table `value` under `key` and answered `stored`.
pub closed spec fn stored_table<'lua>(
    table: &mlua::Table<'lua>,
    key: Seq<char>,
    value: mlua::Table<'lua>,
    stored: Result<(), mlua::Error>,
) -> bool {
    exists|key_text: &str|
        key_text@ == key && call_ensures(raw_set_table, (table, key_text, value), stored)
}

/// Tells a table to hold a table under `key`.
pub(crate) fn set_table<'lua>(
    table: &mlua::Table<'lua>,
    key: &str,
    value: mlua::Table<'lua>,
) -> (stored: Result<(), mlua::Error>)
    requires
        home_of_table(&value) == home_of_table(table),
    ensures
        stored_table(table, key@, value, stored),
{
    call3(raw_set_table, table, key, value)
}

/// `mlua::Table::set`, with a function as the value.
/// The table and the function must belong to one interpreter: `mlua` asserts it.
#[verifier::external_body]
fn raw_set_function<'lua>(
    table: &mlua::Table<'lua>,
    key: &str,
    value: mlua::Function<'lua>,
) -> (stored: Result<(), mlua::Error>)
    requires
        home_of_function(&value) == home_of_table(table),
{
    table.set(key, value)
}

/// That `table` was told to hold the function `value` under `key` and answered `stored`.
pub closed spec fn stored_function<'lua>(
    table: &mlua::Table<'lua>,
    key: Seq<char>,
    value: mlua::Function<'lua>,
    stored: Result<(), mlua::Error>,
) -> bool {
    exists|key_text: &str|
        key_text@ == key && call_ensures(raw_set_function, (table, key_text, value), stored)
}

/// Tells a table to hold a function under `key`.
pub(crate) fn set_function<'lua>(
    table: &mlua::Table<'lua>,
    key: &str,
    value: mlua::Function<'lua>,
) -> (stored: Result<(), mlua::Error>)
    requires
        home_of_function(&value) == home_of_table(table),
    ensures
        stored_function(table, key@, value, stored),
{
    call3(raw_set_function, table, key, value)
}

/// `mlua::Table::set`, with text as the value.
#[verifier::external_body]
fn raw_set_string<'lua>(
    table: &mlua::Table<'lua>,
    key: &str,
    value: &str,
) -> (stored: Result<(), mlua::Error>) {
    table.set(key, value)
}

/// That `table` was told to hold the text `value` under `key` and answered `stored`.
pub closed spec fn stored_string<'lua>(
    table: &mlua::Table<'lua>,
    key: Seq<char>,
    value: Seq<char>,
    stored: Result<(), mlua::Error>,
) -> bool {
    exists|key_text: &str, value_text: &str|
        key_text@ == key && value_text@ == value
            && call_ensures(raw_set_string, (table, key_text, value_text), stored)
}

/// Tells a table to hold a text under `key`.
pub(crate) fn set_string<'lua>(
    table: &mlua::Table<'lua>,
    key: &str,
    value: &str,
) -> (stored: Result<(), mlua::Error>)
    ensures
        stored_string(table, key@, value@, stored),
{
    call3(raw_set_string, table, key, value)
}

/// `mlua::Table::set`, with `nil` as the value: the entry is removed.
#[verifier::external_body]
fn raw_set_nil<'lua>(table: &mlua::Table<'lua>, key: &str) -> (stored: Result<(), mlua::Error>) {
    table.set(key, mlua::Nil)
}

/// That `table` was told to drop its entry under `key` and answered `stored`.
pub closed spec fn cleared<'lua>(
    table: &mlua::Table<'lua>,
    key: Seq<char>,
    stored: Result<(), mlua::Error>,
) -> bool {
    exists|key_text: &str| key_text@ == key && call_ensures(raw_set_nil, (table, key_text), stored)
}

/// Tells a table to drop its entry under `key`.
pub(crate) fn set_nil<'lua>(
    table: &mlua::Table<'lua>,
    key: &str,
) -> (stored: Result<(), mlua::Error>)
    ensures
        cleared(table, key@, stored),
{
    call2(raw_set_nil, table, key)
}

/// `mlua::Chunk::eval` on the named source, for a result that must be a table.
/// A table that came out belongs to the interpreter `lua`.
#[verifier::external_body]
fn raw_eval_table<'lua>(
    lua: &'lua mlua::Lua,
    name: &str,
    content: &str,
) -> (value: Result<mlua::Table<'lua>, mlua::Error>)
    ensures
        value matches Ok(given) ==> home_of_table(&given) == home_of_lua(lua),
{
    lua.load(content).set_name(name).eval()
}

/// That `content` was evaluated under the chunk name `name`, for a table, and gave `value`.
pub closed spec fn evaluated_table<'lua>(
    lua: &'lua mlua::Lua,
    name: Seq<char>,
    content: Seq<char>,
    value: Result<mlua::Table<'lua>, mlua::Error>,
) -> bool {
    exists|name_text: &str, content_text: &str|
        name_text@ == name && content_text@ == content
            && call_ensures(raw_eval_table, (lua, name_text, content_text), value)
}

/// Evaluates source text under a chunk name, for a table.
pub(crate) fn eval_table<'lua>(
    lua: &'lua mlua::Lua,
    name: &str,
    content: &str,
) -> (value: Result<mlua::Table<'lua>, mlua::Error>)
    ensures
        evaluated_table(lua, name@, content@, value),
        value matches Ok(given) ==> home_of_table(&given) == home_of_lua(lua),
{
    call3(raw_eval_table, lua, name, content)
}

/// `mlua::Chunk::eval` on the named source, for a result that must be a
/// function.
/// A function that came out belongs to the interpreter `lua`.
#[verifier::external_body]
fn raw_eval_function<'lua>(
    lua: &'lua mlua::Lua,
    name: &str,
    content: &str,
) -> (value: Result<mlua::Function<'lua>, mlua::Error>)
    ensures
        value matches Ok(given) ==> home_of_function(&given) == home_of_lua(lua),
{
    lua.load(content).set_name(name).eval()
}

/// That `content` was evaluated under the chunk name `name`, for a function, and
/// gave `value`.
pub closed spec fn evaluated_function<'lua>(
    lua: &'lua mlua::Lua,
    name: Seq<char>,
    content: Seq<char>,
    value: Result<mlua::Function<'lua>, mlua::Error>,
) -> bool {
    exists|name_text: &str, content_text: &str|
        name_text@ == name && content_text@ == content
            && call_ensures(raw_eval_function, (lua, name_text, content_text), value)
}

/// Evaluates source text under a chunk name, for a function.
pub(crate) fn eval_function<'lua>(
    lua: &'lua mlua::Lua,
    name: &str,
    content: &str,
) -> (value: Result<mlua::Function<'lua>, mlua::Error>)
    ensures
        evaluated_function(lua, name@, content@, value),
        value matches Ok(given) ==> home_of_function(&given) == home_of_lua(lua),
{
    call3(raw_eval_function, lua, name, content)
}

/// `mlua::Chunk::eval` on the named source, for any result.
/// What a value that came out holds belongs to the interpreter `lua`.
#[verifier::external_body]
fn raw_eval_value<'lua>(
    lua: &'lua mlua::Lua,
    name: &str,
    content: &str,
) -> (value: Result<mlua::Value<'lua>, mlua::Error>)
    ensures
        value matches Ok(given) ==> value_lives_in(&given, home_of_lua(lua)),
{
    lua.load(content).set_name(name).eval()
}

/// That `content` was evaluated under the chunk name `name` and gave `value`.
pub closed spec fn evaluated_value<'lua>(
    lua: &'lua mlua::Lua,
    name: Seq<char>,
    content: Seq<char>,
    value: Result<mlua::Value<'lua>, mlua::Error>,
) -> bool {
    exists|name_text: &str, content_text: &str|
        name_text@ == name && content_text@ == content
            && call_ensures(raw_eval_value, (lua, name_text, content_text), value)
}

/// Evaluates source text under a chunk name, for any value.
pub(crate) fn eval_value<'lua>(
    lua: &'lua mlua::Lua,
    name: &str,
    content: &str,
) -> (value: Result<mlua::Value<'lua>, mlua::Error>)
    ensures
        evaluated_value(lua, name@, content@, value),
        value matches Ok(given) ==> value_lives_in(&given, home_of_lua(lua)),
{
    call3(raw_eval_value, lua, name, content)
}

/// `mlua::Chunk::eval` on unnamed source, for a result that must convert to
/// text.
#[verifier::external_body]
fn raw_eval_string(lua: &mlua::Lua, content: &str) -> (value: Result<String, mlua::Error>) {
    lua.load(content).eval()
}

/// That `content` was evaluated, for a text, and gave `value`.
pub closed spec fn evaluated_string(
    lua: &mlua::Lua,
    content: Seq<char>,
    value: Result<String, mlua::Error>,
) -> bool {
    exists|content_text: &str|
        content_text@ == content && call_ensures(raw_eval_string, (lua, content_text), value)
}

/// Evaluates source text, for a text.
pub(crate) fn eval_string(lua: &mlua::Lua, content: &str) -> (value: Result<String, mlua::Error>)
    ensures
        evaluated_string(lua, content@, value),
{
    call2(raw_eval_string, lua, content)
}

/// `mlua::Chunk::exec` on unnamed source.
#[verifier::external_body]
fn raw_exec_source(lua: &mlua::Lua, content: &str) -> (done: Result<(), mlua::Error>) {
    lua.load(content).exec()
}

/// That `content` was run and ended with `done`.
pub closed spec fn source_ran(
    lua: &mlua::Lua,
    content: Seq<char>,
    done: Result<(), mlua::Error>,
) -> bool {
    exists|content_text: &str|
        content_text@ == content && call_ensures(raw_exec_source, (lua, content_text), done)
}

/// Runs source text.
pub(crate) fn exec_source(lua: &mlua::Lua, content: &str) -> (done: Result<(), mlua::Error>)
    ensures
        source_ran(lua, content@, done),
{
    call2(raw_exec_source, lua, content)
}

/// `mlua::Chunk::exec` on the named source.
#[verifier::external_body]
fn raw_exec_chunk(lua: &mlua::Lua, name: &str, content: &str) -> (done: Result<(), mlua::Error>) {
    lua.load(content).set_name(name).exec()
}

/// That `content` was run under the chunk name `name` and ended with `done`.
pub closed spec fn chunk_ran(
    lua: &mlua::Lua,
    name: Seq<char>,
    content: Seq<char>,
    done: Result<(), mlua::Error>,
) -> bool {
    exists|name_text: &str, content_text: &str|
        name_text@ == name && content_text@ == content
            && call_ensures(raw_exec_chunk, (lua, name_text, content_text), done)
}

/// Runs source text under a chunk name.
pub(crate) fn exec_chunk(
    lua: &mlua::Lua,
    name: &str,
    content: &str,
) -> (done: Result<(), mlua::Error>)
    ensures
        chunk_ran(lua, name@, content@, done),
{
    call3(raw_exec_chunk, lua, name, content)
}

/// `mlua::Function::call` with two text arguments, for a result that must
/// convert to text.
#[verifier::external_body]
fn raw_call_with_texts<'lua>(
    function: &mlua::Function<'lua>,
    first: &str,
    second: &str,
) -> (returned: Result<String, mlua::Error>) {
    function.call((first, second))
}

/// That `function` was called with the two texts and came back with `returned`.
pub closed spec fn called_with_texts<'lua>(
    function: &mlua::Function<'lua>,
    first: Seq<char>,
    second: Seq<char>,
    returned: Result<String, mlua::Error>,
) -> bool {
    exists|first_text: &str, second_text: &str|
        first_text@ == first && second_text@ == second
            && call_ensures(raw_call_with_texts, (function, first_text, second_text), returned)
}

/// Calls a guest function with two texts, for a text.
pub(crate) fn call_with_texts<'lua>(
    function: &mlua::Function<'lua>,
    first: &str,
    second: &str,
) -> (returned: Result<String, mlua::Error>)
    ensures
        called_with_texts(function, first@, second@, returned),
{
    call3(raw_call_with_texts, function, first, second)
}

/// `mlua::Function::call` with one value as the argument, for a result that
/// must convert to text.
/// What the value holds must belong to the interpreter of the function: `mlua`
/// asserts it.
#[verifier::external_body]
fn raw_call_with_value<'lua>(
    function: &mlua::Function<'lua>,
    argument: mlua::Value<'lua>,
) -> (returned: Result<String, mlua::Error>)
    requires
        value_lives_in(&argument, home_of_function(function)),
{
    function.call(argument)
}

/// That `function` was called with `argument` and came back with `returned`.
pub closed spec fn called_with_value<'lua>(
    function: &mlua::Function<'lua>,
    argument: mlua::Value<'lua>,
    returned: Result<String, mlua::Error>,
) -> bool {
    call_ensures(raw_call_with_value, (function, argument), returned)
}

/// Calls a guest function with one value, for a text.
pub(crate) fn call_with_value<'lua>(
    function: &mlua::Function<'lua>,
    argument: mlua::Value<'lua>,
) -> (returned: Result<String, mlua::Error>)
    requires
        value_lives_in(&argument, home_of_function(function)),
    ensures
        called_with_value(function, argument, returned),
{
    call2(raw_call_with_value, function, argument)
}

/// Which variant of `mlua::Value` a value is.
/// The kind depends on the value alone.
#[verifier::external_body]
pub(crate) fn value_kind<'lua>(value: &mlua::Value<'lua>) -> (kind: ValueKind)
    ensures
        kind == kind_of_value(value),
{
    match value {
        mlua::Value::Table(_) => ValueKind::Table,
        mlua::Value::String(_) => ValueKind::Text,
        mlua::Value::Number(_) => ValueKind::Number,
        mlua::Value::Integer(_) => ValueKind::Integer,
        mlua::Value::Boolean(_) => ValueKind::Boolean,
        _ => ValueKind::Other,
    }
}

/// `mlua::Value::to_string`: the text of a value.
#[verifier::external_body]
fn raw_value_text<'lua>(value: &mlua::Value<'lua>) -> (text: Result<String, mlua::Error>) {
    value.to_string()
}

/// That `value` was asked for its text and answered `text`.
pub closed spec fn text_of<'lua>(
    value: &mlua::Value<'lua>,
    text: Result<String, mlua::Error>,
) -> bool {
    call_ensures(raw_value_text, (value,), text)
}

/// The text of a guest value.
pub(crate) fn value_text<'lua>(value: &mlua::Value<'lua>) -> (text: Result<String, mlua::Error>)
    ensures
        text_of(value, text),
{
    call1(raw_value_text, value)
}

/// `serde_json::to_string` on a value: its JSON text, or `None` where the
/// value has none.
#[verifier::external_body]
fn raw_value_json<'lua>(value: &mlua::Value<'lua>) -> (text: Option<String>) {
    serde_json::to_string(value).ok()
}

/// That `value` was encoded as JSON and gave `text`.
pub closed spec fn json_of_value<'lua>(value: &mlua::Value<'lua>, text: Option<String>) -> bool {
    call_ensures(raw_value_json, (value,), text)
}

/// The JSON text of a guest value, if it has one.
pub(crate) fn value_json<'lua>(value: &mlua::Value<'lua>) -> (text: Option<String>)
    ensures
        json_of_value(value, text),
{
    call1(raw_value_json, value)
}

/// `mlua::Lua::create_function` for the callback that evaluates the `Data`
/// of a message.
/// A function that was made belongs to the interpreter `lua`.
#[verifier::external_body]
fn raw_create_eval_callback<'lua>(
    lua: &'lua mlua::Lua,
) -> (made: Result<mlua::Function<'lua>, mlua::Error>)
    ensures
        made matches Ok(fresh) ==> home_of_function(&fresh) == home_of_lua(lua),
{
    lua.create_function(|lua, message: mlua::Table| crate::eval::evaluate_message(lua, message))
}

/// That the interpreter was asked for the evaluation callback and answered `made`.
pub closed spec fn made_eval_callback<'lua>(
    lua: &'lua mlua::Lua,
    made: Result<mlua::Function<'lua>, mlua::Error>,
) -> bool {
    call_ensures(raw_create_eval_callback, (lua,), made)
}

/// Makes the guest function that evaluates the `Data` of a message.
pub(crate) fn create_eval_callback<'lua>(
    lua: &'lua mlua::Lua,
) -> (made: Result<mlua::Function<'lua>, mlua::Error>)
    ensures
        made_eval_callback(lua, made),
        made matches Ok(fresh) ==> home_of_function(&fresh) == home_of_lua(lua),
{
    call1(raw_create_eval_callback, lua)
}

/// `mlua::Lua::create_function` for the `.eval` module, which takes the
/// guest's `ao` table and hands out the evaluation callback.
/// A function that was made belongs to the interpreter `lua`.
#[verifier::external_body]
fn raw_create_eval_module<'lua>(
    lua: &'lua mlua::Lua,
) -> (made: Result<mlua::Function<'lua>, mlua::Error>)
    ensures
        made matches Ok(fresh) ==> home_of_function(&fresh) == home_of_lua(lua),
{
    lua.create_function(|lua, ao: mlua::Table| crate::eval::bind_process(lua, ao))
}

/// That the interpreter was asked for the `.eval` module and answered `made`.
pub closed spec fn made_eval_module<'lua>(
    lua: &'lua mlua::Lua,
    made: Result<mlua::Function<'lua>, mlua::Error>,
) -> bool {
    call_ensures(raw_create_eval_module, (lua,), made)
}

/// Makes the guest function that is the `.eval` module.
pub(crate) fn create_eval_module<'lua>(
    lua: &'lua mlua::Lua,
) -> (made: Result<mlua::Function<'lua>, mlua::Error>)
    ensures
        made_eval_module(lua, made),
        made matches Ok(fresh) ==> home_of_function(&fresh) == home_of_lua(lua),
{
    call1(raw_create_eval_module, lua)
}

/// `serde_json::to_string` on a table.
#[verifier::external_body]
fn raw_table_json<'lua>(table: &mlua::Table<'lua>) -> (text: Result<String, serde_json::Error>) {
    serde_json::to_string(table)
}

/// That `table` was encoded as JSON and gave `text`.
pub closed spec fn json_of_table<'lua>(
    table: &mlua::Table<'lua>,
    text: Result<String, serde_json::Error>,
) -> bool {
    call_ensures(raw_table_json, (table,), text)
}

/// The JSON text of a guest table.
pub(crate) fn table_json<'lua>(
    table: &mlua::Table<'lua>,
) -> (text: Result<String, serde_json::Error>)
    ensures
        json_of_table(table, text),
{
    call1(raw_table_json, table)
}

/// `serde_json::from_str`, for any JSON value.
/// The result depends on the text alone.
#[verifier::external_body]
pub(crate) fn parse_json(text: &str) -> (value: Result<serde_json::Value, serde_json::Error>)
    ensures
        value == json_parsed(text@),
{
    serde_json::from_str(text)
}

/// `mlua::LuaSerdeExt::to_value` on a JSON value: the guest value that
/// stands for it.
/// What a value that came out holds belongs to the interpreter `lua`.
#[verifier::external_body]
fn raw_json_to_value<'lua>(
    lua: &'lua mlua::Lua,
    json: &serde_json::Value,
) -> (value: Result<mlua::Value<'lua>, mlua::Error>)
    ensures
        value matches Ok(given) ==> value_lives_in(&given, home_of_lua(lua)),
{
    mlua::LuaSerdeExt::to_value(lua, json)
}

/// That the interpreter was asked for the guest value of `json` and answered
/// `value`.
pub closed spec fn value_of_json<'lua>(
    lua: &'lua mlua::Lua,
    json: &serde_json::Value,
    value: Result<mlua::Value<'lua>, mlua::Error>,
) -> bool {
    call_ensures(raw_json_to_value, (lua, json), value)
}

/// The guest value that stands for a JSON value.
pub(crate) fn json_to_value<'lua>(
    lua: &'lua mlua::Lua,
    json: &serde_json::Value,
) -> (value: Result<mlua::Value<'lua>, mlua::Error>)
    ensures
        value_of_json(lua, json, value),
        value matches Ok(given) ==> value_lives_in(&given, home_of_lua(lua)),
{
    call2(raw_json_to_value, lua, json)
}

/// `mlua::Error::external` on a JSON error: the error as the guest gets it.
/// The result depends on the error alone.
#[verifier::external_body]
pub(crate) fn json_error(cause: serde_json::Error) -> (error: mlua::Error)
    ensures
        error == guest_error(cause),
{
    mlua::Error::external(cause)
}

/// `mlua::Lua::create_function` for the encoder of the codec.
/// A function that was made belongs to the interpreter `lua`.
#[verifier::external_body]
fn raw_create_encoder<'lua>(
    lua: &'lua mlua::Lua,
) -> (made: Result<mlua::Function<'lua>, mlua::Error>)
    ensures
        made matches Ok(fresh) ==> home_of_function(&fresh) == home_of_lua(lua),
{
    lua.create_function(|_, table: mlua::Table| crate::utils::from_table(table))
}

/// That the interpreter was asked for the encoder of the codec and answered
/// `made`.
pub closed spec fn made_encoder<'lua>(
    lua: &'lua mlua::Lua,
    made: Result<mlua::Function<'lua>, mlua::Error>,
) -> bool {
    call_ensures(raw_create_encoder, (lua,), made)
}

/// Makes the guest function that encodes a table as JSON.
pub(crate) fn create_encoder<'lua>(
    lua: &'lua mlua::Lua,
) -> (made: Result<mlua::Function<'lua>, mlua::Error>)
    ensures
        made_encoder(lua, made),
        made matches Ok(fresh) ==> home_of_function(&fresh) == home_of_lua(lua),
{
    call1(raw_create_encoder, lua)
}

/// `mlua::Lua::create_function` for the decoder of the codec.
/// A function that was made belongs to the interpreter `lua`.
#[verifier::external_body]
fn raw_create_decoder<'lua>(
    lua: &'lua mlua::Lua,
) -> (made: Result<mlua::Function<'lua>, mlua::Error>)
    ensures
        made matches Ok(fresh) ==> home_of_function(&fresh) == home_of_lua(lua),
{
    lua.create_function(|lua, text: String| crate::utils::to_table(lua, text))
}

/// That the interpreter was asked for the decoder of the codec and answered
/// `made`.
pub closed spec fn made_decoder<'lua>(
    lua: &'lua mlua::Lua,
    made: Result<mlua::Function<'lua>, mlua::Error>,
) -> bool {
    call_ensures(raw_create_decoder, (lua,), made)
}

/// Makes the guest function that decodes JSON text.
pub(crate) fn create_decoder<'lua>(
    lua: &'lua mlua::Lua,
) -> (made: Result<mlua::Function<'lua>, mlua::Error>)
    ensures
        made_decoder(lua, made),
        made matches Ok(fresh) ==> home_of_function(&fresh) == home_of_lua(lua),
{
    call1(raw_create_decoder, lua)
}

} // verus!
