use aos_runtime::preloader::{
    BuiltinUnit, PING_SCRIPT,
};
use aos_runtime::preloader::{
    boot_sequence, exec, perform, perform_sequence, set_bundle, set_eval_lua, set_loaded, BootStep, LoadStage, LoadType,
};
use mlua::Lua;

#[test]
fn test_set_loaded() {
    let lua = Lua::new();
    let content = r#"
            return {
                hello = function()
                    return "world"
                end
            }
        "#;

    let result = set_loaded(&lua, "hello_module", content, LoadType::Table);
    assert!(result.is_ok());

    let hello: mlua::Function = lua
        .load("return require('hello_module').hello")
        .eval()
        .unwrap();
    let result: String = hello.call(()).unwrap();
    assert_eq!(result, "world");
}

#[test]
fn test_set_bundle() {
    let lua = Lua::new();
    lua.globals()
        .set("lua_bundle", lua.create_table().unwrap())
        .unwrap();

    let content = "some_test_bundle_content";

    let result = set_bundle(&lua, "test_bundle", content);
    assert!(result.is_ok());

    let lua_bundle: mlua::Table = lua.globals().get("lua_bundle").unwrap();
    let stored_content: String = lua_bundle.get("test_bundle").unwrap();
    assert_eq!(stored_content, content);
}

#[test]
fn test_exec() {
    let lua = Lua::new();

    let content = r#"
            function hello()
                return "world"
            end
        "#;

    let result = exec(&lua, "test_code", content);
    assert!(result.is_ok());

    let hello: mlua::Function = lua.globals().get("hello").unwrap();
    let result: String = hello.call(()).unwrap();
    assert_eq!(result, "world");
}

#[test]
fn set_loaded_registers_a_function() {
    let lua = Lua::new();
    let result = set_loaded(
        &lua,
        ".twice",
        "return function(n) return n * 2 end",
        LoadType::Function,
    );
    assert!(result.is_ok());
    let doubled: i64 = lua.load("return require('.twice')(21)").eval().unwrap();
    assert_eq!(doubled, 42);
}

#[test]
fn set_loaded_rejects_a_value_of_the_other_kind() {
    let lua = Lua::new();
    let as_function = set_loaded(&lua, "t", "return { a = 1 }", LoadType::Function);
    assert_eq!(as_function.err().unwrap().stage, LoadStage::Evaluate);
    let as_table = set_loaded(&lua, "f", "return function() end", LoadType::Table);
    assert_eq!(as_table.err().unwrap().stage, LoadStage::Evaluate);
    let loaded: mlua::Table = lua
        .globals()
        .get::<_, mlua::Table>("package")
        .unwrap()
        .get("loaded")
        .unwrap();
    assert!(!loaded.contains_key("t").unwrap());
    assert!(!loaded.contains_key("f").unwrap());
}

#[test]
fn set_loaded_reports_a_syntax_error_with_the_chunk_name() {
    let lua = Lua::new();
    let error = set_loaded(&lua, "broken_unit", "return {", LoadType::Table)
        .err()
        .unwrap();
    assert_eq!(error.stage, LoadStage::Evaluate);
    assert!(error.message.contains("broken_unit"));
}

#[test]
fn set_loaded_twice_replaces_the_entry() {
    let lua = Lua::new();
    assert!(set_loaded(&lua, "m", "return { v = 1 }", LoadType::Table).is_ok());
    assert!(set_loaded(&lua, "m", "return { v = 2 }", LoadType::Table).is_ok());
    let v: i64 = lua.load("return require('m').v").eval().unwrap();
    assert_eq!(v, 2);
}

#[test]
fn a_module_fails_before_its_import_and_succeeds_after_it() {
    let lua = Lua::new();
    let a = "return { value = 7 }";
    let b = "local a = require('dep_a')\nreturn { value = a.value + 1 }";

    let early = set_loaded(&lua, "dep_b", b, LoadType::Table);
    assert_eq!(early.err().unwrap().stage, LoadStage::Evaluate);

    assert!(set_loaded(&lua, "dep_a", a, LoadType::Table).is_ok());
    assert!(set_loaded(&lua, "dep_b", b, LoadType::Table).is_ok());
    let value: i64 = lua.load("return require('dep_b').value").eval().unwrap();
    assert_eq!(value, 8);
}

#[test]
fn set_bundle_without_a_registry_fails_at_lookup() {
    let lua = Lua::new();
    let error = set_bundle(&lua, "x", "y").err().unwrap();
    assert_eq!(error.stage, LoadStage::Lookup);
}

#[test]
fn bundle_and_module_names_do_not_collide() {
    let lua = Lua::new();
    lua.globals()
        .set("lua_bundle", lua.create_table().unwrap())
        .unwrap();
    assert!(set_loaded(&lua, "same", "return { kind = 'module' }", LoadType::Table).is_ok());
    assert!(set_bundle(&lua, "same", "return { kind = 'bundle' }").is_ok());
    let kind: String = lua.load("return require('same').kind").eval().unwrap();
    assert_eq!(kind, "module");
    let text: String = lua.load("return lua_bundle['same']").eval().unwrap();
    assert_eq!(text, "return { kind = 'bundle' }");
}

#[test]
fn exec_reports_a_runtime_error() {
    let lua = Lua::new();
    let error = exec(&lua, "boom", "error('went wrong')").err().unwrap();
    assert_eq!(error.stage, LoadStage::Evaluate);
    assert!(error.message.contains("went wrong"));
}

#[test]
fn an_empty_sequence_succeeds() {
    let lua = Lua::new();
    assert!(perform_sequence(&lua, &Vec::new()).is_ok());
}

#[test]
fn a_sequence_runs_in_order() {
    let lua = Lua::new();
    let steps = vec![
        BootStep::Script {
            name: "init".to_string(),
            content: "lua_bundle = {}".to_string(),
        },
        BootStep::Module {
            name: "first".to_string(),
            content: "return { n = 1 }".to_string(),
            load_type: LoadType::Table,
        },
        BootStep::Module {
            name: "second".to_string(),
            content: "return function() return require('first').n + 1 end".to_string(),
            load_type: LoadType::Function,
        },
        BootStep::Bundle {
            name: "raw".to_string(),
            content: "return 3".to_string(),
        },
    ];
    assert!(perform_sequence(&lua, &steps).is_ok());
    let two: i64 = lua.load("return require('second')()").eval().unwrap();
    assert_eq!(two, 2);
    let three: i64 = lua.load("return load(lua_bundle.raw)()").eval().unwrap();
    assert_eq!(three, 3);
}

#[test]
fn a_sequence_stops_at_the_first_failure() {
    let lua = Lua::new();
    let steps = vec![
        BootStep::Script {
            name: "one".to_string(),
            content: "seen = 1".to_string(),
        },
        BootStep::Module {
            name: "needs".to_string(),
            content: "return require('absent')".to_string(),
            load_type: LoadType::Table,
        },
        BootStep::Script {
            name: "three".to_string(),
            content: "seen = 3".to_string(),
        },
    ];
    let error = perform_sequence(&lua, &steps).err().unwrap();
    assert_eq!(error.step, 1);
    assert_eq!(error.cause.stage, LoadStage::Evaluate);
    let seen: i64 = lua.globals().get("seen").unwrap();
    assert_eq!(seen, 1);
}

#[test]
fn perform_installs_eval_support() {
    let lua = Lua::new();
    assert!(perform(&lua, &BootStep::EvalSupport).is_ok());
    let is_function: bool = lua
        .load("return type(package.loaded['.eval']) == 'function' and type(lua_bundle['.eval-cb']) == 'function'")
        .eval()
        .unwrap();
    assert!(is_function);
}

fn eval_ready() -> Lua {
    let lua = Lua::new();
    assert!(set_loaded(
        &lua,
        ".stringify",
        "return { format = function(t) return 'table of ' .. #t end }",
        LoadType::Table
    )
    .is_ok());
    assert!(set_eval_lua(&lua).is_ok());
    lua.load("function Prompt() return 'test> ' end\nao_table = { outbox = {} }\nrun = require('.eval')(ao_table)")
        .exec()
        .unwrap();
    lua
}

#[test]
fn eval_keeps_an_existing_bundle_registry() {
    let lua = Lua::new();
    lua.load("lua_bundle = { kept = 'yes' }").exec().unwrap();
    assert!(set_eval_lua(&lua).is_ok());
    let kept: String = lua.load("return lua_bundle.kept").eval().unwrap();
    assert_eq!(kept, "yes");
}

#[test]
fn eval_of_an_integer_expression() {
    let lua = eval_ready();
    lua.load("run({ Data = '1 + 2' })").exec().unwrap();
    let output: String = lua.load("return ao_table.outbox.Output.output").eval().unwrap();
    let json: String = lua.load("return ao_table.outbox.Output.json").eval().unwrap();
    let prompt: String = lua.load("return ao_table.outbox.Output.prompt").eval().unwrap();
    assert_eq!(output, "3");
    assert_eq!(json, "undefined");
    assert_eq!(prompt, "test> ");
    let same: bool = lua.load("return _AO == ao_table").eval().unwrap();
    assert!(same);
}

#[test]
fn eval_of_text_boolean_and_nil() {
    let lua = eval_ready();
    lua.load("run({ Data = [['a' .. 'b']] })").exec().unwrap();
    let text: String = lua.load("return ao_table.outbox.Output.output").eval().unwrap();
    assert_eq!(text, "ab");
    lua.load("run({ Data = '1 < 2' })").exec().unwrap();
    let truth: String = lua.load("return ao_table.outbox.Output.output").eval().unwrap();
    assert_eq!(truth, "true");
    lua.load("run({ Data = 'nil' })").exec().unwrap();
    let nothing: String = lua.load("return ao_table.outbox.Output.output").eval().unwrap();
    assert_eq!(nothing, "nil");
}

#[test]
fn eval_of_a_table() {
    let lua = eval_ready();
    lua.load("run({ Data = '{ 10, 20, 30 }' })").exec().unwrap();
    let output: String = lua.load("return ao_table.outbox.Output.output").eval().unwrap();
    let json: String = lua.load("return ao_table.outbox.Output.json").eval().unwrap();
    assert_eq!(output, "table of 3");
    assert_eq!(json, "[10,20,30]");
}

#[test]
fn eval_of_a_table_without_json_form() {
    let lua = eval_ready();
    lua.load("run({ Data = '{ f = function() end }' })").exec().unwrap();
    let json: String = lua.load("return ao_table.outbox.Output.json").eval().unwrap();
    assert_eq!(json, "undefined");
}

#[test]
fn eval_without_prompt_uses_the_default() {
    let lua = eval_ready();
    lua.load("Prompt = nil\nrun({ Data = '5' })").exec().unwrap();
    let prompt: String = lua.load("return ao_table.outbox.Output.prompt").eval().unwrap();
    assert_eq!(prompt, "aos> ");
}

#[test]
fn eval_of_empty_data_is_refused() {
    let lua = eval_ready();
    lua.load("run({ Data = '' })").exec().unwrap();
    let error: String = lua.load("return ao_table.outbox.Error").eval().unwrap();
    assert_eq!(error, "No Data to Eval, received empty string.");
    let no_output: bool = lua.load("return ao_table.outbox.Output == nil").eval().unwrap();
    assert!(no_output);
}

#[test]
fn eval_of_missing_data_is_refused() {
    let lua = eval_ready();
    lua.load("run({})").exec().unwrap();
    let error: String = lua.load("return ao_table.outbox.Error").eval().unwrap();
    assert!(error.starts_with("Error evaluating Data. "));
}

#[test]
fn eval_of_failing_code_reports_the_error() {
    let lua = eval_ready();
    lua.load("run({ Data = [[error('nope')]] })").exec().unwrap();
    let error: String = lua.load("return ao_table.outbox.Error").eval().unwrap();
    assert!(error.contains("nope"));
}

#[test]
fn eval_without_stringify_fails_the_call() {
    let lua = Lua::new();
    assert!(set_eval_lua(&lua).is_ok());
    let outcome = lua
        .load("local run = require('.eval')({ outbox = {} })\nrun({ Data = '1' })")
        .exec();
    assert!(outcome.is_err());
}

#[test]
fn the_boot_sequence_is_fixed() {
    let steps = boot_sequence();
    assert_eq!(steps.len(), 5);
    assert!(matches!(steps[0], BootStep::Unit(BuiltinUnit::Pretty)));
    assert!(matches!(steps[1], BootStep::Unit(BuiltinUnit::Eval)));
    assert!(matches!(steps[2], BootStep::Unit(BuiltinUnit::Default)));
    assert!(matches!(steps[3], BootStep::Unit(BuiltinUnit::Program)));
    match &steps[4] {
        BootStep::Script { name, content } => {
            assert_eq!(name, "pingpong");
            assert_eq!(content, PING_SCRIPT);
            assert_eq!(
                content,
                "Handlers.add(\"pingpong\", Handlers.utils.hasMatchingTag(\"Action\", \"ping\"), Handlers.utils.reply(\"pong\"))"
            );
        }
        _ => panic!("another step"),
    }
}

#[test]
fn the_ping_script_registers_the_handler_once() {
    let lua = Lua::new();
    lua.load(
        r#"
        added = {}
        Handlers = {
            add = function(name, pattern, handle) table.insert(added, { name, pattern, handle }) end,
            utils = {
                hasMatchingTag = function(tag, value) return tag .. '=' .. value end,
                reply = function(text) return text end,
            },
        }
    "#,
    )
    .exec()
    .unwrap();
    let steps = boot_sequence();
    assert!(perform(&lua, &steps[4]).is_ok());
    let seen: String = lua
        .load("return #added .. ':' .. added[1][1] .. ':' .. added[1][2] .. ':' .. added[1][3]")
        .eval()
        .unwrap();
    assert_eq!(seen, "1:pingpong:Action=ping:pong");
}
