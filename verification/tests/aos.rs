use aos_runtime::aos::{lua_program_handle, lua_src_default, lua_src_eval, lua_src_pretty};
use aos_runtime::preloader::{
    loaded_modules, perform, register_unit, run, set_global, set_loaded, BootStep, BuiltinUnit,
    LoadStage, LoadType,
};
use mlua::Lua;

#[test]
fn set_global_moves_the_global_into_the_registry() {
    let lua = Lua::new();
    let loaded = loaded_modules(&lua).ok().unwrap();
    let result = set_global(
        &lua,
        &loaded,
        "tool",
        "tool = { answer = 42 }",
        LoadType::Table,
    );
    assert!(result.is_ok());
    let answer: i64 = lua.load("return require('tool').answer").eval().unwrap();
    assert_eq!(answer, 42);
    let cleared: bool = lua.load("return tool == nil").eval().unwrap();
    assert!(cleared);
}

#[test]
fn set_global_needs_the_global_to_be_of_the_kind() {
    let lua = Lua::new();
    let loaded = loaded_modules(&lua).ok().unwrap();
    let missing = set_global(&lua, &loaded, "absent", "other = {}", LoadType::Table);
    assert_eq!(missing.err().unwrap().stage, LoadStage::Evaluate);
    let wrong = set_global(&lua, &loaded, "f", "function f() end", LoadType::Table);
    assert_eq!(wrong.err().unwrap().stage, LoadStage::Evaluate);
    let broken = set_global(&lua, &loaded, "g", "g = ", LoadType::Table);
    assert_eq!(broken.err().unwrap().stage, LoadStage::Evaluate);
}

#[test]
fn run_executes_the_source() {
    let lua = Lua::new();
    assert!(run(&lua, "ran = 'yes'").is_ok());
    let ran: String = lua.globals().get("ran").unwrap();
    assert_eq!(ran, "yes");
    assert_eq!(run(&lua, "error('x')").err().unwrap().stage, LoadStage::Evaluate);
}

#[test]
fn pretty_prints_a_table() {
    let lua = Lua::new();
    let loaded = loaded_modules(&lua).ok().unwrap();
    assert!(lua_src_pretty::main(&lua, &loaded).is_ok());
    let text: String = lua
        .load("return require('pretty').tprint({ name = 'Bob' })")
        .eval()
        .unwrap();
    assert_eq!(text, "name: Bob\n");
    let flag: String = lua
        .load("return require('pretty').tprint({ on = true }, 2)")
        .eval()
        .unwrap();
    assert_eq!(flag, "  on: true\n");
    let cleared: bool = lua.load("return pretty == nil").eval().unwrap();
    assert!(cleared);
}

#[test]
fn default_makes_a_handler() {
    let lua = Lua::new();
    let loaded = loaded_modules(&lua).ok().unwrap();
    assert!(lua_src_default::main(&lua, &loaded).is_ok());
    lua.load(
        r#"
        Colors = { gray = '', green = '', blue = '', reset = '' }
        inbox = {}
        printed = nil
        print = function(text) printed = text end
        local handler = require('default')(function(msg) table.insert(inbox, msg) end)
        handler({ From = 'abcdefgh', Action = 'Greet' })
    "#,
    )
    .exec()
    .unwrap();
    let kept: i64 = lua.load("return #inbox").eval().unwrap();
    let printed: String = lua.globals().get("printed").unwrap();
    assert_eq!(kept, 1);
    assert_eq!(printed, "New Message From abc...fgh: Action = Greet");
}

#[test]
fn eval_needs_stringify_first() {
    let lua = Lua::new();
    let loaded = loaded_modules(&lua).ok().unwrap();
    let early = lua_src_eval::main(&lua, &loaded);
    assert_eq!(early.err().unwrap().stage, LoadStage::Evaluate);

    assert!(set_loaded(
        &lua,
        "stringify",
        "return { format = function(t) return 'formatted' end }",
        LoadType::Table
    )
    .is_ok());
    assert!(lua_src_eval::main(&lua, &loaded).is_ok());
    lua.load(
        r#"
        function Prompt() return 'p> ' end
        local ao = { outbox = {} }
        require('eval')(ao)({ Data = '1 + 2' })
        output = ao.outbox.Output.data.output
        prompt = ao.outbox.Output.data.prompt
    "#,
    )
    .exec()
    .unwrap();
    let output: i64 = lua.globals().get("output").unwrap();
    let prompt: String = lua.globals().get("prompt").unwrap();
    assert_eq!(output, 3);
    assert_eq!(prompt, "p> ");
}

#[test]
fn the_program_defines_handle() {
    let lua = Lua::new();
    assert_eq!(
        lua_program_handle::main(&lua).err().unwrap().stage,
        LoadStage::Evaluate
    );
    let steps = vec![
        BootStep::Module {
            name: "json".to_string(),
            content: "return { decode = function(s) return { text = s } end, encode = function(t) return tostring(t.ok) .. ':' .. t.response end }".to_string(),
            load_type: LoadType::Table,
        },
        BootStep::Module {
            name: "ao".to_string(),
            content: "return { init = function(env) end, normalize = function(msg) return msg end }".to_string(),
            load_type: LoadType::Table,
        },
        BootStep::Module {
            name: "process".to_string(),
            content: "return { handle = function(msg, ao) return 'got ' .. msg.text end }".to_string(),
            load_type: LoadType::Table,
        },
        BootStep::Unit(BuiltinUnit::Program),
    ];
    for step in steps.iter() {
        assert!(perform(&lua, step).is_ok());
    }
    let answer: String = lua.load("return handle('m', 'e')").eval().unwrap();
    assert_eq!(answer, "true:got m");
}

#[test]
fn units_are_registered_by_name() {
    let lua = Lua::new();
    assert!(register_unit(&lua, BuiltinUnit::Pretty).is_ok());
    assert!(register_unit(&lua, BuiltinUnit::Default).is_ok());
    let kinds: String = lua
        .load("return type(package.loaded.pretty) .. ',' .. type(package.loaded.default)")
        .eval()
        .unwrap();
    assert_eq!(kinds, "table,function");
    assert_eq!(
        register_unit(&lua, BuiltinUnit::Eval).err().unwrap().stage,
        LoadStage::Evaluate
    );
}
