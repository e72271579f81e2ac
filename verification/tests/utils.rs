use aos_runtime::utils::preload_serde_json;
use mlua::Lua;

#[test]
fn the_codec_is_registered() {
    let lua = Lua::new();
    assert!(preload_serde_json(&lua).is_ok());
    let shape: bool = lua
        .load("local c = require('serde_json')\nreturn type(c.from_table) == 'function' and type(c.to_table) == 'function'")
        .eval()
        .unwrap();
    assert!(shape);
}

#[test]
fn the_codec_encodes_a_table() {
    let lua = Lua::new();
    assert!(preload_serde_json(&lua).is_ok());
    let array: String = lua
        .load("return require('serde_json').from_table({ 1, 'two', true })")
        .eval()
        .unwrap();
    assert_eq!(array, "[1,\"two\",true]");
    let object: String = lua
        .load("return require('serde_json').from_table({ name = 'Bob' })")
        .eval()
        .unwrap();
    assert_eq!(object, "{\"name\":\"Bob\"}");
}

#[test]
fn the_codec_decodes_text() {
    let lua = Lua::new();
    assert!(preload_serde_json(&lua).is_ok());
    lua.globals()
        .set("text", "{\"name\":\"Bob\",\"age\":96,\"is_active\":false,\"tags\":[\"a\",\"b\"]}")
        .unwrap();
    let name: String = lua
        .load("return require('serde_json').to_table(text).name")
        .eval()
        .unwrap();
    let age: i64 = lua
        .load("return require('serde_json').to_table(text).age")
        .eval()
        .unwrap();
    let active: bool = lua
        .load("return require('serde_json').to_table(text).is_active")
        .eval()
        .unwrap();
    let second: String = lua
        .load("return require('serde_json').to_table(text).tags[2]")
        .eval()
        .unwrap();
    assert_eq!(name, "Bob");
    assert_eq!(age, 96);
    assert!(!active);
    assert_eq!(second, "b");
}

#[test]
fn the_codec_round_trips() {
    let lua = Lua::new();
    assert!(preload_serde_json(&lua).is_ok());
    let text: String = lua
        .load("local c = require('serde_json')\nreturn c.from_table(c.to_table('[10,20,30]'))")
        .eval()
        .unwrap();
    assert_eq!(text, "[10,20,30]");
}

#[test]
fn the_codec_raises_on_text_that_is_no_json() {
    let lua = Lua::new();
    assert!(preload_serde_json(&lua).is_ok());
    let caught: bool = lua
        .load("return pcall(require('serde_json').to_table, '{ not json')")
        .eval()
        .unwrap();
    assert!(!caught);
}

#[test]
fn the_codec_raises_on_a_table_without_json_form() {
    let lua = Lua::new();
    assert!(preload_serde_json(&lua).is_ok());
    let caught: bool = lua
        .load("return pcall(require('serde_json').from_table, { f = function() end })")
        .eval()
        .unwrap();
    assert!(!caught);
}
