//! The module `eval`.

use vstd::prelude::*;
use crate::lua::{home_of_lua, home_of_table};
use crate::preloader::{global_registered, set_global, LoadError, LoadStage, LoadType};

verus! {

/// Registers the module `eval` in `loaded`: a function that makes the
/// guest's own handler for the evaluation of expressions.
pub fn main<'lua>(lua: &'lua mlua::Lua, loaded: &mlua::Table<'lua>) -> (result: Result<
    (),
    LoadError,
>)
    requires
        home_of_table(loaded) == home_of_lua(lua),
    ensures
        global_registered(lua, loaded, NAME@, SOURCE@, LoadType::Function, result),
        result matches Err(error) ==> error.stage == LoadStage::Evaluate || error.stage
            == LoadStage::Store,
{
    set_global(lua, loaded, NAME, SOURCE, LoadType::Function)
}

/// The name under which the module is registered.
pub const NAME: &'static str = "eval";

/// The source text of the module. It defines the global `eval`.
pub const SOURCE: &'static str = r#"local stringify = require("stringify")
-- handler for eval
function eval(ao)
  return function (msg)
    -- exec expression
    local expr = msg.Data
    local func, err = load("return " .. expr, 'aos', 't', _G)
    local output = ""
    local e = nil
    if err then
      func, err = load(expr, 'aos', 't', _G)
    end
    if func then
      output, e = func()
    else
      ao.outbox.Error = err
      return
    end
    if e then
      ao.outbox.Error = e
      return
    end
    -- set result in outbox.Output
    ao.outbox.Output = { data = {
      json = type(output) == "table" and pcall(function () return json.encode(output) end) and output or "undefined",
      output = type(output) == "table" and stringify.format(output) or output,
      prompt = Prompt()
    }}
  end
end
"#;

} // verus!
