//! The module `pretty`.

use vstd::prelude::*;
use crate::lua::{home_of_lua, home_of_table};
use crate::preloader::{global_registered, set_global, LoadError, LoadStage, LoadType};

verus! {

/// Registers the module `pretty` in `loaded`: a table with the function
/// `tprint`, which renders a table line by line.
pub fn main<'lua>(lua: &'lua mlua::Lua, loaded: &mlua::Table<'lua>) -> (result: Result<
    (),
    LoadError,
>)
    requires
        home_of_table(loaded) == home_of_lua(lua),
    ensures
        global_registered(lua, loaded, NAME@, SOURCE@, LoadType::Table, result),
        result matches Err(error) ==> error.stage == LoadStage::Evaluate || error.stage
            == LoadStage::Store,
{
    set_global(lua, loaded, NAME, SOURCE, LoadType::Table)
}

/// The name under which the module is registered.
pub const NAME: &'static str = "pretty";

/// The source text of the module. It defines the global `pretty`.
pub const SOURCE: &'static str = r#"pretty = { _version = "0.0.1"}

function pretty.tprint (tbl, indent)
  if not indent then indent = 0 end
  local output = ""
  for k, v in pairs(tbl) do
    local formatting = string.rep(" ", indent) .. k .. ": "
    if type(v) == "table" then
      output = output .. formatting .. "\n"
      output = output .. pretty.tprint(v, indent+1)
    elseif type(v) == 'boolean' then
      output = output .. formatting .. tostring(v) .. "\n"
    else
      output = output .. formatting .. v .. "\n"
    end
  end
  return output
end"#;

} // verus!
