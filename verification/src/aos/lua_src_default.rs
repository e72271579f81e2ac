//! The module `default`.

use vstd::prelude::*;
use crate::lua::{home_of_lua, home_of_table};
use crate::preloader::{global_registered, set_global, LoadError, LoadStage, LoadType};

verus! {

/// Registers the module `default` in `loaded`: a function that makes the
/// handler for messages that no other handler takes.
pub fn main<'lua>(lua: &'lua mlua::Lua, loaded: &mlua::Table<'lua>) -> (result: Result<
    (),
    LoadError,
>)
    requires
        home_of_table(loaded) == home_of_lua(lua),
    ensures
        global_registered(lua, loaded, NAME@, SOURCE@, LoadType::Function, result),
        result matches Err(error) ==> error.stage == LoadStage::Evaluate || error.stage
            == LoadStage::Store,
{
    set_global(lua, loaded, NAME, SOURCE, LoadType::Function)
}

/// The name under which the module is registered.
pub const NAME: &'static str = "default";

/// The source text of the module. It defines the global `default`.
pub const SOURCE: &'static str = r#"-- default handler for aos
function default(insertInbox)
  return function (msg)
    -- Add Message to Inbox
    insertInbox(msg)

    local txt = Colors.gray .. "New Message From " .. Colors.green ..
    (msg.From and (msg.From:sub(1,3) .. "..." .. msg.From:sub(-3)) or "unknown") .. Colors.gray .. ": "
    if msg.Action then
      txt = txt .. Colors.gray .. (msg.Action and ("Action = " .. Colors.blue .. msg.Action:sub(1,20)) or "") .. Colors.reset
    else
      local data = msg.Data
      if type(data) == 'table' then
        data = require('json').encode(data)
      end
      txt = txt .. Colors.gray .. "Data = " .. Colors.blue .. (data and data:sub(1,20) or "") .. Colors.reset
    end
    -- Print to Output
    print(txt)
  end

end"#;

} // verus!
