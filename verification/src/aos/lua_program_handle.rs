//! The guest program behind the gateway.

use vstd::prelude::*;
use crate::preloader::{run, source_run, LoadError, LoadStage};

verus! {

/// Runs the program that defines the global function `handle`: it decodes
/// the message and the environment, lets the process handle the message and
/// encodes the result.
pub fn main(lua: &mlua::Lua) -> (result: Result<(), LoadError>)
    ensures
        source_run(lua, SOURCE@, result),
        result matches Err(error) ==> error.stage == LoadStage::Evaluate,
{
    run(lua, SOURCE)
}

/// The source text of the program. It defines the global function `handle`.
pub const SOURCE: &'static str = r#"
local json = require "json"
local process = require "process"
ao = require "ao"

function handle(msgJSON, aoJSON)
    -- decode inputs
    local msg = json.decode(msgJSON)
    local env = json.decode(aoJSON)
    ao.init(env)
    -- relocate custom tags to root message
    msg = ao.normalize(msg)

    local status, response = pcall(function()
        return (process.handle(msg, ao))
    end)

    -- encode output
    local responseJSON = json.encode({ok = status, response = response})
    return responseJSON
end
"#;

} // verus!
