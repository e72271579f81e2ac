//! The guest units that the runtime brings along, each with its source text.

pub mod lua_program_handle;
pub mod lua_src_default;
pub mod lua_src_eval;
pub mod lua_src_pretty;
