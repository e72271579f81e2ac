//! A host runtime for a Lua guest: one long-lived interpreter, a registry of
//! preloaded modules, a file driver that is served by the host, and the
//! gateway through which the host hands in messages.

pub mod aos;
pub mod eval;
pub mod gateway;
pub mod lua;
pub mod models;
pub mod preloader;
pub mod runtime;
pub mod text;
pub mod utils;
pub mod weavedrive;
