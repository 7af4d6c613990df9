//! Two tools around a Starlark implementation: the renderer that turns the
//! description of a native function into the Rust code that registers it, and
//! the client side of a language server session used to test such a server.

pub mod binding;
pub mod code_laws;
pub mod context;
pub mod documentation;
pub mod fun;
pub mod function_laws;
pub mod json;
pub mod lifecycle;
pub mod mention_laws;
pub mod message;
pub mod render_laws;
pub mod server;
pub mod session_laws;
pub mod signature;
pub mod template;
pub mod template_laws;
pub mod tokens;
pub mod typ;
