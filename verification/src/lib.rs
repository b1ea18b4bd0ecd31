//! Content bootstrap and command dispatch for a desktop shell that renders a web front end
//! inside a native webview.

pub mod content;
pub mod macro_error;
pub mod percent;
pub mod router;
pub mod runner;
pub mod script;
pub mod server;
pub mod text;

pub use crate::runner::run;
pub use crate::script::init;
