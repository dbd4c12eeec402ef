//! Preparation of JavaScript and TypeScript snippets for an isolated script
//! engine that has the polkadot-js bundles loaded, and classification of what
//! the engine hands back.
//!
//! The library never touches a file or an engine itself. A host reads the
//! source, asks [`run_file`] and its siblings for the script to execute, runs
//! it, and gives the engine's outcome to [`classify`].

pub mod engine;
pub mod error;
pub mod json;
pub mod outcome;
pub mod perms;
pub mod run;
pub mod source;
pub mod template;

pub use engine::{extension_order, user_agent, Capability};
pub use error::{Failure, ScriptError};
pub use outcome::{classify, EngineOutcome, ReturnValue};
pub use perms::{PermissionDenied, ZombiePermissions};
pub use template::{compose_script, wrap_code, with_bundles, Bundles, WrapMode};
pub use source::{
    get_code, language_of_path, prepare, strip_marks, text_fits_parser, transpile, Language,
};
pub use run::{run_file, run_file_with_wrap, run_js_code, run_ts_code};
