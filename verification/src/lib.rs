//! Dependency-injection ergonomics for plain functions.
//!
//! A function definition is turned into a request type: the ordinary
//! parameters become fields stored at construction time, and the parameters
//! whose type is named `Dep` are handed over when the request is executed.

pub mod classify;
pub mod dep;
pub mod emit;
pub mod engine;
pub mod error;
pub mod expand;
pub mod model;
pub mod naming;

pub use classify::is_dependency_type;
pub use dep::Dep;
pub use engine::{generate, structify};
pub use error::ExpandError;
pub use expand::{expand, Expansion};
pub use model::{FnArg, FnItem, TypeShape, TypedParam};
pub use naming::{get_struct_name_ident, resolve_struct_name};
