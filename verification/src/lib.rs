//! A tag-scoped store of variable suggestions with dependency fallback.
//!
//! A *tag set* is a piece of text naming a context, such as `"git, branch"`.
//! Suggestions for variables are filed under the key of a tag set, and a tag
//! set may declare other tag sets to fall back to when it has no suggestion
//! of its own for a variable.
//!
//! - [`key`]: the 64-bit key that stands for a tag set.
//! - [`model`]: the store as mathematical maps, and the lookup they define.
//! - [`store`]: [`VariableMap`], the executable store.
//! - [`laws`]: what holds of every store, as proof functions over the model.

pub mod key;
pub mod laws;
pub mod model;
pub mod store;

pub use key::hash_line;
pub use store::{Suggestion, VariableMap};
