//! Transformation core for one-pointer-wide, layout-stable trait objects.
//!
//! Given a model of a trait declaration and a resolved configuration record,
//! the library derives three artifacts: a fixed-layout dispatch table type,
//! a generic representation wrapper that pairs a value with its table, and a
//! pointer-sized owning handle type, together with optional extension and
//! capability-marker glue.

pub mod ast;
pub mod attr;
pub mod error;
pub mod handle_model;
pub mod inheritance;
pub mod marker_traits;
pub mod names;
pub mod options;
pub mod repr;
pub mod trait_object;
pub mod vtable;

