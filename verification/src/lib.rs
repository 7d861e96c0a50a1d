//! A worked example of lexical scoping and visibility: a scope tree, a
//! resolver that accepts or denies each call by the declared accessibility,
//! and the small program the rule is illustrated with.

pub mod module_a;
pub mod module_b;
pub mod program;
pub mod visibility;
