//! Checked arithmetic, an instrumentation pass that routes arithmetic through
//! it, and an audit that finds arithmetic left outside it.
pub mod audit;
pub mod checked;
pub mod eval;
pub mod models;
pub mod non_models;
pub mod primitive;
pub mod rewrite;
pub mod syntax;
pub mod wide;
