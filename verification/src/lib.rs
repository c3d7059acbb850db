//! A single-pass rewriter for ECMAScript module trees that lowers default
//! imports from worker-suffixed module paths into runtime worker
//! constructions: an import `X` from a path ending in `.worker`, together
//! with every later `new X(...)`, becomes
//! `new Worker("<path>", import.meta.url)`, and the consumed import is
//! removed from the module's item list.

pub mod ast;
pub mod laws;
pub mod paths;
pub mod table;
pub mod transform;
