//! Libfunc lowering and physical type layout for a Sierra-to-MLIR compiler.
//!
//! The library builds, for each supported libfunc declaration, a generated
//! function in a small typed SSA form (`ir`), registers its signature in the
//! compilation state (`state`), and memoizes enum accessor helpers
//! (`sierra_enum`). The meaning of every generated function is given by the
//! spec evaluator of `ir`, and the lowering is proved against it: field
//! arithmetic in `felt`, struct round trips in `structs`, reading values back
//! from their bit image in `reinterpret`. `dispatch` routes declarations to
//! the builders of `libfuncs` and runs the pass over a whole program.
pub mod decl;
pub mod dispatch;
pub mod felt;
pub mod ir;
pub mod layout;
pub mod libfuncs;
pub mod reinterpret;
pub mod sierra_enum;
pub mod state;
pub mod structs;
pub mod types;
