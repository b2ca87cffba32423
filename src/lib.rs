//! Function-expression catalog, output-type rules and kernel handles of a
//! lazy columnar expression language.
pub mod calendar;
pub mod column;
pub mod datatypes;
pub mod dt;
pub mod duration;
pub mod expr;
pub mod function_expr;
pub mod handle;
pub mod kernels;
pub mod laws;
pub mod offset;
pub mod output;
