pub mod aggregate;
pub mod binary;
pub mod column;
pub mod expr;
pub mod expr_fn;
