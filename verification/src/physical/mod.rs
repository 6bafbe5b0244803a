pub mod expr;
pub mod plan;
