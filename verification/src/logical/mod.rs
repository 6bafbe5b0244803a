pub mod expression;
pub mod plan;
