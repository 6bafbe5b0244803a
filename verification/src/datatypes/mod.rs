pub mod array;
pub mod eval;
pub mod operator;
pub mod schema;
pub mod text;
pub mod values;
