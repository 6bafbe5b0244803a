pub mod aggregate;
pub mod filter;
pub mod plan;
pub mod projection;
pub mod scan;
