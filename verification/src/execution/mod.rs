pub mod context;
pub mod data_frame;
pub mod planner;
