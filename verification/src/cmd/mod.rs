pub mod eat;
pub mod plan;
pub mod scan;
