pub mod parser;
pub mod walker;
