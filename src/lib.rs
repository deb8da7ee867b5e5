pub mod counter;
pub mod render;
pub mod shell;
