pub mod budget;
pub mod callstack;
pub mod debug_arg;
pub mod dimension;
pub mod error;
pub mod events;
pub mod host;
pub mod model;
pub mod report;
