pub mod cli;
pub mod results;
pub mod protocol;
pub mod session;
pub mod launcher;
pub mod keys;
pub mod display;
pub mod laws;
