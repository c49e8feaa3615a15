pub mod detect;
pub mod install;
pub mod types;
