pub mod cordova;
pub mod engine_detect;
pub mod env;
pub mod flow;
pub mod names;
pub mod preflight;
pub mod renpy;
pub mod rpgmv;
pub mod signing;
pub mod types;
