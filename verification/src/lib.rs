//! Build orchestration for the newt terminal library and the two native
//! libraries it depends on, popt and slang.

pub mod build_config;
pub mod discipline;
pub mod environment;
pub mod error;
pub mod library;
pub mod orchestrator;
pub mod package;
pub mod recipe;
pub mod text;
pub mod tools;
