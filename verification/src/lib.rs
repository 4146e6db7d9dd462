//! Verified core of a desktop launcher for the DeepSeek Harness web service.

pub mod text;
pub mod env_check;
pub mod dsh_process;
pub mod process;
pub mod bootstrap;
pub mod checker;
pub mod splash;
pub mod desktop;
