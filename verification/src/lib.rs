pub mod text;
pub mod ui;
pub mod diagnose;
pub mod egl;
pub mod runtime;
pub mod shell;
pub mod hook;
pub mod shell_launch;
pub mod shell_env;
pub mod check;
pub mod python;
pub mod pyproject;
pub mod bootstrap;
pub mod nix;
pub mod search;
pub mod init;
pub mod host_bridge;
pub mod json;
pub mod why;
pub mod cuda_compat;
pub mod project;
pub mod contract;
pub mod nix_text;
pub mod doctor;
pub mod scaffold;
pub mod vendor;
