use vstd::prelude::*;

pub mod app_state;
pub mod commands;
pub mod env_modal;
pub mod file;
pub mod guide;
pub mod gui;
pub mod install_modal;
pub mod paths;
pub mod process;
pub mod registry;
pub mod release;
pub mod structs;
pub mod text;
pub mod version;

verus! {
}
