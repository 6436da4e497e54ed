//! Built-in panel modules: their configuration, runtime state and the
//! decisions they take (when to poll, what to show, what a click does).

pub mod calendar;
pub mod clock;
pub mod favorites;
pub mod hyprcube;
pub mod icon_utils;
pub mod lunar;
pub mod menu;
pub mod network;
pub mod power;
pub mod registry;
pub mod render;
pub mod shell;
pub mod sound;
pub mod weather;
pub mod window_list;
pub mod workspaces;
