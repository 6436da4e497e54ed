//! Verified core of the HyprDeck panel: Hyprland event parsing and state
//! tracking, notification queueing and placement, configuration checks,
//! colour resolution, a panel's input and frame decisions, and the decision
//! rules of the built-in modules.

pub mod action;
pub mod autohide;
pub mod find;
pub mod geometry;
pub mod layout;
pub mod module;
pub mod widgets;
pub mod text;
pub mod event;
pub mod state;
pub mod ipc;
pub mod palette;
pub mod config;
pub mod notification;
pub mod popup;
pub mod panel;
pub mod modules;
