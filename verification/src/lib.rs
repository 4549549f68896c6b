//! Verified core of a wofi-based power menu: the menu model, config and
//! CLI merging, rendering for the external picker, selection handling,
//! and command planning.

pub mod config;
pub mod error;
pub mod executor;
pub mod flow;
pub mod icons;
pub mod menu;
pub mod power_menu;
pub mod text;
pub mod wofi;
