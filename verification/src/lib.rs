//! GoLive's core: the domain models, validation rules, persistence and
//! media contracts, services, and document builders behind the desktop
//! app, each stated and proved with Verus.

pub mod errors;
pub mod text;
pub mod ids;
pub mod clock;
pub mod models;
pub mod ai;
pub mod repositories;
pub mod active_process;
pub mod tray;
pub mod recording;
pub mod credentials;
pub mod media;
pub mod native;
pub mod services;
pub mod commands;
pub mod hotkey;
pub mod migrations;
