//! ratcrate: the verified core of a terminal crate manager for DJs who mirror
//! the same playlists across several drives.

pub mod text;
pub mod model;
pub mod config;
pub mod json;
pub mod http;
pub mod urls;
pub mod order;
pub mod catalog;
pub mod keys;
pub mod tracks;
pub mod session;
pub mod commands;
pub mod dashboard;
pub mod settings;
pub mod import_flow;
pub mod crate_editor;
pub mod browse;
pub mod input;
pub mod sync;
pub mod tidal;
pub mod spotify;
pub mod soundcloud;
pub mod display;
pub mod screens;
pub mod overlays;
pub mod panels;
