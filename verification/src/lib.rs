//! Session-lifecycle core for a Matrix chat plugin: login orchestration,
//! SSO callback handling, session persistence, guarded data-directory wipe,
//! and sync-failure recovery, together with the text helpers the plugin
//! uses for commands, file names and HTML display.

pub mod text;
pub mod html;
pub mod media;
pub mod commands;
pub mod record;
pub mod store;
pub mod registry;
pub mod sso;
pub mod orchestrator;
pub mod sync_bridge;
pub mod homeserver;
pub mod render;
pub mod safewipe;
