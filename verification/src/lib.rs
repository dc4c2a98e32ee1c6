//! Verified core of the YouTube Music desktop wrapper: ad-block switches,
//! track metadata formatting for Discord Rich Presence, the presence worker's
//! decisions, taskbar media controls and window/launch policies.

pub mod adblock;
pub mod text;
pub mod presence;
pub mod track_channel;
pub mod discord;
pub mod media;
pub mod shell;
pub mod controls;
