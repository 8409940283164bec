//! Session engine of a resource-sharing chat bot: the points economy, the
//! vote-driven moderation of shared relays and tunnel configs, sponsor-ad
//! rotation, the routing of inbound events, and the broadcast loop.
//! Storage and the chat transport live outside; this crate decides.

pub mod book;
pub mod broadcast;
pub mod config;
pub mod error;
pub mod flyer;
pub mod invite;
pub mod karbar;
pub mod logger;
pub mod proxy;
pub mod session;
pub mod settings;
pub mod state;
pub mod text;
pub mod utils;
pub mod v2ray;
pub mod votes;
