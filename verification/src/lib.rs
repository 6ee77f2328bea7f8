//! Webhook bridge core: turns inbound webhook payloads into chat messages sent
//! by a virtual identity of their own, and keeps the rules of that bridge
//! (text transforms, message composition, identity derivation, room
//! resolution, delivery steps) in verified form.
pub mod text;
pub mod emoji_table;
pub mod emoji;
pub mod webhook_request;
pub mod identity;
pub mod delivery;
pub mod admin_room;
pub mod avatar;
pub mod provision;
pub mod command;
pub mod config;
pub mod store;
pub mod opts;
pub mod registration;
