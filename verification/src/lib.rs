//! The decisions behind a Spotify card that drops down from the top edge of the
//! screen.
pub mod api;
pub mod art;
pub mod auth;
pub mod auth_laws;
pub mod card;
pub mod card_effects;
pub mod card_laws;
pub mod cli;
pub mod json;
pub mod mpris;
pub mod text;
pub mod text_laws;
