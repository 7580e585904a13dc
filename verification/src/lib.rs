//! The decisions of a media feeder for Wikimedia Commons and Giphy.

pub mod gateway;
pub mod gateway_laws;
pub mod giphy;
pub mod text;
pub mod text_laws;
pub mod text_map;
pub mod wikicommons;
