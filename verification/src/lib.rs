//! Core logic of a Discord rich-presence bridge for Apple Music: cleaning
//! the metadata that the player reports, deciding when the presence must be
//! refreshed, finding a track's artwork in iTunes search results, caching
//! what was found, and composing the activity that is shown.

pub mod cache;
pub mod fetch;
pub mod itunes;
pub mod pattern;
pub mod player;
pub mod presence;
pub mod song;
pub mod text;
