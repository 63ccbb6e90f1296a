//! Dialog state.
pub mod boosts;
pub mod domain;
pub mod info;
pub mod runes;
pub mod selection;
pub mod skills;
pub mod text_input;
