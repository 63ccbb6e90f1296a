//! Interface state that does not depend on the terminal.
pub mod app;
pub mod events;
pub mod markup;
pub mod modal;
pub mod sheet;
