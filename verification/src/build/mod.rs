pub mod rules;
pub mod mechanics;
pub mod maps;
pub mod choices;
pub mod commands;
pub mod recalculate;
pub mod slot;
pub mod progression;
pub mod validate;
