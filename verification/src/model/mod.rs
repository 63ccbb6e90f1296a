pub mod abilities;
pub mod proficiencies;
pub mod equipment;
pub mod types;
pub mod feat;
pub mod spell;
pub mod character;
