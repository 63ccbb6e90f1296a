pub mod abilities;
pub mod combat;
pub mod hp;
pub mod proficiency;
