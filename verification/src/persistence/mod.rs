//! What is written to disk: the names of saved files and the exported sheet.
pub mod export;
pub mod save;
