use vstd::prelude::*;

pub mod build;
pub mod data;
pub mod document;
pub mod model;
pub mod persistence;
pub mod scan;
pub mod text;
pub mod ui;

verus! {
} // verus!
