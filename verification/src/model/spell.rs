//! Spells known or prepared by a character.
use vstd::prelude::*;
use crate::text::opt_str;

verus! {

#[derive(Debug, Clone)]
pub struct SpellEntry {
    pub name: String,
    pub rank: u8,
    pub source_id: Option<String>,
}

impl View for SpellEntry {
    type V = (Seq<char>, u8, Option<Seq<char>>);

    open spec fn view(&self) -> (Seq<char>, u8, Option<Seq<char>>) {
        (self.name@, self.rank, opt_str(self.source_id))
    }
}

/// Views of a list of spell entries.
pub open spec fn spells_view(v: Seq<SpellEntry>) -> Seq<(Seq<char>, u8, Option<Seq<char>>)> {
    v.map_values(|e: SpellEntry| e@)
}

#[derive(Debug, Clone)]
pub struct SpellCaster {
    pub tradition: Option<String>,
    pub ability: Option<String>,
    pub spells: Vec<SpellEntry>,
    pub focus_spells: Vec<SpellEntry>,
}

/// Abstract value of a `SpellCaster`.
pub struct SpellCasterView {
    pub tradition: Option<Seq<char>>,
    pub ability: Option<Seq<char>>,
    pub spells: Seq<(Seq<char>, u8, Option<Seq<char>>)>,
    pub focus_spells: Seq<(Seq<char>, u8, Option<Seq<char>>)>,
}

impl View for SpellCaster {
    type V = SpellCasterView;

    open spec fn view(&self) -> SpellCasterView {
        SpellCasterView {
            tradition: opt_str(self.tradition),
            ability: opt_str(self.ability),
            spells: spells_view(self.spells@),
            focus_spells: spells_view(self.focus_spells@),
        }
    }
}

} // verus!
