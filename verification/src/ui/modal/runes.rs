//! The rune assignment dialog for weapons, armor and shields.
use vstd::prelude::*;
use vstd::string::StringExecFns;
use crate::model::equipment::{
    ResilientRune, StrikingRune, resilient_label, resilient_next, resilient_prev, striking_label,
    striking_next, striking_prev,
};
use crate::text::{decimal, decimal_string, owned, push_char};

verus! {

/// What the runes are being set on.
#[derive(Debug, Clone, Copy, PartialEq, Eq, Structural)]
pub enum RuneTarget {
    Weapon(usize),
    Armor(usize),
    Shield,
}

/// One editable line of the dialog.
#[derive(Debug, Clone, Copy, PartialEq, Eq, Structural)]
pub enum RuneField {
    Potency,
    Striking,
    Resilient,
}

/// The dialog: the target, the runes being edited and the focused field.
pub struct RuneModal {
    pub target: RuneTarget,
    pub title: String,
    pub potency: u8,
    pub striking: StrikingRune,
    pub resilient: ResilientRune,
    pub cursor: usize,
    pub fields: Vec<RuneField>,
}

/// The dialog's title for an item name.
pub open spec fn rune_title(name: Seq<char>) -> Seq<char> {
    "Runes — "@ + name
}

/// Potency after one step right: 0, 1, 2, 3, then back to 0.
pub open spec fn potency_up(p: u8) -> u8 {
    if p >= 3 { 0 } else { (p + 1) as u8 }
}

/// Potency after one step left: 3, 2, 1, 0, then back to 3.
pub open spec fn potency_down(p: u8) -> u8 {
    if p == 0 { 3 } else { (p - 1) as u8 }
}

/// Label shown for a field.
pub open spec fn field_label_spec(f: RuneField) -> Seq<char> {
    match f {
        RuneField::Potency => "Potency"@,
        RuneField::Striking => "Striking"@,
        RuneField::Resilient => "Resilient"@,
    }
}

/// "None" for an empty label, the label otherwise.
pub open spec fn or_none(label: Seq<char>) -> Seq<char> {
    if label.len() == 0 { "None"@ } else { label }
}

/// Value shown for a field of a dialog holding these runes.
pub open spec fn field_value_spec(f: RuneField, potency: u8, s: StrikingRune, r: ResilientRune) -> Seq<char> {
    match f {
        RuneField::Potency => if potency == 0 { "None"@ } else { "+"@ + decimal(potency as nat) },
        RuneField::Striking => or_none(striking_label(s)),
        RuneField::Resilient => or_none(resilient_label(r)),
    }
}

fn rune_title_string(name: &str) -> (r: String)
    ensures
        r@ == rune_title(name@),
{
    let mut t = owned("Runes — ");
    t.append(name);
    t
}

fn none_or(label: &str) -> (r: String)
    ensures
        r@ == or_none(label@),
{
    if label.unicode_len() == 0 {
        owned("None")
    } else {
        owned(label)
    }
}

/// `n` is the rune dialog `o` after Up.
pub open spec fn rune_cursor_up(o: RuneModal, n: RuneModal) -> bool {
    &&& n.cursor == (if o.cursor > 0 { o.cursor - 1 } else { 0 })
    &&& n.fields@ == o.fields@
    &&& n.potency == o.potency
    &&& n.striking == o.striking
    &&& n.resilient == o.resilient
    &&& n.target == o.target
    &&& n.title@ == o.title@
}

/// `n` is the rune dialog `o` after Down.
pub open spec fn rune_cursor_down(o: RuneModal, n: RuneModal) -> bool {
    &&& n.cursor == (if o.cursor + 1 < o.fields@.len() {
            o.cursor + 1
        } else {
            o.cursor as int
        })
    &&& n.fields@ == o.fields@
    &&& n.potency == o.potency
    &&& n.striking == o.striking
    &&& n.resilient == o.resilient
    &&& n.target == o.target
    &&& n.title@ == o.title@
}

/// `n` is the rune dialog `o` with its focused field stepped forward.
pub open spec fn rune_cycled_right(o: RuneModal, n: RuneModal) -> bool {
    &&& n.potency == (if o.fields@[o.cursor as int] == RuneField::Potency {
            potency_up(o.potency)
        } else {
            o.potency
        })
    &&& n.striking == (if o.fields@[o.cursor as int] == RuneField::Striking {
            striking_next(o.striking)
        } else {
            o.striking
        })
    &&& n.resilient == (if o.fields@[o.cursor as int] == RuneField::Resilient {
            resilient_next(o.resilient)
        } else {
            o.resilient
        })
    &&& n.cursor == o.cursor
    &&& n.fields@ == o.fields@
    &&& n.target == o.target
    &&& n.title@ == o.title@
}

/// `n` is the rune dialog `o` with its focused field stepped back.
pub open spec fn rune_cycled_left(o: RuneModal, n: RuneModal) -> bool {
    &&& n.potency == (if o.fields@[o.cursor as int] == RuneField::Potency {
            potency_down(o.potency)
        } else {
            o.potency
        })
    &&& n.striking == (if o.fields@[o.cursor as int] == RuneField::Striking {
            striking_prev(o.striking)
        } else {
            o.striking
        })
    &&& n.resilient == (if o.fields@[o.cursor as int] == RuneField::Resilient {
            resilient_prev(o.resilient)
        } else {
            o.resilient
        })
    &&& n.cursor == o.cursor
    &&& n.fields@ == o.fields@
    &&& n.target == o.target
    &&& n.title@ == o.title@
}

impl RuneModal {
    pub fn for_weapon(idx: usize, name: &str, potency: u8, striking: StrikingRune) -> (r: Self)
        ensures
            r.target == RuneTarget::Weapon(idx),
            r.title@ == rune_title(name@),
            r.potency == potency,
            r.striking == striking,
            r.resilient == ResilientRune::NoRune,
            r.cursor == 0,
            r.fields@ == seq![RuneField::Potency, RuneField::Striking],
    {
        let r = RuneModal {
            target: RuneTarget::Weapon(idx),
            title: rune_title_string(name),
            potency,
            striking,
            resilient: ResilientRune::NoRune,
            cursor: 0,
            fields: vec![RuneField::Potency, RuneField::Striking],
        };
        assert(r.fields@ =~= seq![RuneField::Potency, RuneField::Striking]);
        r
    }

    pub fn for_armor(idx: usize, name: &str, potency: u8, resilient: ResilientRune) -> (r: Self)
        ensures
            r.target == RuneTarget::Armor(idx),
            r.title@ == rune_title(name@),
            r.potency == potency,
            r.striking == StrikingRune::NoRune,
            r.resilient == resilient,
            r.cursor == 0,
            r.fields@ == seq![RuneField::Potency, RuneField::Resilient],
    {
        let r = RuneModal {
            target: RuneTarget::Armor(idx),
            title: rune_title_string(name),
            potency,
            striking: StrikingRune::NoRune,
            resilient,
            cursor: 0,
            fields: vec![RuneField::Potency, RuneField::Resilient],
        };
        assert(r.fields@ =~= seq![RuneField::Potency, RuneField::Resilient]);
        r
    }

    pub fn for_shield(name: &str, potency: u8, resilient: ResilientRune) -> (r: Self)
        ensures
            r.target == RuneTarget::Shield,
            r.title@ == rune_title(name@),
            r.potency == potency,
            r.striking == StrikingRune::NoRune,
            r.resilient == resilient,
            r.cursor == 0,
            r.fields@ == seq![RuneField::Potency, RuneField::Resilient],
    {
        let r = RuneModal {
            target: RuneTarget::Shield,
            title: rune_title_string(name),
            potency,
            striking: StrikingRune::NoRune,
            resilient,
            cursor: 0,
            fields: vec![RuneField::Potency, RuneField::Resilient],
        };
        assert(r.fields@ =~= seq![RuneField::Potency, RuneField::Resilient]);
        r
    }

    pub fn move_up(&mut self)
        ensures
            rune_cursor_up(*old(self), *final(self)),
    {
        if self.cursor > 0 {
            self.cursor = self.cursor - 1;
        }
    }

    pub fn move_down(&mut self)
        ensures
            rune_cursor_down(*old(self), *final(self)),
    {
        if self.cursor < self.fields.len() && self.cursor + 1 < self.fields.len() {
            self.cursor = self.cursor + 1;
        }
    }

    /// Step the focused field's value forward, wrapping around.
    pub fn cycle_right(&mut self)
        requires
            old(self).cursor < old(self).fields@.len(),
        ensures
            rune_cycled_right(*old(self), *final(self)),
    {
        match self.fields[self.cursor] {
            RuneField::Potency => {
                self.potency = if self.potency >= 3 { 0 } else { self.potency + 1 };
            },
            RuneField::Striking => {
                self.striking = self.striking.next();
            },
            RuneField::Resilient => {
                self.resilient = self.resilient.next();
            },
        }
    }

    /// Step the focused field's value back, wrapping around.
    pub fn cycle_left(&mut self)
        requires
            old(self).cursor < old(self).fields@.len(),
        ensures
            rune_cycled_left(*old(self), *final(self)),
    {
        match self.fields[self.cursor] {
            RuneField::Potency => {
                self.potency = if self.potency == 0 { 3 } else { self.potency - 1 };
            },
            RuneField::Striking => {
                self.striking = self.striking.prev();
            },
            RuneField::Resilient => {
                self.resilient = self.resilient.prev();
            },
        }
    }

    pub fn field_label(&self, idx: usize) -> (r: &'static str)
        requires
            idx < self.fields@.len(),
        ensures
            r@ == field_label_spec(self.fields@[idx as int]),
    {
        match self.fields[idx] {
            RuneField::Potency => "Potency",
            RuneField::Striking => "Striking",
            RuneField::Resilient => "Resilient",
        }
    }

    pub fn field_value(&self, idx: usize) -> (r: String)
        requires
            idx < self.fields@.len(),
        ensures
            r@ == field_value_spec(self.fields@[idx as int], self.potency, self.striking, self.resilient),
    {
        match self.fields[idx] {
            RuneField::Potency => {
                if self.potency == 0 {
                    owned("None")
                } else {
                    let mut s = String::new();
                    push_char(&mut s, '+');
                    let d = decimal_string(self.potency as u64);
                    s.append(d.as_str());
                    assert(s@ =~= "+"@ + decimal(self.potency as nat)) by {
                        reveal_strlit("+");
                    }
                    s
                }
            },
            RuneField::Striking => none_or(self.striking.label()),
            RuneField::Resilient => none_or(self.resilient.label()),
        }
    }
}

/// Stepping a field right and then left leaves its value as it was.
pub proof fn lemma_cycle_round_trip(p: u8, s: StrikingRune, r: ResilientRune)
    requires
        p <= 3,
    ensures
        potency_down(potency_up(p)) == p,
        potency_up(potency_down(p)) == p,
        striking_prev(striking_next(s)) == s,
        striking_next(striking_prev(s)) == s,
        resilient_prev(resilient_next(r)) == r,
        resilient_next(resilient_prev(r)) == r,
{
}

} // verus!
