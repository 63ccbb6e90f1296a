//! The list picker used for domains and the divine font.
use vstd::prelude::*;
use crate::text::{owned, strs};

verus! {

/// The kind of pick this dialog performs.
#[derive(Debug, Clone, Copy, PartialEq, Eq, Structural)]
pub enum PickKind {
    Domain,
    DivineFont,
}

/// A simple list picker.
pub struct DomainModal {
    pub title: String,
    pub kind: PickKind,
    pub items: Vec<String>,
    pub cursor: usize,
}

/// `n` is the list picker `o` after Up.
pub open spec fn pick_cursor_up(o: DomainModal, n: DomainModal) -> bool {
    &&& n.cursor == (if o.cursor > 0 { o.cursor - 1 } else { 0 })
    &&& n.title@ == o.title@
    &&& n.kind == o.kind
    &&& strs(n.items@) == strs(o.items@)
}

/// `n` is the list picker `o` after Down.
pub open spec fn pick_cursor_down(o: DomainModal, n: DomainModal) -> bool {
    &&& n.cursor == (if o.cursor + 1 < o.items@.len() {
            o.cursor + 1
        } else {
            o.cursor as int
        })
    &&& n.title@ == o.title@
    &&& n.kind == o.kind
    &&& strs(n.items@) == strs(o.items@)
}

impl DomainModal {
    pub fn new(title: &str, kind: PickKind, items: Vec<String>) -> (r: Self)
        ensures
            r.title@ == title@,
            r.kind == kind,
            strs(r.items@) == strs(items@),
            r.cursor == 0,
    {
        DomainModal { title: owned(title), kind, items, cursor: 0 }
    }

    pub fn move_up(&mut self)
        ensures
            pick_cursor_up(*old(self), *final(self)),
    {
        if self.cursor > 0 {
            self.cursor = self.cursor - 1;
        }
    }

    pub fn move_down(&mut self)
        ensures
            pick_cursor_down(*old(self), *final(self)),
    {
        if self.cursor < self.items.len() && self.cursor + 1 < self.items.len() {
            self.cursor = self.cursor + 1;
        }
    }

    /// The item under the cursor, if the cursor is on one.
    pub fn selected(&self) -> (r: Option<&str>)
        ensures
            match r {
                Some(s) => self.cursor < self.items@.len() && s@ == self.items@[self.cursor as int]@,
                None => self.cursor >= self.items@.len(),
            },
    {
        if self.cursor < self.items.len() {
            Some(self.items[self.cursor].as_str())
        } else {
            None
        }
    }
}

} // verus!
