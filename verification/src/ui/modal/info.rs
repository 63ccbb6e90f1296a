//! A read-only view of one document.
use vstd::prelude::*;
use crate::document::Document;
use crate::text::owned;

verus! {

/// A document being shown (none while it loads), scrolled by some lines.
pub struct InfoModal {
    pub title: String,
    pub doc: Option<Document>,
    pub scroll: u16,
}

/// `n` is the document view `o` scrolled down.
pub open spec fn info_scrolled_down(o: InfoModal, n: InfoModal) -> bool {
    &&& n.scroll == (if o.scroll < u16::MAX {
            o.scroll + 1
        } else {
            u16::MAX as int
        })
    &&& n.title@ == o.title@
    &&& n.doc == o.doc
}

/// `n` is the document view `o` scrolled up.
pub open spec fn info_scrolled_up(o: InfoModal, n: InfoModal) -> bool {
    &&& n.scroll == (if o.scroll > 0 { o.scroll - 1 } else { 0 })
    &&& n.title@ == o.title@
    &&& n.doc == o.doc
}

impl InfoModal {
    pub fn new(title: &str) -> (r: Self)
        ensures
            r.title@ == title@,
            r.doc is None,
            r.scroll == 0,
    {
        InfoModal { title: owned(title), doc: None, scroll: 0 }
    }

    pub fn scroll_down(&mut self)
        ensures
            info_scrolled_down(*old(self), *final(self)),
    {
        if self.scroll < u16::MAX {
            self.scroll = self.scroll + 1;
        }
    }

    pub fn scroll_up(&mut self)
        ensures
            info_scrolled_up(*old(self), *final(self)),
    {
        if self.scroll > 0 {
            self.scroll = self.scroll - 1;
        }
    }
}

} // verus!
