//! A one-line text entry dialog.
use vstd::prelude::*;
use crate::text::{chars_of, owned, push_char, string_of};

verus! {

/// A title, the name of the field being edited, and its current value.
pub struct TextInputModal {
    pub title: String,
    pub value: String,
    pub field: String,
}

/// `n` is the text dialog `o` after typing `c`.
pub open spec fn input_typed(o: TextInputModal, n: TextInputModal, c: char) -> bool {
    &&& n.value@ == o.value@.push(c)
    &&& n.title@ == o.title@
    &&& n.field@ == o.field@
}

/// `n` is the text dialog `o` after Backspace.
pub open spec fn input_backspaced(o: TextInputModal, n: TextInputModal) -> bool {
    &&& n.value@ == (if o.value@.len() > 0 {
            o.value@.drop_last()
        } else {
            o.value@
        })
    &&& n.title@ == o.title@
    &&& n.field@ == o.field@
}

/// Backspace undoes typing a character.
pub proof fn law_type_then_backspace(a: TextInputModal, b: TextInputModal, c: TextInputModal, ch: char)
    requires
        input_typed(a, b, ch),
        input_backspaced(b, c),
    ensures
        c.value@ == a.value@,
        c.field@ == a.field@,
{
    assert(b.value@.drop_last() =~= a.value@);
}

impl TextInputModal {
    pub fn new(title: &str, field: &str, initial: &str) -> (r: Self)
        ensures
            r.title@ == title@,
            r.field@ == field@,
            r.value@ == initial@,
    {
        TextInputModal { title: owned(title), value: owned(initial), field: owned(field) }
    }

    /// Append a typed character to the value.
    pub fn type_char(&mut self, c: char)
        ensures
            input_typed(*old(self), *final(self), c),
    {
        push_char(&mut self.value, c);
    }

    /// Remove the last character of the value, if there is one.
    pub fn backspace(&mut self)
        ensures
            input_backspaced(*old(self), *final(self)),
    {
        let mut chars = chars_of(self.value.as_str());
        if chars.len() > 0 {
            chars.pop();
            assert(chars@ =~= old(self).value@.drop_last());
            self.value = string_of(&chars);
        }
    }
}

} // verus!
