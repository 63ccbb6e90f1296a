//! Deity-related choices and spellcasting traditions.
use vstd::prelude::*;
use crate::text::{all_ascii, ascii_lower, lowercase, str_eq, to_lowercase};

verus! {

#[derive(Debug, Clone, Copy, PartialEq, Eq, Structural)]
pub enum DivineFont {
    Heal,
    Harm,
}

pub open spec fn font_label(f: DivineFont) -> Seq<char> {
    match f {
        DivineFont::Heal => "Heal"@,
        DivineFont::Harm => "Harm"@,
    }
}

/// The font named by an already lower-cased string.
pub open spec fn font_from_lower(l: Seq<char>) -> Option<DivineFont> {
    if l == "heal"@ {
        Some(DivineFont::Heal)
    } else if l == "harm"@ {
        Some(DivineFont::Harm)
    } else {
        None
    }
}

impl DivineFont {
    pub fn label(&self) -> (r: &'static str)
        ensures
            r@ == font_label(*self),
    {
        match self {
            DivineFont::Heal => "Heal",
            DivineFont::Harm => "Harm",
        }
    }

    /// Case-insensitive parse ("heal" / "harm").
    pub fn parse(s: &str) -> (r: Option<Self>)
        ensures
            r == font_from_lower(lowercase(s@)),
            all_ascii(s@) ==> r == font_from_lower(ascii_lower(s@)),
    {
        let l = to_lowercase(s);
        Self::parse_lower(l.as_str())
    }

    /// Parse an already lower-cased name.
    pub fn parse_lower(l: &str) -> (r: Option<Self>)
        ensures
            r == font_from_lower(l@),
    {
        if str_eq(l, "heal") {
            Some(DivineFont::Heal)
        } else if str_eq(l, "harm") {
            Some(DivineFont::Harm)
        } else {
            None
        }
    }
}

#[derive(Debug, Clone, Copy, PartialEq, Eq, Structural)]
pub enum Sanctification {
    Holy,
    Unholy,
}

pub open spec fn sanctification_label(s: Sanctification) -> Seq<char> {
    match s {
        Sanctification::Holy => "Holy"@,
        Sanctification::Unholy => "Unholy"@,
    }
}

pub open spec fn sanctification_from_lower(l: Seq<char>) -> Option<Sanctification> {
    if l == "holy"@ {
        Some(Sanctification::Holy)
    } else if l == "unholy"@ {
        Some(Sanctification::Unholy)
    } else {
        None
    }
}

impl Sanctification {
    pub fn label(&self) -> (r: &'static str)
        ensures
            r@ == sanctification_label(*self),
    {
        match self {
            Sanctification::Holy => "Holy",
            Sanctification::Unholy => "Unholy",
        }
    }

    /// Case-insensitive parse ("holy" / "unholy").
    pub fn parse(s: &str) -> (r: Option<Self>)
        ensures
            r == sanctification_from_lower(lowercase(s@)),
            all_ascii(s@) ==> r == sanctification_from_lower(ascii_lower(s@)),
    {
        let l = to_lowercase(s);
        Self::parse_lower(l.as_str())
    }

    /// Parse an already lower-cased name.
    pub fn parse_lower(l: &str) -> (r: Option<Self>)
        ensures
            r == sanctification_from_lower(l@),
    {
        if str_eq(l, "holy") {
            Some(Sanctification::Holy)
        } else if str_eq(l, "unholy") {
            Some(Sanctification::Unholy)
        } else {
            None
        }
    }
}

#[derive(Debug, Clone, Copy, PartialEq, Eq, Structural)]
pub enum Tradition {
    Arcane,
    Divine,
    Occult,
    Primal,
}

pub open spec fn tradition_label(t: Tradition) -> Seq<char> {
    match t {
        Tradition::Arcane => "Arcane"@,
        Tradition::Divine => "Divine"@,
        Tradition::Occult => "Occult"@,
        Tradition::Primal => "Primal"@,
    }
}

pub open spec fn tradition_from_lower(l: Seq<char>) -> Option<Tradition> {
    if l == "arcane"@ {
        Some(Tradition::Arcane)
    } else if l == "divine"@ {
        Some(Tradition::Divine)
    } else if l == "occult"@ {
        Some(Tradition::Occult)
    } else if l == "primal"@ {
        Some(Tradition::Primal)
    } else {
        None
    }
}

/// Every tradition's label parses back to it: the label, lower-cased, is the name
/// `parse` reads as that tradition (and `parse` reads ASCII text by its ASCII
/// lower-casing, so the label parses in any case).
pub proof fn law_tradition_label_parses(t: Tradition)
    ensures
        all_ascii(tradition_label(t)),
        tradition_from_lower(ascii_lower(tradition_label(t))) == Some(t),
{
    reveal_strlit("Arcane");
    reveal_strlit("Divine");
    reveal_strlit("Occult");
    reveal_strlit("Primal");
    reveal_strlit("arcane");
    reveal_strlit("divine");
    reveal_strlit("occult");
    reveal_strlit("primal");
    match t {
        Tradition::Arcane => assert(ascii_lower("Arcane"@) =~= "arcane"@),
        Tradition::Divine => {
            assert(ascii_lower("Divine"@) =~= "divine"@);
            assert("divine"@[0] != "arcane"@[0]);
        },
        Tradition::Occult => {
            assert(ascii_lower("Occult"@) =~= "occult"@);
            assert("occult"@[0] != "arcane"@[0] && "occult"@[0] != "divine"@[0]);
        },
        Tradition::Primal => {
            assert(ascii_lower("Primal"@) =~= "primal"@);
            assert("primal"@[0] != "arcane"@[0] && "primal"@[0] != "divine"@[0] && "primal"@[0] != "occult"@[0]);
        },
    }
}

impl Tradition {
    pub fn label(&self) -> (r: &'static str)
        ensures
            r@ == tradition_label(*self),
    {
        match self {
            Tradition::Arcane => "Arcane",
            Tradition::Divine => "Divine",
            Tradition::Occult => "Occult",
            Tradition::Primal => "Primal",
        }
    }

    /// Case-insensitive parse of a tradition name.
    pub fn parse(s: &str) -> (r: Option<Self>)
        ensures
            r == tradition_from_lower(lowercase(s@)),
            all_ascii(s@) ==> r == tradition_from_lower(ascii_lower(s@)),
    {
        let l = to_lowercase(s);
        Self::parse_lower(l.as_str())
    }

    /// Parse an already lower-cased name.
    pub fn parse_lower(l: &str) -> (r: Option<Self>)
        ensures
            r == tradition_from_lower(l@),
    {
        if str_eq(l, "arcane") {
            Some(Tradition::Arcane)
        } else if str_eq(l, "divine") {
            Some(Tradition::Divine)
        } else if str_eq(l, "occult") {
            Some(Tradition::Occult)
        } else if str_eq(l, "primal") {
            Some(Tradition::Primal)
        } else {
            None
        }
    }
}

} // verus!
