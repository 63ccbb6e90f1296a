//! A reference document as the builder reads it: its named fields, its free text,
//! the tables of its body, and extra fields holding JSON values.
use vstd::prelude::*;
use crate::text::{owned, str_eq, strs};

verus! {

/// A JSON value. A number is held by its integer value when it has one.
pub enum Value {
    Null,
    Bool(bool),
    /// A non-negative integer.
    PosInt(u64),
    /// A negative integer.
    NegInt(i64),
    /// A number with no integer reading (it has a fraction or an exponent).
    Fraction,
    String(String),
    Array(Vec<Value>),
    Object(Vec<(String, Value)>),
}

/// A JSON value as a mathematical object.
pub enum JsonView {
    Null,
    Bool(bool),
    Int(int),
    Fraction,
    Str(Seq<char>),
    Arr(Seq<JsonView>),
    Obj(Seq<(Seq<char>, JsonView)>),
}

/// The mathematical reading of a value.
pub open spec fn json_view(v: Value) -> JsonView
    decreases v,
{
    match v {
        Value::Null => JsonView::Null,
        Value::Bool(b) => JsonView::Bool(b),
        Value::PosInt(n) => JsonView::Int(n as int),
        Value::NegInt(n) => JsonView::Int(n as int),
        Value::Fraction => JsonView::Fraction,
        Value::String(s) => JsonView::Str(s@),
        Value::Array(a) => JsonView::Arr(items_view(a@)),
        Value::Object(e) => JsonView::Obj(members_view(e@)),
    }
}

/// The readings of array items.
pub open spec fn items_view(s: Seq<Value>) -> Seq<JsonView>
    decreases s,
{
    if s.len() == 0 {
        Seq::empty()
    } else {
        items_view(s.drop_last()).push(json_view(s.last()))
    }
}

/// The readings of object members.
pub open spec fn members_view(s: Seq<(String, Value)>) -> Seq<(Seq<char>, JsonView)>
    decreases s,
{
    if s.len() == 0 {
        Seq::empty()
    } else {
        members_view(s.drop_last()).push((s.last().0@, json_view(s.last().1)))
    }
}

/// The readings of array items, item by item.
pub proof fn lemma_items_view(s: Seq<Value>)
    ensures
        items_view(s) == s.map_values(|x: Value| json_view(x)),
    decreases s.len(),
{
    if s.len() > 0 {
        lemma_items_view(s.drop_last());
        assert(s.map_values(|x: Value| json_view(x)) =~= s.drop_last().map_values(|x: Value| json_view(x)).push(
            json_view(s.last()),
        ));
    } else {
        assert(s.map_values(|x: Value| json_view(x)) =~= Seq::<JsonView>::empty());
    }
}

/// The readings of object members, member by member.
pub proof fn lemma_members_view(s: Seq<(String, Value)>)
    ensures
        members_view(s) == s.map_values(|p: (String, Value)| (p.0@, json_view(p.1))),
    decreases s.len(),
{
    if s.len() > 0 {
        lemma_members_view(s.drop_last());
        assert(s.map_values(|p: (String, Value)| (p.0@, json_view(p.1))) =~= s.drop_last().map_values(
            |p: (String, Value)| (p.0@, json_view(p.1)),
        ).push((s.last().0@, json_view(s.last().1))));
    } else {
        assert(s.map_values(|p: (String, Value)| (p.0@, json_view(p.1))) =~= Seq::<(Seq<char>, JsonView)>::empty());
    }
}

/// An integer value.
pub fn int_value(n: i64) -> (r: Value)
    ensures
        json_view(r) == JsonView::Int(n as int),
{
    if n >= 0 {
        Value::PosInt(n as u64)
    } else {
        Value::NegInt(n)
    }
}

/// A string value.
pub fn str_value(s: &str) -> (r: Value)
    ensures
        json_view(r) == JsonView::Str(s@),
{
    Value::String(owned(s))
}

/// The value of the first member named `key` among object members.
pub open spec fn first_member(ms: Seq<(Seq<char>, JsonView)>, key: Seq<char>) -> Option<JsonView>
    decreases ms.len(),
{
    if ms.len() == 0 {
        None
    } else if ms[0].0 == key {
        Some(ms[0].1)
    } else {
        first_member(ms.drop_first(), key)
    }
}

/// The value of the first member named `key` of an object reading (nothing for other
/// readings).
pub open spec fn json_member(j: JsonView, key: Seq<char>) -> Option<JsonView> {
    match j {
        JsonView::Obj(ms) => first_member(ms, key),
        _ => None,
    }
}

/// The reading of a list of strings as an array.
pub open spec fn str_array(v: Seq<Seq<char>>) -> JsonView {
    JsonView::Arr(v.map_values(|x: Seq<char>| JsonView::Str(x)))
}

/// An array of strings.
pub fn strings_value(v: &Vec<String>) -> (r: Value)
    ensures
        json_view(r) == str_array(strs(v@)),
{
    let mut out: Vec<Value> = Vec::new();
    let mut i: usize = 0;
    while i < v.len()
        invariant
            i <= v@.len(),
            items_view(out@) == strs(v@).take(i as int).map_values(|x: Seq<char>| JsonView::Str(x)),
        decreases v@.len() - i,
    {
        let ghost before = out@;
        out.push(str_value(v[i].as_str()));
        assert(out@.drop_last() =~= before);
        assert(strs(v@).take(i + 1).map_values(|x: Seq<char>| JsonView::Str(x)) =~= strs(v@).take(i as int).map_values(
            |x: Seq<char>| JsonView::Str(x),
        ).push(JsonView::Str(v@[i as int]@)));
        i = i + 1;
    }
    assert(strs(v@).take(v@.len() as int) =~= strs(v@));
    Value::Array(out)
}

/// An object member.
pub fn member(key: &str, v: Value) -> (r: (String, Value))
    ensures
        r.0@ == key@,
        r.1 == v,
{
    (owned(key), v)
}

/// `Value::as_str`: the text of a string value.
pub open spec fn value_str(v: Value) -> Option<Seq<char>> {
    match v {
        Value::String(s) => Some(s@),
        _ => None,
    }
}

/// `Value::as_u64`: a non-negative integer value.
pub open spec fn value_u64(v: Value) -> Option<u64> {
    match v {
        Value::PosInt(n) => Some(n),
        _ => None,
    }
}

/// `Value::as_i64`: an integer value that fits in `i64`.
pub open spec fn value_i64(v: Value) -> Option<i64> {
    match v {
        Value::PosInt(n) => if n <= i64::MAX {
            Some(n as i64)
        } else {
            None
        },
        Value::NegInt(n) => Some(n),
        _ => None,
    }
}

/// `Value::as_array`: the items of an array value.
pub open spec fn value_array(v: Value) -> Option<Seq<Value>> {
    match v {
        Value::Array(a) => Some(a@),
        _ => None,
    }
}

/// The value of the first entry at or after `i` whose key is `key`.
pub open spec fn lookup_from(e: Seq<(String, Value)>, key: Seq<char>, i: int) -> Option<Value>
    decreases e.len() - i,
{
    if i < 0 || i >= e.len() {
        None
    } else if e[i].0@ == key {
        Some(e[i].1)
    } else {
        lookup_from(e, key, i + 1)
    }
}

/// The value stored under `key`.
pub open spec fn lookup(e: Seq<(String, Value)>, key: Seq<char>) -> Option<Value> {
    lookup_from(e, key, 0)
}

/// `Value::get` with a string key: the member `key` of an object value.
pub open spec fn value_get(v: Value, key: Seq<char>) -> Option<Value> {
    match v {
        Value::Object(e) => lookup(e@, key),
        _ => None,
    }
}

fn lookup_exec<'a>(e: &'a Vec<(String, Value)>, key: &str) -> (r: Option<&'a Value>)
    ensures
        match r {
            Some(v) => lookup(e@, key@) == Some(*v),
            None => lookup(e@, key@) is None,
        },
{
    let mut i: usize = 0;
    while i < e.len()
        invariant
            i <= e@.len(),
            lookup_from(e@, key@, i as int) == lookup(e@, key@),
        decreases e@.len() - i,
    {
        if str_eq(e[i].0.as_str(), key) {
            return Some(&e[i].1);
        }
        i = i + 1;
    }
    None
}

impl Value {
    pub fn as_str(&self) -> (r: Option<&str>)
        ensures
            match r {
                Some(s) => value_str(*self) == Some(s@),
                None => value_str(*self) is None,
            },
    {
        match self {
            Value::String(s) => Some(s.as_str()),
            _ => None,
        }
    }

    pub fn as_u64(&self) -> (r: Option<u64>)
        ensures
            r == value_u64(*self),
    {
        match self {
            Value::PosInt(n) => Some(*n),
            _ => None,
        }
    }

    pub fn as_i64(&self) -> (r: Option<i64>)
        ensures
            r == value_i64(*self),
    {
        match self {
            Value::PosInt(n) => if *n <= 0x7fff_ffff_ffff_ffff {
                Some(*n as i64)
            } else {
                None
            },
            Value::NegInt(n) => Some(*n),
            _ => None,
        }
    }

    pub fn as_array(&self) -> (r: Option<&Vec<Value>>)
        ensures
            match r {
                Some(a) => value_array(*self) == Some(a@),
                None => value_array(*self) is None,
            },
    {
        match self {
            Value::Array(a) => Some(a),
            _ => None,
        }
    }

    pub fn get(&self, key: &str) -> (r: Option<&Value>)
        ensures
            match r {
                Some(v) => value_get(*self, key@) == Some(*v),
                None => value_get(*self, key@) is None,
            },
    {
        match self {
            Value::Object(e) => lookup_exec(e, key),
            _ => None,
        }
    }
}

/// A table of a document's body: header cells and rows of cells.
pub struct Table {
    pub headers: Vec<String>,
    pub rows: Vec<Vec<String>>,
}

/// A reference document.
pub struct Document {
    pub id: Option<String>,
    pub name: Option<String>,
    pub category: Option<String>,
    pub text: Option<String>,
    pub markdown: Option<String>,
    /// The document's level (feats, spells), if it has one.
    pub level: Option<i32>,
    pub traits: Vec<String>,
    pub tradition: Vec<String>,
    pub attribute: Vec<String>,
    /// Extra fields by name (each name occurs once).
    pub extra: Vec<(String, Value)>,
    /// The tables found in the markdown body, in order.
    pub tables: Vec<Table>,
    /// Common, uncommon, rare or unique, when recorded.
    pub rarity: Option<String>,
    /// The books the document comes from.
    pub source: Vec<String>,
    /// Identifiers of the remastered versions of a legacy document.
    pub remaster_id: Vec<String>,
}

/// The extra field `key` of a document.
pub open spec fn field(doc: Document, key: Seq<char>) -> Option<Value> {
    lookup(doc.extra@, key)
}

/// The text of each string item, in order (`filter_map(as_str)`).
pub open spec fn str_items(items: Seq<Value>) -> Seq<Seq<char>>
    decreases items.len(),
{
    if items.len() == 0 {
        Seq::empty()
    } else {
        str_items(items.drop_last()) + match value_str(items.last()) {
            Some(s) => seq![s],
            None => Seq::empty(),
        }
    }
}

/// The string items of the array field `key`, or nothing.
pub open spec fn string_array(doc: Document, key: Seq<char>) -> Seq<Seq<char>> {
    match field(doc, key) {
        Some(v) => match value_array(v) {
            Some(a) => str_items(a),
            None => Seq::empty(),
        },
        None => Seq::empty(),
    }
}

/// The first item of the array field `key`, when it is a string.
pub open spec fn first_str(doc: Document, key: Seq<char>) -> Option<Seq<char>> {
    match field(doc, key) {
        Some(v) => match value_array(v) {
            Some(a) => if a.len() > 0 {
                value_str(a[0])
            } else {
                None
            },
            None => None,
        },
        None => None,
    }
}

/// The field `key` when it is a string.
pub open spec fn field_str(doc: Document, key: Seq<char>) -> Option<Seq<char>> {
    match field(doc, key) {
        Some(v) => value_str(v),
        None => None,
    }
}

/// The field `key` when it is a non-negative integer.
pub open spec fn field_u64(doc: Document, key: Seq<char>) -> Option<u64> {
    match field(doc, key) {
        Some(v) => value_u64(v),
        None => None,
    }
}

/// The field `key` when it is an integer that fits in `i64`.
pub open spec fn field_i64(doc: Document, key: Seq<char>) -> Option<i64> {
    match field(doc, key) {
        Some(v) => value_i64(v),
        None => None,
    }
}

/// The string items of an array, as owned strings.
pub fn str_items_exec(items: &Vec<Value>) -> (r: Vec<String>)
    ensures
        strs(r@) == str_items(items@),
{
    let mut out: Vec<String> = Vec::new();
    let mut i: usize = 0;
    while i < items.len()
        invariant
            i <= items@.len(),
            strs(out@) == str_items(items@.take(i as int)),
        decreases items@.len() - i,
    {
        let ghost prev = strs(out@);
        assert(items@.take(i + 1).drop_last() =~= items@.take(i as int));
        match items[i].as_str() {
            Some(s) => {
                out.push(owned(s));
                assert(strs(out@) =~= prev + seq![s@]);
            },
            None => {},
        }
        i = i + 1;
    }
    assert(items@.take(items@.len() as int) =~= items@);
    out
}

impl Document {
    /// A document with no fields set.
    pub fn new() -> (r: Document)
        ensures
            r.id is None,
            r.name is None,
            r.category is None,
            r.text is None,
            r.markdown is None,
            r.level is None,
            r.traits@.len() == 0,
            r.tradition@.len() == 0,
            r.attribute@.len() == 0,
            r.extra@.len() == 0,
            r.tables@.len() == 0,
            r.rarity is None,
            r.source@.len() == 0,
            r.remaster_id@.len() == 0,
    {
        Document {
            id: None,
            name: None,
            category: None,
            text: None,
            markdown: None,
            level: None,
            traits: Vec::new(),
            tradition: Vec::new(),
            attribute: Vec::new(),
            extra: Vec::new(),
            tables: Vec::new(),
            rarity: None,
            source: Vec::new(),
            remaster_id: Vec::new(),
        }
    }

    /// The extra field `key`.
    pub fn field(&self, key: &str) -> (r: Option<&Value>)
        ensures
            match r {
                Some(v) => field(*self, key@) == Some(*v),
                None => field(*self, key@) is None,
            },
    {
        lookup_exec(&self.extra, key)
    }

    /// The string items of the array field `key`.
    pub fn string_array(&self, key: &str) -> (r: Vec<String>)
        ensures
            strs(r@) == string_array(*self, key@),
    {
        match self.field(key) {
            Some(v) => match v.as_array() {
                Some(a) => str_items_exec(a),
                None => {
                    let r: Vec<String> = Vec::new();
                    assert(strs(r@) =~= Seq::<Seq<char>>::empty());
                    r
                },
            },
            None => {
                let r: Vec<String> = Vec::new();
                assert(strs(r@) =~= Seq::<Seq<char>>::empty());
                r
            },
        }
    }

    /// The first item of the array field `key`, when it is a string.
    pub fn first_str(&self, key: &str) -> (r: Option<String>)
        ensures
            match r {
                Some(s) => first_str(*self, key@) == Some(s@),
                None => first_str(*self, key@) is None,
            },
    {
        match self.field(key) {
            Some(v) => match v.as_array() {
                Some(a) => if a.len() > 0 {
                    match a[0].as_str() {
                        Some(s) => Some(owned(s)),
                        None => None,
                    }
                } else {
                    None
                },
                None => None,
            },
            None => None,
        }
    }

    /// The field `key` when it is a string.
    pub fn field_str(&self, key: &str) -> (r: Option<String>)
        ensures
            match r {
                Some(s) => field_str(*self, key@) == Some(s@),
                None => field_str(*self, key@) is None,
            },
    {
        match self.field(key) {
            Some(v) => match v.as_str() {
                Some(s) => Some(owned(s)),
                None => None,
            },
            None => None,
        }
    }

    /// The field `key` when it is a non-negative integer.
    pub fn field_u64(&self, key: &str) -> (r: Option<u64>)
        ensures
            r == field_u64(*self, key@),
    {
        match self.field(key) {
            Some(v) => v.as_u64(),
            None => None,
        }
    }

    /// The field `key` when it is an integer that fits in `i64`.
    pub fn field_i64(&self, key: &str) -> (r: Option<i64>)
        ensures
            r == field_i64(*self, key@),
    {
        match self.field(key) {
            Some(v) => v.as_i64(),
            None => None,
        }
    }
}

} // verus!
