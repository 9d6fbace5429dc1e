//! TOML documents, parsed, edited and rendered by `toml_edit`, which keeps
//! the layout and comments of what it does not touch.
//!
//! A document is seen through two names: the item at each key path, and the
//! order of the keys of each table. Values are read into plain values; the
//! edits are writes of plain values and removals, with the facts about them
//! that `toml_edit`'s source shows.

use vstd::prelude::*;
use toml_edit::{Array, DocumentMut, Item, Value};

verus! {

#[verifier::external_type_specification]
#[verifier::external_body]
pub struct ExDocumentMut(DocumentMut);

#[verifier::external_type_specification]
#[verifier::external_body]
pub struct ExItem(Item);

/// An element of an array: a string, or another value by its text.
#[derive(Debug)]
pub enum TomlElement {
    Str(String),
    Other(String),
}

/// An item of a document read as plain values: its value (with the text
/// `toml_edit` renders for it, decoration included) or a table.
#[derive(Debug)]
pub enum TomlValue {
    Str { value: String, text: String },
    Int { value: i64, text: String },
    Bool { value: bool, text: String },
    Array { elements: Vec<TomlElement>, text: String },
    Other { text: String },
    Table,
    TableArray,
}

/// A read item seen as a tag (0 string, 1 integer, 2 boolean, 3 array,
/// 4 other value, 5 table, 6 array of tables), its string, integer, boolean, elements (each
/// whether it is a string, and its text) and rendered text.
pub type TomlView = (int, Seq<char>, i64, bool, Seq<(bool, Seq<char>)>, Seq<char>);

/// The view of an array's elements.
pub open spec fn element_views(es: Seq<TomlElement>) -> Seq<(bool, Seq<char>)> {
    es.map_values(|e: TomlElement| match e {
        TomlElement::Str(s) => (true, s@),
        TomlElement::Other(t) => (false, t@),
    })
}

impl View for TomlValue {
    type V = TomlView;

    open spec fn view(&self) -> TomlView {
        match *self {
            TomlValue::Str { value, text } => (0, value@, 0, false, seq![], text@),
            TomlValue::Int { value, text } => (1, seq![], value, false, seq![], text@),
            TomlValue::Bool { value, text } => (2, seq![], 0, value, seq![], text@),
            TomlValue::Array { elements, text } => (3, seq![], 0, false, element_views(elements@), text@),
            TomlValue::Other { text } => (4, seq![], 0, false, seq![], text@),
            TomlValue::Table => (5, seq![], 0, false, seq![], seq![]),
            TomlValue::TableArray => (6, seq![], 0, false, seq![], seq![]),
        }
    }
}

/// A value to write: a string, an integer, a boolean, an array of
/// strings, or a decimal number given by its literal text (which the writes
/// accept only as a `simple_decimal`).
#[derive(Debug)]
pub enum TomlWrite {
    Str(String),
    Int(i64),
    Bool(bool),
    StrArray(Vec<String>),
    Decimal(String),
}

/// A value to write seen as a tag (0 string, 1 integer, 2 boolean, 3 array
/// of strings, 4 decimal) with its string (or decimal text), integer,
/// boolean and strings.
pub type WriteView = (int, Seq<char>, i64, bool, Seq<Seq<char>>);

/// The view of a value to write.
pub open spec fn write_view(w: TomlWrite) -> WriteView {
    match w {
        TomlWrite::Str(s) => (0, s@, 0, false, seq![]),
        TomlWrite::Int(i) => (1, seq![], i, false, seq![]),
        TomlWrite::Bool(b) => (2, seq![], 0, b, seq![]),
        TomlWrite::StrArray(xs) => (3, seq![], 0, false, xs@.map_values(|x: String| x@)),
        TomlWrite::Decimal(d) => (4, d@, 0, false, seq![]),
    }
}

/// The text `toml_edit` renders (`Display`) for a value it makes with
/// `toml_edit::value` from what is written, before any decoration.
pub uninterp spec fn fresh_text(w: WriteView) -> Seq<char>;

/// A decimal literal of the simplest TOML float form: one digit, a point,
/// and one or more digits. `toml_edit` parses every such text into a float
/// value, which it reads back as another value (tag 4).
pub open spec fn simple_decimal(s: Seq<char>) -> bool {
    &&& s.len() >= 3
    &&& '0' <= s[0] && s[0] <= '9'
    &&& s[1] == '.'
    &&& forall|i: int| 2 <= i < s.len() ==> '0' <= #[trigger] s[i] && s[i] <= '9'
}

/// Whether a value can be written: a decimal must be a `simple_decimal`.
pub open spec fn writable(w: WriteView) -> bool {
    w.0 == 4 ==> simple_decimal(w.1)
}

/// Whether an item read back is the value written, with the text of a
/// freshly made value. A decimal reads back as another value (a float) with
/// the text that `toml_edit` renders for it.
pub open spec fn holds_written(v: TomlView, w: WriteView) -> bool {
    &&& v.5 == fresh_text(w)
    &&& if w.0 == 0 {
        v.0 == 0 && v.1 == w.1
    } else if w.0 == 1 {
        v.0 == 1 && v.2 == w.2
    } else if w.0 == 2 {
        v.0 == 2 && v.3 == w.3
    } else if w.0 == 3 {
        v.0 == 3 && v.4 == w.4.map_values(|x: Seq<char>| (true, x))
    } else {
        v.0 == 4
    }
}

/// The view of writing an array of strings.
pub open spec fn array_write(vs: Seq<Seq<char>>) -> WriteView {
    (3, seq![], 0, false, vs)
}

/// The item that `toml_edit` holds at a key path, following `Item::get`
/// from the root table, read as plain values.
pub uninterp spec fn toml_at(doc: DocumentMut, path: Seq<Seq<char>>) -> Option<TomlView>;

/// The keys of the table at a key path, in `toml_edit`'s order; `None` when
/// no table is there.
pub uninterp spec fn toml_keys(doc: DocumentMut, path: Seq<Seq<char>>) -> Option<Seq<Seq<char>>>;

/// The text `toml_edit` renders for a document.
pub uninterp spec fn toml_text(doc: DocumentMut) -> Seq<char>;

/// A parsed document as plain values: the item at each key path where there
/// is one, the keys (in order) of each table, and the document's rendered
/// text.
pub type ParsedToml = (Map<Seq<Seq<char>>, TomlView>, Map<Seq<Seq<char>>, Seq<Seq<char>>>, Seq<char>);

/// What `toml_edit` makes of a text (`str::parse::<DocumentMut>`): the
/// parsed document as plain values, or the error's text.
pub uninterp spec fn toml_parse(text: Seq<char>) -> Result<ParsedToml, Seq<char>>;

/// Whether `d` is the document `p` describes, read by paths, keys and text.
pub open spec fn parsed_as(d: DocumentMut, p: ParsedToml) -> bool {
    &&& forall|q: Seq<Seq<char>>| #[trigger] toml_at(d, q) == if p.0.dom().contains(q) {
        Some(p.0[q])
    } else {
        None
    }
    &&& forall|q: Seq<Seq<char>>| #[trigger] toml_keys(d, q) == if p.1.dom().contains(q) {
        Some(p.1[q])
    } else {
        None
    }
    &&& toml_text(d) == p.2
}

/// Whether `q` starts with `p`.
pub open spec fn path_prefix(p: Seq<Seq<char>>, q: Seq<Seq<char>>) -> bool {
    p.len() <= q.len() && q.subrange(0, p.len() as int) == p
}

/// Whether every table on the way to `path` (excluding `path` itself) is
/// absent or a table, so that a write at `path` can make the way.
pub open spec fn way_is_open(doc: DocumentMut, path: Seq<Seq<char>>) -> bool {
    forall|i: int| 1 <= i < path.len() ==> match #[trigger] toml_at(doc, path.subrange(0, i)) {
        Some(v) => v.0 == 5,
        None => true,
    }
}

/// `keys` without `k`.
pub open spec fn without_key(keys: Seq<Seq<char>>, k: Seq<char>) -> Seq<Seq<char>>
    decreases keys.len(),
{
    if keys.len() == 0 {
        seq![]
    } else {
        let prev = without_key(keys.drop_last(), k);
        if keys.last() == k { prev } else { prev.push(keys.last()) }
    }
}

/// What writing `w` at `path` leaves: `w` there; standard tables on the way;
/// nothing below `path`; everything else as it was; the key kept in its
/// place in its table, or added last.
pub open spec fn written(old: DocumentMut, new: DocumentMut, path: Seq<Seq<char>>, w: WriteView) -> bool {
    let table = path.drop_last();
    let key = path.last();
    &&& (toml_at(new, path) matches Some(v) && holds_written(v, w))
    &&& forall|i: int| 1 <= i < path.len() ==> ((#[trigger] toml_at(new, path.subrange(0, i))) matches Some(t) && t.0 == 5)
    &&& forall|q: Seq<Seq<char>>| !path_prefix(q, path) && !path_prefix(path, q)
        ==> #[trigger] toml_at(new, q) == toml_at(old, q)
    &&& forall|q: Seq<Seq<char>>| path_prefix(path, q) && q.len() > path.len() ==> #[trigger] toml_at(new, q) is None
    &&& toml_keys(new, table) == Some(match toml_keys(old, table) {
        Some(ks) => if ks.contains(key) { ks } else { ks.push(key) },
        None => seq![key],
    })
}

/// What removing the item at `path` leaves: nothing there or below; the
/// key gone from its table, the other keys in their order; everything else
/// as it was.
pub open spec fn removed(old: DocumentMut, new: DocumentMut, path: Seq<Seq<char>>) -> bool {
    let table = path.drop_last();
    &&& forall|q: Seq<Seq<char>>| path_prefix(path, q) ==> #[trigger] toml_at(new, q) is None
    &&& forall|q: Seq<Seq<char>>| !path_prefix(path, q) ==> #[trigger] toml_at(new, q) == toml_at(old, q)
    &&& toml_keys(new, table) == match toml_keys(old, table) {
        Some(ks) => Some(without_key(ks, path.last())),
        None => None,
    }
}

/// Parses `text` as a TOML document with `toml_edit`; on failure returns
/// the error's text. What comes out is what the named parse of the text
/// yields.
#[verifier::external_body]
pub fn parse_document(text: &str) -> (r: Result<DocumentMut, String>)
    ensures
        match r {
            Ok(d) => toml_parse(text@) matches Ok(p) && parsed_as(d, p),
            Err(e) => toml_parse(text@) == Err::<ParsedToml, Seq<char>>(e@),
        },
{
    match text.parse::<DocumentMut>() {
        Ok(doc) => Ok(doc),
        Err(err) => Err(err.to_string()),
    }
}

/// An empty document (`DocumentMut::new`): no items, no keys.
#[verifier::external_body]
pub fn empty_document() -> (r: DocumentMut)
    ensures
        forall|p: Seq<Seq<char>>| p.len() > 0 ==> #[trigger] toml_at(r, p) is None,
        toml_keys(r, seq![]) == Some(Seq::<Seq<char>>::empty()),
{
    DocumentMut::new()
}

/// The document's text (`Display`).
#[verifier::external_body]
pub fn render_document(doc: &DocumentMut) -> (r: String)
    ensures
        r@ == toml_text(*doc),
{
    doc.to_string()
}


/// The plain view of an item, as `read_item` gives it.
pub uninterp spec fn item_view(item: Item) -> TomlView;

/// The kind of an item, told apart by its `Item` and `Value` variants: a
/// string, integer, boolean or array value, another value, an array of
/// tables, or a table. The plain view of an item holds nothing in the parts
/// its kind does not use.
#[verifier::external_body]
fn item_tag(item: &Item) -> (r: u8)
    ensures
        r as int == item_view(*item).0,
        r <= 6,
        r != 0 ==> item_view(*item).1 == Seq::<char>::empty(),
        r != 1 ==> item_view(*item).2 == 0,
        r != 2 ==> !item_view(*item).3,
        r != 3 ==> item_view(*item).4 == Seq::<(bool, Seq<char>)>::empty(),
        r >= 5 ==> item_view(*item).5 == Seq::<char>::empty(),
{
    match item {
        Item::Value(Value::String(_)) => 0,
        Item::Value(Value::Integer(_)) => 1,
        Item::Value(Value::Boolean(_)) => 2,
        Item::Value(Value::Array(_)) => 3,
        Item::Value(_) => 4,
        Item::ArrayOfTables(_) => 6,
        _ => 5,
    }
}

/// The text `toml_edit` renders (`Display`) for a value item, its
/// decoration included.
#[verifier::external_body]
fn item_text(item: &Item) -> (r: String)
    requires
        item_view(*item).0 <= 4,
    ensures
        r@ == item_view(*item).5,
{
    item.to_string()
}

/// The string of a string item (`Item::as_str`).
#[verifier::external_body]
fn item_str(item: &Item) -> (r: String)
    requires
        item_view(*item).0 == 0,
    ensures
        r@ == item_view(*item).1,
{
    item.as_str().unwrap_or_default().to_owned()
}

/// The integer of an integer item (`Item::as_integer`).
#[verifier::external_body]
fn item_int(item: &Item) -> (r: i64)
    requires
        item_view(*item).0 == 1,
    ensures
        r == item_view(*item).2,
{
    item.as_integer().unwrap_or_default()
}

/// The boolean of a boolean item (`Item::as_bool`).
#[verifier::external_body]
fn item_bool(item: &Item) -> (r: bool)
    requires
        item_view(*item).0 == 2,
    ensures
        r == item_view(*item).3,
{
    item.as_bool().unwrap_or_default()
}

/// The number of elements of an array item (`Array::len`).
#[verifier::external_body]
fn item_array_len(item: &Item) -> (r: usize)
    requires
        item_view(*item).0 == 3,
    ensures
        r == item_view(*item).4.len(),
{
    match item.as_array() {
        Some(array) => array.len(),
        None => 0,
    }
}

/// The element at `i` of an array item (`Array::get`): a string by its
/// value, another value by its text.
#[verifier::external_body]
fn item_array_element(item: &Item, i: usize) -> (r: TomlElement)
    requires
        item_view(*item).0 == 3,
        i < item_view(*item).4.len(),
    ensures
        element_views(seq![r])[0] == item_view(*item).4[i as int],
{
    let element = match item.as_array() {
        Some(array) => array.get(i),
        None => None,
    };
    match element {
        Some(Value::String(s)) => TomlElement::Str(s.value().to_owned()),
        Some(other) => TomlElement::Other(other.to_string()),
        None => TomlElement::Other(String::new()),
    }
}

/// Reads an item into plain values: a string, integer or boolean value with
/// its text (`Display`, decoration included), an array with its elements,
/// another value by its text, a table, or an array of tables.
pub fn read_item(item: &Item) -> (r: TomlValue)
    ensures
        r@ == item_view(*item),
{
    let tag = item_tag(item);
    if tag == 0 {
        TomlValue::Str { value: item_str(item), text: item_text(item) }
    } else if tag == 1 {
        TomlValue::Int { value: item_int(item), text: item_text(item) }
    } else if tag == 2 {
        TomlValue::Bool { value: item_bool(item), text: item_text(item) }
    } else if tag == 3 {
        let n = item_array_len(item);
        let mut elements: Vec<TomlElement> = Vec::new();
        let mut i: usize = 0;
        while i < n
            invariant
                i <= n,
                n == item_view(*item).4.len(),
                item_view(*item).0 == 3,
                element_views(elements@) == item_view(*item).4.subrange(0, i as int),
            decreases n - i,
        {
            let e = item_array_element(item, i);
            let ghost before = elements@;
            elements.push(e);
            assert(element_views(elements@) =~= element_views(before).push(element_views(seq![e])[0]));
            assert(item_view(*item).4.subrange(0, i + 1) =~= item_view(*item).4.subrange(0, i as int).push(item_view(*item).4[i as int]));
            i = i + 1;
        }
        assert(item_view(*item).4.subrange(0, n as int) =~= item_view(*item).4);
        TomlValue::Array { elements, text: item_text(item) }
    } else if tag == 4 {
        TomlValue::Other { text: item_text(item) }
    } else if tag == 6 {
        TomlValue::TableArray
    } else {
        TomlValue::Table
    }
}

/// The item at `key` of the root table (`Table::get`), cloned.
#[verifier::external_body]
pub fn item_at_root(doc: &DocumentMut, key: &str) -> (r: Option<Item>)
    ensures
        match r {
            Some(i) => toml_at(*doc, seq![key@]) == Some(item_view(i)),
            None => toml_at(*doc, seq![key@]) is None,
        },
{
    doc.get(key).cloned()
}

/// The item at `table.key` (`Table::get`, then `Item::get`), cloned.
#[verifier::external_body]
pub fn item_at_table(doc: &DocumentMut, table: &str, key: &str) -> (r: Option<Item>)
    ensures
        match r {
            Some(i) => toml_at(*doc, seq![table@, key@]) == Some(item_view(i)),
            None => toml_at(*doc, seq![table@, key@]) is None,
        },
{
    match doc.get(table) {
        Some(t) => t.get(key).cloned(),
        None => None,
    }
}

/// The item at `outer.inner.key` (`Table::get`, then `Item::get` twice),
/// cloned.
#[verifier::external_body]
pub fn item_at_subtable(doc: &DocumentMut, outer: &str, inner: &str, key: &str) -> (r: Option<Item>)
    ensures
        match r {
            Some(i) => toml_at(*doc, seq![outer@, inner@, key@]) == Some(item_view(i)),
            None => toml_at(*doc, seq![outer@, inner@, key@]) is None,
        },
{
    let middle = match doc.get(outer) {
        Some(t) => t.get(inner),
        None => None,
    };
    match middle {
        Some(t) => t.get(key).cloned(),
        None => None,
    }
}

/// The keys of the root table, in order (`Table::iter`).
#[verifier::external_body]
pub fn root_keys(doc: &DocumentMut) -> (r: Vec<String>)
    ensures
        toml_keys(*doc, seq![]) == Some(r@.map_values(|k: String| k@)),
{
    doc.iter().map(|(k, _)| k.to_owned()).collect()
}

/// The keys of the table (or inline table) at `table`, in order; `None`
/// when there is none. A standard table always has its keys.
#[verifier::external_body]
pub fn table_keys(doc: &DocumentMut, table: &str) -> (r: Option<Vec<String>>)
    ensures
        (toml_at(*doc, seq![table@]) matches Some(t) && t.0 == 5) ==> r is Some,
        match r {
            Some(ks) => toml_keys(*doc, seq![table@]) == Some(ks@.map_values(|k: String| k@)),
            None => toml_keys(*doc, seq![table@]) is None,
        },
{
    let found = match doc.get(table) {
        Some(item) => item.as_table_like(),
        None => None,
    };
    match found {
        Some(t) => Some(t.iter().map(|(k, _)| k.to_owned()).collect()),
        None => None,
    }
}

/// The keys of the table (or inline table) at `outer.inner`, in order;
/// `None` when there is none. A standard table always has its keys.
#[verifier::external_body]
pub fn subtable_keys(doc: &DocumentMut, outer: &str, inner: &str) -> (r: Option<Vec<String>>)
    ensures
        (toml_at(*doc, seq![outer@, inner@]) matches Some(t) && t.0 == 5) ==> r is Some,
        match r {
            Some(ks) => toml_keys(*doc, seq![outer@, inner@]) == Some(ks@.map_values(|k: String| k@)),
            None => toml_keys(*doc, seq![outer@, inner@]) is None,
        },
{
    let middle = match doc.get(outer) {
        Some(t) => t.get(inner),
        None => None,
    };
    let found = match middle {
        Some(item) => item.as_table_like(),
        None => None,
    };
    match found {
        Some(t) => Some(t.iter().map(|(k, _)| k.to_owned()).collect()),
        None => None,
    }
}

/// Writes `w` at `key` of the root table (`doc[key] = value`).
#[verifier::external_body]
pub fn write_root(doc: &mut DocumentMut, key: &str, w: &TomlWrite)
    requires
        writable(write_view(*w)),
    ensures
        written(*old(doc), *final(doc), seq![key@], write_view(*w)),
        toml_at(*final(doc), seq![key@]).unwrap().5 == fresh_text(write_view(*w)),
{
    doc[key] = match w {
        TomlWrite::Str(s) => toml_edit::value(s.as_str()),
        TomlWrite::Int(i) => toml_edit::value(*i),
        TomlWrite::Bool(b) => toml_edit::value(*b),
        TomlWrite::StrArray(xs) => toml_edit::value(xs.iter().map(|x| x.as_str()).collect::<Array>()),
        TomlWrite::Decimal(d) => Item::Value(d.parse::<Value>().expect("a decimal literal")),
    };
}

/// Writes `w` at `table.key`, making `table` a standard table when it is
/// absent (`Table::entry(..).or_insert(table())`, then `[key] = value`).
#[verifier::external_body]
pub fn write_table(doc: &mut DocumentMut, table: &str, key: &str, w: &TomlWrite)
    requires
        way_is_open(*old(doc), seq![table@, key@]),
        writable(write_view(*w)),
    ensures
        written(*old(doc), *final(doc), seq![table@, key@], write_view(*w)),
        toml_at(*final(doc), seq![table@, key@]).unwrap().5 == fresh_text(write_view(*w)),
{
    let t = doc.entry(table).or_insert(toml_edit::table()).as_table_mut().expect("a table");
    t[key] = match w {
        TomlWrite::Str(s) => toml_edit::value(s.as_str()),
        TomlWrite::Int(i) => toml_edit::value(*i),
        TomlWrite::Bool(b) => toml_edit::value(*b),
        TomlWrite::StrArray(xs) => toml_edit::value(xs.iter().map(|x| x.as_str()).collect::<Array>()),
        TomlWrite::Decimal(d) => Item::Value(d.parse::<Value>().expect("a decimal literal")),
    };
}

/// Writes `w` at `outer.inner.key`, making standard tables on the way where
/// they are absent.
#[verifier::external_body]
pub fn write_subtable(doc: &mut DocumentMut, outer: &str, inner: &str, key: &str, w: &TomlWrite)
    requires
        way_is_open(*old(doc), seq![outer@, inner@, key@]),
        writable(write_view(*w)),
    ensures
        written(*old(doc), *final(doc), seq![outer@, inner@, key@], write_view(*w)),
        toml_at(*final(doc), seq![outer@, inner@, key@]).unwrap().5 == fresh_text(write_view(*w)),
{
    let o = doc.entry(outer).or_insert(toml_edit::table()).as_table_mut().expect("a table");
    let t = o.entry(inner).or_insert(toml_edit::table()).as_table_mut().expect("a table");
    t[key] = match w {
        TomlWrite::Str(s) => toml_edit::value(s.as_str()),
        TomlWrite::Int(i) => toml_edit::value(*i),
        TomlWrite::Bool(b) => toml_edit::value(*b),
        TomlWrite::StrArray(xs) => toml_edit::value(xs.iter().map(|x| x.as_str()).collect::<Array>()),
        TomlWrite::Decimal(d) => Item::Value(d.parse::<Value>().expect("a decimal literal")),
    };
}

/// What inserting an empty standard table at the root key `key` leaves:
/// an empty table there, nothing below it, the rest as it was, and `key`
/// added last to the root keys.
pub open spec fn table_inserted(old: DocumentMut, new: DocumentMut, key: Seq<char>) -> bool {
    &&& toml_at(new, seq![key]) matches Some(t) && t.0 == 5
    &&& toml_keys(new, seq![key]) == Some(Seq::<Seq<char>>::empty())
    &&& forall|q: Seq<Seq<char>>| path_prefix(seq![key], q) && q.len() > 1 ==> #[trigger] toml_at(new, q) is None
    &&& forall|q: Seq<Seq<char>>| !path_prefix(seq![key], q) ==> #[trigger] toml_at(new, q) == toml_at(old, q)
    &&& toml_keys(new, seq![]) == match toml_keys(old, seq![]) {
        Some(ks) => Some(ks.push(key)),
        None => None,
    }
}

/// Inserts an empty standard table at the root key `key`, where nothing is
/// (`Table::insert` of `toml_edit::table()`, which adds the key last).
#[verifier::external_body]
pub fn insert_empty_table(doc: &mut DocumentMut, key: &str)
    requires
        toml_at(*old(doc), seq![key@]) is None,
    ensures
        table_inserted(*old(doc), *final(doc), key@),
{
    doc.insert(key, toml_edit::table());
}

/// Removes `key` from the root table (`Table::remove`, which keeps the
/// order of the other keys); returns whether it was there.
#[verifier::external_body]
pub fn remove_root(doc: &mut DocumentMut, key: &str) -> (r: bool)
    ensures
        r == (toml_at(*old(doc), seq![key@]) is Some),
        removed(*old(doc), *final(doc), seq![key@]),
{
    doc.remove(key).is_some()
}

/// Removes `key` from the standard table at `table` (`Table::remove`,
/// which keeps the order of the other keys); returns whether it was there.
/// Only a standard table (or nothing) may stand at `table`: the removal from
/// an inline table would change the text of the table itself.
#[verifier::external_body]
pub fn remove_in_table(doc: &mut DocumentMut, table: &str, key: &str) -> (r: bool)
    requires
        way_is_open(*old(doc), seq![table@, key@]),
    ensures
        r == (toml_at(*old(doc), seq![table@, key@]) is Some),
        removed(*old(doc), *final(doc), seq![table@, key@]),
{
    let found = match doc.get_mut(table) {
        Some(item) => item.as_table_mut(),
        None => None,
    };
    match found {
        Some(t) => t.remove(key).is_some(),
        None => false,
    }
}

/// Removes `key` from the standard table at `outer.inner`; returns whether
/// it was there. Only standard tables (or nothing) may stand at `outer` and
/// `outer.inner`.
#[verifier::external_body]
pub fn remove_in_subtable(doc: &mut DocumentMut, outer: &str, inner: &str, key: &str) -> (r: bool)
    requires
        way_is_open(*old(doc), seq![outer@, inner@, key@]),
    ensures
        r == (toml_at(*old(doc), seq![outer@, inner@, key@]) is Some),
        removed(*old(doc), *final(doc), seq![outer@, inner@, key@]),
{
    let middle = match doc.get_mut(outer) {
        Some(item) => item.as_table_mut(),
        None => None,
    };
    let found = match middle {
        Some(t) => match t.get_mut(inner) {
            Some(item) => item.as_table_mut(),
            None => None,
        },
        None => None,
    };
    match found {
        Some(t) => t.remove(key).is_some(),
        None => false,
    }
}

/// A field of a root table that is a standard table, or absent, has an open
/// way.
pub proof fn lemma_way_open_in_table(doc: DocumentMut, table: Seq<char>, key: Seq<char>)
    requires
        match toml_at(doc, seq![table]) {
            Some(v) => v.0 == 5,
            None => true,
        },
    ensures
        way_is_open(doc, seq![table, key]),
{
    assert(seq![table, key].subrange(0, 1) =~= seq![table]);
}

/// Two writes at one path leave what the second alone would have left.
pub proof fn lemma_written_twice(d0: DocumentMut, d1: DocumentMut, d2: DocumentMut, path: Seq<Seq<char>>, w1: WriteView, w2: WriteView)
    requires
        path.len() > 0,
        written(d0, d1, path, w1),
        written(d1, d2, path, w2),
    ensures
        written(d0, d2, path, w2),
{
    let table = path.drop_last();
    let key = path.last();
    assert forall|q: Seq<Seq<char>>| !path_prefix(q, path) && !path_prefix(path, q)
        implies #[trigger] toml_at(d2, q) == toml_at(d0, q) by {
        assert(toml_at(d1, q) == toml_at(d0, q));
    }
    match toml_keys(d0, table) {
        Some(ks) => {
            if !ks.contains(key) {
                assert(ks.push(key)[ks.len() as int] == key);
            }
        },
        None => {
            assert(seq![key][0] == key);
        },
    }
}

} // verus!
