//! Entries of array settings: the strings, inline tables and tables that an
//! array or an array of tables holds, read into plain values, and arrays
//! rebuilt entry by entry with `toml_edit`.
//!
//! An entry is seen as its kind, its string, the keys of its table with
//! their fields in order, and its text. What a rebuild promises is the
//! entry without its text, which `toml_edit` decorates as it sees fit.

use vstd::prelude::*;
use toml_edit::{Array, ArrayOfTables, DocumentMut, InlineTable, Item, Table, Value};
use crate::deny_fields::{field_path, opt_view};
use crate::toml_doc::{item_view, path_prefix, toml_at, toml_keys, way_is_open};

verus! {

/// A field of a table entry: a string, an integer, an array (each element
/// a string or not), or another value.
#[derive(Debug)]
pub enum EntryField {
    Str(String),
    Int(i64),
    Array(Vec<Option<String>>),
    Other,
}

/// A field seen as a tag (0 string, 1 integer, 2 array, 3 other value) with
/// its string, its integer and its elements.
pub type FieldView = (int, Seq<char>, i64, Seq<Option<Seq<char>>>);

/// The views of optional texts.
pub open spec fn opt_views(xs: Seq<Option<String>>) -> Seq<Option<Seq<char>>> {
    xs.map_values(|x: Option<String>| match x {
        Some(s) => Some(s@),
        None => None,
    })
}

/// The view of a field.
pub open spec fn field_view(f: EntryField) -> FieldView {
    match f {
        EntryField::Str(s) => (0, s@, 0, seq![]),
        EntryField::Int(n) => (1, seq![], n, seq![]),
        EntryField::Array(xs) => (2, seq![], 0, opt_views(xs@)),
        EntryField::Other => (3, seq![], 0, seq![]),
    }
}

/// The views of fields.
pub open spec fn field_views(fs: Seq<EntryField>) -> Seq<FieldView> {
    fs.map_values(|f: EntryField| field_view(f))
}

/// The views of keys.
pub open spec fn key_views(ks: Seq<String>) -> Seq<Seq<char>> {
    ks.map_values(|k: String| k@)
}

/// An entry of an array read into plain values: a string, a table by its
/// keys and their fields in order, or another value; each with the text
/// `toml_edit` renders for it.
#[derive(Debug)]
pub enum TomlEntry {
    Str { value: String, text: String },
    Table { keys: Vec<String>, fields: Vec<EntryField>, text: String },
    Other { text: String },
}

/// An entry seen as a tag (0 string, 1 table, 2 other value), its string,
/// its keys, their fields, and its text.
pub type EntryView = (int, Seq<char>, Seq<Seq<char>>, Seq<FieldView>, Seq<char>);

impl View for TomlEntry {
    type V = EntryView;

    open spec fn view(&self) -> EntryView {
        match *self {
            TomlEntry::Str { value, text } => (0, value@, seq![], seq![], text@),
            TomlEntry::Table { keys, fields, text } => (1, seq![], key_views(keys@), field_views(fields@), text@),
            TomlEntry::Other { text } => (2, seq![], seq![], seq![], text@),
        }
    }
}

/// The views of entries.
pub open spec fn entry_views(es: Seq<TomlEntry>) -> Seq<EntryView> {
    es.map_values(|e: TomlEntry| e@)
}

/// An entry without its text.
pub type EntryCore = (int, Seq<char>, Seq<Seq<char>>, Seq<FieldView>);

/// An entry's view without its text.
pub open spec fn entry_core(e: EntryView) -> EntryCore {
    (e.0, e.1, e.2, e.3)
}

/// The cores of entries.
pub open spec fn cores(es: Seq<EntryView>) -> Seq<EntryCore> {
    es.map_values(|e: EntryView| entry_core(e))
}

/// The position of the first key `key` among `keys`.
pub open spec fn first_key(keys: Seq<Seq<char>>, key: Seq<char>) -> Option<int> {
    if exists|j: int| 0 <= j < keys.len() && keys[j] == key {
        Some(choose|j: int| 0 <= j < keys.len() && keys[j] == key && forall|i: int| 0 <= i < j ==> keys[i] != key)
    } else {
        None
    }
}

/// The field of `key` in a table entry: that of its first such key.
pub open spec fn field_of(e: EntryCore, key: Seq<char>) -> Option<FieldView> {
    if e.0 != 1 {
        None
    } else {
        match first_key(e.2, key) {
            Some(j) => if j < e.3.len() { Some(e.3[j]) } else { None },
            None => None,
        }
    }
}

/// The string of the field `key` of a table entry, when it is a string.
pub open spec fn str_field(e: EntryCore, key: Seq<char>) -> Option<Seq<char>> {
    match field_of(e, key) {
        Some(f) => if f.0 == 0 { Some(f.1) } else { None },
        None => None,
    }
}

/// The string of the field `k1` when there is such a field, else of `k2`.
pub open spec fn str_field_or(e: EntryCore, k1: Seq<char>, k2: Seq<char>) -> Option<Seq<char>> {
    if field_of(e, k1) is Some { str_field(e, k1) } else { str_field(e, k2) }
}

/// The first key `key` of `keys` is at `j`.
pub proof fn lemma_first_key(keys: Seq<Seq<char>>, key: Seq<char>, j: int)
    requires
        0 <= j < keys.len(),
        keys[j] == key,
        forall|i: int| 0 <= i < j ==> keys[i] != key,
    ensures
        first_key(keys, key) == Some(j),
{
    assert(0 <= j < keys.len() && keys[j] == key && forall|i: int| 0 <= i < j ==> keys[i] != key);
    let c = choose|c: int| 0 <= c < keys.len() && keys[c] == key && forall|i: int| 0 <= i < c ==> keys[i] != key;
    assert(c == j) by {
        if c < j {
            assert(keys[c] != key);
        } else if c > j {
            assert(keys[j] != key);
        }
    }
}

/// Whether a table entry has the key `key`.
pub open spec fn has_key(e: EntryCore, key: Seq<char>) -> bool {
    e.0 == 1 && e.2.contains(key)
}

/// The field of `key` in a table entry.
pub fn lookup<'a>(e: &'a TomlEntry, key: &str) -> (r: Option<&'a EntryField>)
    ensures
        match r {
            Some(f) => field_of(entry_core(e@), key@) == Some(field_view(*f)),
            None => field_of(entry_core(e@), key@) is None,
        },
{
    match e {
        TomlEntry::Table { keys, fields, .. } => {
            let ghost ks = key_views(keys@);
            assert(e@.2 == ks && e@.3 == field_views(fields@) && e@.0 == 1);
            let mut j: usize = 0;
            while j < keys.len()
                invariant
                    j <= keys.len(),
                    ks == key_views(keys@),
                    e@.2 == ks && e@.3 == field_views(fields@) && e@.0 == 1,
                    forall|i: int| 0 <= i < j ==> ks[i] != key@,
                decreases keys.len() - j,
            {
                if crate::text::str_eq(keys[j].as_str(), key) {
                    proof {
                        assert(ks[j as int] == keys@[j as int]@);
                        assert(ks[j as int] == key@);
                        assert(first_key(ks, key@) is Some);
                        let c = choose|c: int| 0 <= c < ks.len() && ks[c] == key@ && forall|i: int| 0 <= i < c ==> ks[i] != key@;
                        assert(c == j as int) by {
                            if c > j {
                                assert(ks[j as int] != key@);
                            }
                        }
                    }
                    if j < fields.len() {
                        assert(field_views(fields@)[j as int] == field_view(fields@[j as int]));
                        return Some(&fields[j]);
                    } else {
                        return None;
                    }
                }
                j = j + 1;
            }
            None
        },
        _ => None,
    }
}

/// Whether a table entry has the key `key`.
pub fn entry_has_key(e: &TomlEntry, key: &str) -> (r: bool)
    ensures
        r == has_key(entry_core(e@), key@),
{
    match e {
        TomlEntry::Table { keys, .. } => {
            let ghost ks = key_views(keys@);
            assert(e@.2 == ks && e@.0 == 1);
            let mut j: usize = 0;
            while j < keys.len()
                invariant
                    j <= keys.len(),
                    ks == key_views(keys@),
                    e@.2 == ks && e@.0 == 1,
                    forall|i: int| 0 <= i < j ==> ks[i] != key@,
                decreases keys.len() - j,
            {
                if crate::text::str_eq(keys[j].as_str(), key) {
                    assert(ks[j as int] == keys@[j as int]@);
                    assert(ks[j as int] == key@);
                    assert(e@.2.contains(key@));
                    return true;
                }
                j = j + 1;
            }
            false
        },
        _ => false,
    }
}

/// The string of the field `key` of a table entry, when it is a string.
pub fn entry_str_field(e: &TomlEntry, key: &str) -> (r: Option<String>)
    ensures
        opt_views(seq![r])[0] == str_field(entry_core(e@), key@),
{
    match lookup(e, key) {
        Some(EntryField::Str(s)) => Some(s.clone()),
        _ => None,
    }
}

/// The string of the field `k1` when there is such a field, else of `k2`.
pub fn entry_str_field_or(e: &TomlEntry, k1: &str, k2: &str) -> (r: Option<String>)
    ensures
        opt_views(seq![r])[0] == str_field_or(entry_core(e@), k1@, k2@),
{
    match lookup(e, k1) {
        Some(EntryField::Str(s)) => Some(s.clone()),
        Some(_) => None,
        None => entry_str_field(e, k2),
    }
}

/// The entries of an array or array-of-tables item, read as plain values.
pub uninterp spec fn entries_view(item: Item) -> Seq<EntryView>;

/// The entries of the array or array of tables at a key path.
pub uninterp spec fn toml_entries(doc: DocumentMut, path: Seq<Seq<char>>) -> Seq<EntryView>;

/// The item at `table.key` (or `table.sub.key`), following `Item::get`,
/// cloned; its entries are those of the document there.
#[verifier::external_body]
pub fn entries_item_at(doc: &DocumentMut, table: &str, sub: Option<&str>, key: &str) -> (r: Option<Item>)
    ensures
        match r {
            Some(i) => toml_at(*doc, field_path(table@, opt_view(sub), key@)) == Some(item_view(i))
                && toml_entries(*doc, field_path(table@, opt_view(sub), key@)) == entries_view(i),
            None => toml_at(*doc, field_path(table@, opt_view(sub), key@)) is None,
        },
{
    let top = doc.get(table);
    let t = match sub {
        Some(s) => top.and_then(|t| t.get(s)),
        None => top,
    };
    t.and_then(|t| t.get(key)).cloned()
}

/// The number of entries of an array or array of tables.
#[verifier::external_body]
fn entry_count(item: &Item) -> (r: usize)
    requires
        item_view(*item).0 == 3 || item_view(*item).0 == 6,
    ensures
        r == entries_view(*item).len(),
{
    match item {
        Item::Value(Value::Array(a)) => a.len(),
        Item::ArrayOfTables(ts) => ts.len(),
        _ => 0,
    }
}

/// The kind of the entry at `i`, told apart by its variant: a string, an
/// inline table or a table, or another value. The view holds nothing in
/// the parts its kind does not use.
#[verifier::external_body]
fn entry_kind(item: &Item, i: usize) -> (r: u8)
    requires
        i < entries_view(*item).len(),
    ensures
        r as int == entries_view(*item)[i as int].0,
        r <= 2,
        r != 0 ==> entries_view(*item)[i as int].1 == Seq::<char>::empty(),
        r != 1 ==> entries_view(*item)[i as int].2 == Seq::<Seq<char>>::empty()
            && entries_view(*item)[i as int].3 == Seq::<FieldView>::empty(),
{
    match item.get(i) {
        Some(Item::Value(Value::String(_))) => 0,
        Some(Item::Value(Value::InlineTable(_))) => 1,
        Some(Item::Table(_)) => 1,
        _ => 2,
    }
}

/// The text `toml_edit` renders (`Display`) for the entry at `i`.
#[verifier::external_body]
fn entry_text(item: &Item, i: usize) -> (r: String)
    requires
        i < entries_view(*item).len(),
    ensures
        r@ == entries_view(*item)[i as int].4,
{
    item.get(i).map(|e| e.to_string()).unwrap_or_default()
}

/// The string of the string entry at `i` (`Item::as_str`).
#[verifier::external_body]
fn entry_str(item: &Item, i: usize) -> (r: String)
    requires
        i < entries_view(*item).len(),
        entries_view(*item)[i as int].0 == 0,
    ensures
        r@ == entries_view(*item)[i as int].1,
{
    item.get(i).and_then(Item::as_str).unwrap_or_default().to_owned()
}

/// The keys of the table entry at `i`, in order (`TableLike::iter`); it
/// has one field per key.
#[verifier::external_body]
fn entry_keys(item: &Item, i: usize) -> (r: Vec<String>)
    requires
        i < entries_view(*item).len(),
        entries_view(*item)[i as int].0 == 1,
    ensures
        key_views(r@) == entries_view(*item)[i as int].2,
        entries_view(*item)[i as int].3.len() == r@.len(),
{
    match item.get(i).and_then(Item::as_table_like) {
        Some(t) => t.iter().map(|(k, _)| k.to_owned()).collect(),
        None => Vec::new(),
    }
}

/// The kind of the field of the `j`th key of the table entry at `i`, told
/// apart by its variant: a string, an integer, an array, or another value.
/// The view holds nothing in the parts its kind does not use.
#[verifier::external_body]
fn entry_field_kind(item: &Item, i: usize, j: usize) -> (r: u8)
    requires
        i < entries_view(*item).len(),
        entries_view(*item)[i as int].0 == 1,
        j < entries_view(*item)[i as int].3.len(),
    ensures
        r as int == entries_view(*item)[i as int].3[j as int].0,
        r <= 3,
        r != 0 ==> entries_view(*item)[i as int].3[j as int].1 == Seq::<char>::empty(),
        r != 1 ==> entries_view(*item)[i as int].3[j as int].2 == 0,
        r != 2 ==> entries_view(*item)[i as int].3[j as int].3 == Seq::<Option<Seq<char>>>::empty(),
{
    let field = item.get(i).and_then(Item::as_table_like).and_then(|t| t.iter().nth(j)).map(|(_, f)| f);
    match field {
        Some(Item::Value(Value::String(_))) => 0,
        Some(Item::Value(Value::Integer(_))) => 1,
        Some(Item::Value(Value::Array(_))) => 2,
        _ => 3,
    }
}

/// The string of the string field of the `j`th key of the table entry at
/// `i` (`Item::as_str`).
#[verifier::external_body]
fn entry_field_str(item: &Item, i: usize, j: usize) -> (r: String)
    requires
        i < entries_view(*item).len(),
        entries_view(*item)[i as int].0 == 1,
        j < entries_view(*item)[i as int].3.len(),
        entries_view(*item)[i as int].3[j as int].0 == 0,
    ensures
        r@ == entries_view(*item)[i as int].3[j as int].1,
{
    let field = item.get(i).and_then(Item::as_table_like).and_then(|t| t.iter().nth(j)).map(|(_, f)| f);
    field.and_then(Item::as_str).unwrap_or_default().to_owned()
}

/// The integer of the integer field of the `j`th key of the table entry at
/// `i` (`Item::as_integer`).
#[verifier::external_body]
fn entry_field_int(item: &Item, i: usize, j: usize) -> (r: i64)
    requires
        i < entries_view(*item).len(),
        entries_view(*item)[i as int].0 == 1,
        j < entries_view(*item)[i as int].3.len(),
        entries_view(*item)[i as int].3[j as int].0 == 1,
    ensures
        r == entries_view(*item)[i as int].3[j as int].2,
{
    let field = item.get(i).and_then(Item::as_table_like).and_then(|t| t.iter().nth(j)).map(|(_, f)| f);
    field.and_then(Item::as_integer).unwrap_or_default()
}

/// The number of elements of the array field of the `j`th key of the table
/// entry at `i` (`Array::len`).
#[verifier::external_body]
fn entry_field_len(item: &Item, i: usize, j: usize) -> (r: usize)
    requires
        i < entries_view(*item).len(),
        entries_view(*item)[i as int].0 == 1,
        j < entries_view(*item)[i as int].3.len(),
        entries_view(*item)[i as int].3[j as int].0 == 2,
    ensures
        r == entries_view(*item)[i as int].3[j as int].3.len(),
{
    let field = item.get(i).and_then(Item::as_table_like).and_then(|t| t.iter().nth(j)).map(|(_, f)| f);
    field.and_then(Item::as_array).map(|a| a.len()).unwrap_or_default()
}

/// The element at `k` of the array field of the `j`th key of the table
/// entry at `i`: its string when it is one (`Value::as_str`).
#[verifier::external_body]
fn entry_field_element(item: &Item, i: usize, j: usize, k: usize) -> (r: Option<String>)
    requires
        i < entries_view(*item).len(),
        entries_view(*item)[i as int].0 == 1,
        j < entries_view(*item)[i as int].3.len(),
        entries_view(*item)[i as int].3[j as int].0 == 2,
        k < entries_view(*item)[i as int].3[j as int].3.len(),
    ensures
        opt_views(seq![r])[0] == entries_view(*item)[i as int].3[j as int].3[k as int],
{
    let field = item.get(i).and_then(Item::as_table_like).and_then(|t| t.iter().nth(j)).map(|(_, f)| f);
    match field.and_then(Item::as_array).and_then(|a| a.get(k)) {
        Some(Value::String(s)) => Some(s.value().to_owned()),
        _ => None,
    }
}

/// Reads the field of the `j`th key of the table entry at `i`.
fn read_entry_field(item: &Item, i: usize, j: usize) -> (r: EntryField)
    requires
        i < entries_view(*item).len(),
        entries_view(*item)[i as int].0 == 1,
        j < entries_view(*item)[i as int].3.len(),
    ensures
        field_view(r) == entries_view(*item)[i as int].3[j as int],
{
    let ghost f = entries_view(*item)[i as int].3[j as int];
    let kind = entry_field_kind(item, i, j);
    if kind == 0 {
        EntryField::Str(entry_field_str(item, i, j))
    } else if kind == 1 {
        EntryField::Int(entry_field_int(item, i, j))
    } else if kind == 2 {
        let n = entry_field_len(item, i, j);
        let mut xs: Vec<Option<String>> = Vec::new();
        let mut k: usize = 0;
        while k < n
            invariant
                k <= n,
                i < entries_view(*item).len(),
                entries_view(*item)[i as int].0 == 1,
                j < entries_view(*item)[i as int].3.len(),
                f == entries_view(*item)[i as int].3[j as int],
                f.0 == 2,
                n == f.3.len(),
                opt_views(xs@) == f.3.subrange(0, k as int),
            decreases n - k,
        {
            let x = entry_field_element(item, i, j, k);
            let ghost before = xs@;
            xs.push(x);
            assert(opt_views(xs@) =~= opt_views(before).push(opt_views(seq![x])[0]));
            assert(f.3.subrange(0, k + 1) =~= f.3.subrange(0, k as int).push(f.3[k as int]));
            k = k + 1;
        }
        assert(f.3.subrange(0, n as int) =~= f.3);
        EntryField::Array(xs)
    } else {
        EntryField::Other
    }
}

/// Reads the table entry at `i`.
fn read_table_entry(item: &Item, i: usize) -> (r: TomlEntry)
    requires
        i < entries_view(*item).len(),
        entries_view(*item)[i as int].0 == 1,
        entries_view(*item)[i as int].1 == Seq::<char>::empty(),
    ensures
        r@ == entries_view(*item)[i as int],
{
    let keys = entry_keys(item, i);
    let ghost e = entries_view(*item)[i as int];
    let mut fields: Vec<EntryField> = Vec::new();
    let mut j: usize = 0;
    while j < keys.len()
        invariant
            j <= keys.len(),
            i < entries_view(*item).len(),
            e == entries_view(*item)[i as int],
            e.0 == 1,
            e.3.len() == keys@.len(),
            field_views(fields@) == e.3.subrange(0, j as int),
        decreases keys.len() - j,
    {
        let f = read_entry_field(item, i, j);
        let ghost before = fields@;
        fields.push(f);
        assert(field_views(fields@) =~= field_views(before).push(field_view(f)));
        assert(e.3.subrange(0, j + 1) =~= e.3.subrange(0, j as int).push(e.3[j as int]));
        j = j + 1;
    }
    assert(e.3.subrange(0, keys@.len() as int) =~= e.3);
    let text = entry_text(item, i);
    TomlEntry::Table { keys, fields, text }
}

/// Reads every entry of an array or array of tables.
pub fn read_entries(item: &Item) -> (r: Vec<TomlEntry>)
    requires
        item_view(*item).0 == 3 || item_view(*item).0 == 6,
    ensures
        entry_views(r@) == entries_view(*item),
{
    let n = entry_count(item);
    let mut out: Vec<TomlEntry> = Vec::new();
    let mut i: usize = 0;
    while i < n
        invariant
            i <= n,
            n == entries_view(*item).len(),
            entry_views(out@) == entries_view(*item).subrange(0, i as int),
        decreases n - i,
    {
        let kind = entry_kind(item, i);
        let e = if kind == 0 {
            TomlEntry::Str { value: entry_str(item, i), text: entry_text(item, i) }
        } else if kind == 1 {
            read_table_entry(item, i)
        } else {
            TomlEntry::Other { text: entry_text(item, i) }
        };
        let ghost before = out@;
        out.push(e);
        assert(entry_views(out@) =~= entry_views(before).push(e@));
        assert(entries_view(*item).subrange(0, i + 1) =~= entries_view(*item).subrange(0, i as int).push(entries_view(*item)[i as int]));
        i = i + 1;
    }
    assert(entries_view(*item).subrange(0, n as int) =~= entries_view(*item));
    out
}

/// What rebuilding the array at `path` leaves around it: standard tables on
/// the way, nothing below it, everything else as it was, and its key kept
/// in its place in its table, or added last.
pub open spec fn rebuilt_only_at(old: DocumentMut, new: DocumentMut, path: Seq<Seq<char>>) -> bool {
    let table = path.drop_last();
    let key = path.last();
    &&& forall|i: int| 1 <= i < path.len() ==> ((#[trigger] toml_at(new, path.subrange(0, i))) matches Some(t) && t.0 == 5)
    &&& forall|q: Seq<Seq<char>>| !path_prefix(q, path) && !path_prefix(path, q)
        ==> #[trigger] toml_at(new, q) == toml_at(old, q)
    &&& forall|q: Seq<Seq<char>>| path_prefix(path, q) && q.len() > path.len() ==> #[trigger] toml_at(new, q) is None
    &&& toml_keys(new, table) == Some(match toml_keys(old, table) {
        Some(ks) => if ks.contains(key) { ks } else { ks.push(key) },
        None => seq![key],
    })
}

/// Whether the item at `path` is of kind `tag` (3 an array, 6 an array of
/// tables) and holds entries with the cores `cs`.
pub open spec fn entries_state(doc: DocumentMut, path: Seq<Seq<char>>, tag: int, cs: Seq<EntryCore>) -> bool {
    &&& toml_at(doc, path) matches Some(v) && v.0 == tag
    &&& cores(toml_entries(doc, path)) == cs
}

/// A field to write into a table entry: a string, an integer, or an array
/// of strings.
#[derive(Debug)]
pub enum FieldWrite {
    Str(String),
    Int(i64),
    Strs(Vec<String>),
}

/// What a written field reads back as.
pub open spec fn field_write_view(f: FieldWrite) -> FieldView {
    match f {
        FieldWrite::Str(s) => (0, s@, 0, seq![]),
        FieldWrite::Int(n) => (1, seq![], n, seq![]),
        FieldWrite::Strs(xs) => (2, seq![], 0, xs@.map_values(|x: String| Some(x@))),
    }
}

/// Makes the item at `table.key` (or `table.sub.key`) an empty array,
/// making standard tables on the way where they are absent.
#[verifier::external_body]
pub fn set_empty_array(doc: &mut DocumentMut, table: &str, sub: Option<&str>, key: &str)
    requires
        way_is_open(*old(doc), field_path(table@, opt_view(sub), key@)),
    ensures
        rebuilt_only_at(*old(doc), *final(doc), field_path(table@, opt_view(sub), key@)),
        entries_state(*final(doc), field_path(table@, opt_view(sub), key@), 3, seq![]),
{
    let t = doc.entry(table).or_insert(toml_edit::table()).as_table_mut().expect("a table");
    let t = match sub {
        Some(s) => t.entry(s).or_insert(toml_edit::table()).as_table_mut().expect("a table"),
        None => t,
    };
    t[key] = toml_edit::value(Array::new());
}

/// Makes the item at `table.key` (or `table.sub.key`) an empty array of
/// tables, making standard tables on the way where they are absent.
#[verifier::external_body]
pub fn set_empty_tables(doc: &mut DocumentMut, table: &str, sub: Option<&str>, key: &str)
    requires
        way_is_open(*old(doc), field_path(table@, opt_view(sub), key@)),
    ensures
        rebuilt_only_at(*old(doc), *final(doc), field_path(table@, opt_view(sub), key@)),
        entries_state(*final(doc), field_path(table@, opt_view(sub), key@), 6, seq![]),
{
    let t = doc.entry(table).or_insert(toml_edit::table()).as_table_mut().expect("a table");
    let t = match sub {
        Some(s) => t.entry(s).or_insert(toml_edit::table()).as_table_mut().expect("a table"),
        None => t,
    };
    t[key] = Item::ArrayOfTables(ArrayOfTables::new());
}

/// Appends the string `s` to the array at `table.key` (or `table.sub.key`)
/// (`Array::push`).
#[verifier::external_body]
pub fn push_str_entry(doc: &mut DocumentMut, table: &str, sub: Option<&str>, key: &str, s: &str)
    requires
        way_is_open(*old(doc), field_path(table@, opt_view(sub), key@)),
        entries_state(*old(doc), field_path(table@, opt_view(sub), key@), 3,
            cores(toml_entries(*old(doc), field_path(table@, opt_view(sub), key@)))),
    ensures
        rebuilt_only_at(*old(doc), *final(doc), field_path(table@, opt_view(sub), key@)),
        entries_state(*final(doc), field_path(table@, opt_view(sub), key@), 3,
            cores(toml_entries(*old(doc), field_path(table@, opt_view(sub), key@))).push((0, s@, seq![], seq![]))),
{
    let top = doc.get_mut(table).and_then(Item::as_table_like_mut);
    let t = match sub {
        Some(x) => top.and_then(|t| t.get_mut(x)).and_then(Item::as_table_like_mut),
        None => top,
    };
    if let Some(a) = t.and_then(|t| t.get_mut(key)).and_then(Item::as_array_mut) {
        a.push(s);
    }
}

/// Appends an empty inline table to the array at `table.key` (or
/// `table.sub.key`) (`Array::push`).
#[verifier::external_body]
pub fn push_inline_entry(doc: &mut DocumentMut, table: &str, sub: Option<&str>, key: &str)
    requires
        way_is_open(*old(doc), field_path(table@, opt_view(sub), key@)),
        entries_state(*old(doc), field_path(table@, opt_view(sub), key@), 3,
            cores(toml_entries(*old(doc), field_path(table@, opt_view(sub), key@)))),
    ensures
        rebuilt_only_at(*old(doc), *final(doc), field_path(table@, opt_view(sub), key@)),
        entries_state(*final(doc), field_path(table@, opt_view(sub), key@), 3,
            cores(toml_entries(*old(doc), field_path(table@, opt_view(sub), key@))).push((1, seq![], seq![], seq![]))),
{
    let top = doc.get_mut(table).and_then(Item::as_table_like_mut);
    let t = match sub {
        Some(x) => top.and_then(|t| t.get_mut(x)).and_then(Item::as_table_like_mut),
        None => top,
    };
    if let Some(a) = t.and_then(|t| t.get_mut(key)).and_then(Item::as_array_mut) {
        a.push(InlineTable::new());
    }
}

/// Appends an empty table to the array of tables at `table.key` (or
/// `table.sub.key`) (`ArrayOfTables::push`).
#[verifier::external_body]
pub fn push_table_entry(doc: &mut DocumentMut, table: &str, sub: Option<&str>, key: &str)
    requires
        way_is_open(*old(doc), field_path(table@, opt_view(sub), key@)),
        entries_state(*old(doc), field_path(table@, opt_view(sub), key@), 6,
            cores(toml_entries(*old(doc), field_path(table@, opt_view(sub), key@)))),
    ensures
        rebuilt_only_at(*old(doc), *final(doc), field_path(table@, opt_view(sub), key@)),
        entries_state(*final(doc), field_path(table@, opt_view(sub), key@), 6,
            cores(toml_entries(*old(doc), field_path(table@, opt_view(sub), key@))).push((1, seq![], seq![], seq![]))),
{
    let top = doc.get_mut(table).and_then(Item::as_table_like_mut);
    let t = match sub {
        Some(x) => top.and_then(|t| t.get_mut(x)).and_then(Item::as_table_like_mut),
        None => top,
    };
    if let Some(ts) = t.and_then(|t| t.get_mut(key)).and_then(Item::as_array_of_tables_mut) {
        ts.push(Table::new());
    }
}

/// Appends a copy of the entry at `i` of `from`, an item of the same kind,
/// to the array (or array of tables) at `table.key` (or `table.sub.key`),
/// keeping its formatting (`Array::push_formatted`, `ArrayOfTables::push`).
#[verifier::external_body]
pub fn push_entry_copy(doc: &mut DocumentMut, table: &str, sub: Option<&str>, key: &str, tag: u8, from: &Item, i: usize)
    requires
        tag == 3 || tag == 6,
        item_view(*from).0 == tag,
        i < entries_view(*from).len(),
        way_is_open(*old(doc), field_path(table@, opt_view(sub), key@)),
        entries_state(*old(doc), field_path(table@, opt_view(sub), key@), tag as int,
            cores(toml_entries(*old(doc), field_path(table@, opt_view(sub), key@)))),
    ensures
        rebuilt_only_at(*old(doc), *final(doc), field_path(table@, opt_view(sub), key@)),
        entries_state(*final(doc), field_path(table@, opt_view(sub), key@), tag as int,
            cores(toml_entries(*old(doc), field_path(table@, opt_view(sub), key@))).push(entry_core(entries_view(*from)[i as int]))),
{
    let top = doc.get_mut(table).and_then(Item::as_table_like_mut);
    let t = match sub {
        Some(x) => top.and_then(|t| t.get_mut(x)).and_then(Item::as_table_like_mut),
        None => top,
    };
    match (t.and_then(|t| t.get_mut(key)), from.get(i)) {
        (Some(Item::Value(Value::Array(a))), Some(Item::Value(v))) => a.push_formatted(v.clone()),
        (Some(Item::ArrayOfTables(ts)), Some(Item::Table(x))) => ts.push(x.clone()),
        _ => {},
    }
}

/// The core of a table entry with one more key and field.
pub open spec fn with_field(c: EntryCore, k: Seq<char>, f: FieldView) -> EntryCore {
    (c.0, c.1, c.2.push(k), c.3.push(f))
}

/// Adds the field `fk` with `f` to the table entry at `i` of the array (or
/// array of tables) at `table.key` (or `table.sub.key`), where the entry
/// has no such key yet (`TableLike::insert`, which adds it last).
#[verifier::external_body]
pub fn set_entry_field(doc: &mut DocumentMut, table: &str, sub: Option<&str>, key: &str, tag: u8, i: usize, fk: &str, f: &FieldWrite)
    requires
        tag == 3 || tag == 6,
        way_is_open(*old(doc), field_path(table@, opt_view(sub), key@)),
        entries_state(*old(doc), field_path(table@, opt_view(sub), key@), tag as int,
            cores(toml_entries(*old(doc), field_path(table@, opt_view(sub), key@)))),
        i < toml_entries(*old(doc), field_path(table@, opt_view(sub), key@)).len(),
        toml_entries(*old(doc), field_path(table@, opt_view(sub), key@))[i as int].0 == 1,
        !toml_entries(*old(doc), field_path(table@, opt_view(sub), key@))[i as int].2.contains(fk@),
    ensures
        rebuilt_only_at(*old(doc), *final(doc), field_path(table@, opt_view(sub), key@)),
        entries_state(*final(doc), field_path(table@, opt_view(sub), key@), tag as int,
            cores(toml_entries(*old(doc), field_path(table@, opt_view(sub), key@))).update(i as int,
                with_field(entry_core(toml_entries(*old(doc), field_path(table@, opt_view(sub), key@))[i as int]), fk@, field_write_view(*f)))),
{
    let top = doc.get_mut(table).and_then(Item::as_table_like_mut);
    let t = match sub {
        Some(x) => top.and_then(|t| t.get_mut(x)).and_then(Item::as_table_like_mut),
        None => top,
    };
    if let Some(e) = t.and_then(|t| t.get_mut(key)).and_then(|a| a.get_mut(i)).and_then(Item::as_table_like_mut) {
        let _ = e.insert(fk, match f {
            FieldWrite::Str(s) => toml_edit::value(s.as_str()),
            FieldWrite::Int(n) => toml_edit::value(*n),
            FieldWrite::Strs(xs) => toml_edit::value(xs.iter().map(|x| x.as_str()).collect::<Array>()),
        });
    }
}

/// The core of a table entry whose last field, an array, has one more
/// element that is not a string.
pub open spec fn with_pair_pushed(c: EntryCore) -> EntryCore {
    let f = c.3.last();
    (c.0, c.1, c.2, c.3.update(c.3.len() - 1, (f.0, f.1, f.2, f.3.push(None))))
}

/// Appends the inline table `{ k1 = v1, k2 = v2 }` to the array that is the
/// last field, `fk`, of the table entry at `i` of the array (or array of
/// tables) at `table.key` (or `table.sub.key`).
#[verifier::external_body]
pub fn push_entry_pair(doc: &mut DocumentMut, table: &str, sub: Option<&str>, key: &str, tag: u8, i: usize,
    fk: &str, k1: &str, v1: &str, k2: &str, v2: &str)
    requires
        tag == 3 || tag == 6,
        way_is_open(*old(doc), field_path(table@, opt_view(sub), key@)),
        entries_state(*old(doc), field_path(table@, opt_view(sub), key@), tag as int,
            cores(toml_entries(*old(doc), field_path(table@, opt_view(sub), key@)))),
        i < toml_entries(*old(doc), field_path(table@, opt_view(sub), key@)).len(),
        toml_entries(*old(doc), field_path(table@, opt_view(sub), key@))[i as int].0 == 1,
        toml_entries(*old(doc), field_path(table@, opt_view(sub), key@))[i as int].2.len() > 0,
        toml_entries(*old(doc), field_path(table@, opt_view(sub), key@))[i as int].2.last() == fk@,
        toml_entries(*old(doc), field_path(table@, opt_view(sub), key@))[i as int].3.len()
            == toml_entries(*old(doc), field_path(table@, opt_view(sub), key@))[i as int].2.len(),
        toml_entries(*old(doc), field_path(table@, opt_view(sub), key@))[i as int].3.last().0 == 2,
    ensures
        rebuilt_only_at(*old(doc), *final(doc), field_path(table@, opt_view(sub), key@)),
        entries_state(*final(doc), field_path(table@, opt_view(sub), key@), tag as int,
            cores(toml_entries(*old(doc), field_path(table@, opt_view(sub), key@))).update(i as int,
                with_pair_pushed(entry_core(toml_entries(*old(doc), field_path(table@, opt_view(sub), key@))[i as int])))),
{
    let top = doc.get_mut(table).and_then(Item::as_table_like_mut);
    let t = match sub {
        Some(x) => top.and_then(|t| t.get_mut(x)).and_then(Item::as_table_like_mut),
        None => top,
    };
    let e = t.and_then(|t| t.get_mut(key)).and_then(|a| a.get_mut(i)).and_then(Item::as_table_like_mut);
    if let Some(a) = e.and_then(|e| e.get_mut(fk)).and_then(Item::as_array_mut) {
        let mut pair = InlineTable::new();
        let _ = pair.insert(k1, Value::from(v1));
        let _ = pair.insert(k2, Value::from(v2));
        a.push(pair);
    }
}

/// Two rebuild steps at one path leave what one would have.
pub proof fn lemma_rebuilt_twice(d0: DocumentMut, d1: DocumentMut, d2: DocumentMut, path: Seq<Seq<char>>)
    requires
        path.len() > 0,
        rebuilt_only_at(d0, d1, path),
        rebuilt_only_at(d1, d2, path),
    ensures
        rebuilt_only_at(d0, d2, path),
{
    let table = path.drop_last();
    let key = path.last();
    assert forall|q: Seq<Seq<char>>| !path_prefix(q, path) && !path_prefix(path, q)
        implies #[trigger] toml_at(d2, q) == toml_at(d0, q) by {
        assert(toml_at(d1, q) == toml_at(d0, q));
    }
    match toml_keys(d0, table) {
        Some(ks) => {
            if !ks.contains(key) {
                assert(ks.push(key)[ks.len() as int] == key);
            }
        },
        None => {
            assert(seq![key][0] == key);
        },
    }
}

/// A rebuilt path has an open way.
pub proof fn lemma_rebuilt_way_open(d0: DocumentMut, d1: DocumentMut, path: Seq<Seq<char>>)
    requires
        rebuilt_only_at(d0, d1, path),
    ensures
        way_is_open(d1, path),
{
    assert forall|i: int| 1 <= i < path.len() implies match #[trigger] toml_at(d1, path.subrange(0, i)) {
        Some(v) => v.0 == 5,
        None => true,
    } by {
    }
}

/// An entry to write: a string, or a table of fields in order, possibly
/// ending in an array of two-key inline tables (`k1 = v1, k2 = v2`).
#[derive(Debug)]
pub enum EntryWrite {
    Str(String),
    Table { fields: Vec<(String, FieldWrite)>, pairs: Option<(String, Vec<(String, String, String, String)>)> },
}

/// The keys of fields to write.
pub open spec fn write_keys(fields: Seq<(String, FieldWrite)>) -> Seq<Seq<char>> {
    fields.map_values(|x: (String, FieldWrite)| x.0@)
}

/// What fields to write read back as.
pub open spec fn write_fields(fields: Seq<(String, FieldWrite)>) -> Seq<FieldView> {
    fields.map_values(|x: (String, FieldWrite)| field_write_view(x.1))
}

/// What an array of `n` inline tables reads back as.
pub open spec fn pairs_field(n: nat) -> FieldView {
    (2, seq![], 0, Seq::new(n, |i: int| None::<Seq<char>>))
}

/// What a written entry reads back as, without its text.
pub open spec fn entry_write_view(w: EntryWrite) -> EntryCore {
    match w {
        EntryWrite::Str(s) => (0, s@, seq![], seq![]),
        EntryWrite::Table { fields, pairs } => match pairs {
            Some(p) => (1, seq![], write_keys(fields@).push(p.0@), write_fields(fields@).push(pairs_field(p.1@.len()))),
            None => (1, seq![], write_keys(fields@), write_fields(fields@)),
        },
    }
}

/// Every key an entry to write holds, in order.
pub open spec fn all_write_keys(w: EntryWrite) -> Seq<Seq<char>> {
    match w {
        EntryWrite::Str(_) => seq![],
        EntryWrite::Table { fields, pairs } => match pairs {
            Some(p) => write_keys(fields@).push(p.0@),
            None => write_keys(fields@),
        },
    }
}

/// Whether the keys of an entry to write are distinct.
pub open spec fn write_keys_distinct(w: EntryWrite) -> bool {
    forall|i: int, j: int| 0 <= i < j < all_write_keys(w).len() ==> all_write_keys(w)[i] != all_write_keys(w)[j]
}

/// Appends the entry `w` to the array (or array of tables) at the field,
/// which holds `n` entries.
#[verifier::rlimit(30)]
pub fn push_written_entry(doc: &mut DocumentMut, table: &str, sub: Option<&str>, key: &str, tag: u8, n: usize, w: &EntryWrite)
    requires
        tag == 3 || tag == 6,
        tag == 6 ==> w is Table,
        write_keys_distinct(*w),
        way_is_open(*old(doc), field_path(table@, opt_view(sub), key@)),
        entries_state(*old(doc), field_path(table@, opt_view(sub), key@), tag as int,
            cores(toml_entries(*old(doc), field_path(table@, opt_view(sub), key@)))),
        n == toml_entries(*old(doc), field_path(table@, opt_view(sub), key@)).len(),
    ensures
        rebuilt_only_at(*old(doc), *final(doc), field_path(table@, opt_view(sub), key@)),
        entries_state(*final(doc), field_path(table@, opt_view(sub), key@), tag as int,
            cores(toml_entries(*old(doc), field_path(table@, opt_view(sub), key@))).push(entry_write_view(*w))),
{
    let ghost path = field_path(table@, opt_view(sub), key@);
    let ghost d0 = *doc;
    let ghost cs = cores(toml_entries(d0, path));
    assert(path.len() > 0);
    match w {
        EntryWrite::Str(s) => {
            push_str_entry(doc, table, sub, key, s.as_str());
        },
        EntryWrite::Table { fields, pairs } => {
            if tag == 3 {
                push_inline_entry(doc, table, sub, key);
            } else {
                push_table_entry(doc, table, sub, key);
            }
            let ghost ks = write_keys(fields@);
            let ghost fs = write_fields(fields@);
            assert(ks.subrange(0, 0) =~= Seq::<Seq<char>>::empty());
            assert(fs.subrange(0, 0) =~= Seq::<FieldView>::empty());
            assert(cores(toml_entries(*doc, path)).len() == toml_entries(*doc, path).len());
            assert(ks.len() == fs.len());
            let mut j: usize = 0;
            while j < fields.len()
                invariant
                    j <= fields.len(),
                    tag == 3 || tag == 6,
                    path == field_path(table@, opt_view(sub), key@),
                    path.len() > 0,
                    ks == write_keys(fields@),
                    fs == write_fields(fields@),
                    write_keys_distinct(*w),
                    *w == (EntryWrite::Table { fields: *fields, pairs: *pairs }),
                    rebuilt_only_at(d0, *doc, path),
                    entries_state(*doc, path, tag as int, cs.push((1, seq![], ks.subrange(0, j as int), fs.subrange(0, j as int)))),
                    toml_entries(*doc, path).len() == n + 1,
                    n == cs.len(),
                decreases fields.len() - j,
            {
                proof {
                    lemma_rebuilt_way_open(d0, *doc, path);
                    let es = toml_entries(*doc, path);
                    assert(cores(es)[n as int] == entry_core(es[n as int]));
                    assert(es[n as int].2 == ks.subrange(0, j as int));
                    let all = all_write_keys(*w);
                    assert forall|i: int| 0 <= i < j implies ks.subrange(0, j as int)[i] != fields@[j as int].0@ by {
                        assert(all[i] == ks[i] && all[j as int] == ks[j as int]);
                        assert(all[i] != all[j as int]);
                    }
                    assert(ks[j as int] == fields@[j as int].0@);
                }
                let ghost before = *doc;
                set_entry_field(doc, table, sub, key, tag, n, fields[j].0.as_str(), &fields[j].1);
                proof {
                    lemma_rebuilt_twice(d0, before, *doc, path);
                    assert(ks.subrange(0, j + 1) =~= ks.subrange(0, j as int).push(ks[j as int]));
                    assert(fs.subrange(0, j + 1) =~= fs.subrange(0, j as int).push(fs[j as int]));
                    assert(cs.push((1, seq![], ks.subrange(0, j as int), fs.subrange(0, j as int))).update(n as int,
                        (1, seq![], ks.subrange(0, j + 1), fs.subrange(0, j + 1)))
                        =~= cs.push((1, seq![], ks.subrange(0, j + 1), fs.subrange(0, j + 1))));
                }
                j = j + 1;
            }
            assert(ks.subrange(0, fields@.len() as int) =~= ks);
            assert(fs.subrange(0, fields@.len() as int) =~= fs);
            match pairs {
                Some((pk, ps)) => {
                    proof {
                        lemma_rebuilt_way_open(d0, *doc, path);
                        let es = toml_entries(*doc, path);
                        assert(cores(es)[n as int] == entry_core(es[n as int]));
                        let all = all_write_keys(*w);
                        assert(all == ks.push(pk@));
                        assert forall|i: int| 0 <= i < ks.len() implies ks[i] != pk@ by {
                            assert(all[i] == ks[i] && all[ks.len() as int] == pk@);
                            assert(all[i] != all[ks.len() as int]);
                        }
                    }
                    let ghost before = *doc;
                    let empty: Vec<String> = Vec::new();
                    set_entry_field(doc, table, sub, key, tag, n, pk.as_str(), &FieldWrite::Strs(empty));
                    proof {
                        lemma_rebuilt_twice(d0, before, *doc, path);
                        assert(empty@.map_values(|x: String| Some(x@)) =~= Seq::new(0, |i: int| None::<Seq<char>>));
                        let es = toml_entries(before, path);
                        assert(cores(es)[n as int] == entry_core(es[n as int]));
                        assert(entry_core(es[n as int]) == (1int, Seq::<char>::empty(), ks, fs));
                        assert(cs.push((1int, Seq::<char>::empty(), ks, fs)).update(n as int,
                            with_field((1int, Seq::<char>::empty(), ks, fs), pk@, field_write_view(FieldWrite::Strs(empty))))
                            =~= cs.push((1, seq![], ks.push(pk@), fs.push(pairs_field(0)))));
                        assert(cores(toml_entries(*doc, path)).len() == toml_entries(*doc, path).len());
                    }
                    let mut k: usize = 0;
                    while k < ps.len()
                        invariant
                            k <= ps.len(),
                            tag == 3 || tag == 6,
                            path == field_path(table@, opt_view(sub), key@),
                            path.len() > 0,
                            rebuilt_only_at(d0, *doc, path),
                            entries_state(*doc, path, tag as int, cs.push((1, seq![], ks.push(pk@), fs.push(pairs_field(k as nat))))),
                            toml_entries(*doc, path).len() == n + 1,
                            ks.len() == fs.len(),
                            n == cs.len(),
                        decreases ps.len() - k,
                    {
                        proof {
                            lemma_rebuilt_way_open(d0, *doc, path);
                            let es = toml_entries(*doc, path);
                            assert(cores(es)[n as int] == entry_core(es[n as int]));
                        }
                        let ghost before = *doc;
                        push_entry_pair(doc, table, sub, key, tag, n, pk.as_str(),
                            ps[k].0.as_str(), ps[k].1.as_str(), ps[k].2.as_str(), ps[k].3.as_str());
                        proof {
                            lemma_rebuilt_twice(d0, before, *doc, path);
                            let c = (1int, Seq::<char>::empty(), ks.push(pk@), fs.push(pairs_field(k as nat)));
                            assert(pairs_field(k as nat).3.push(None) =~= pairs_field((k + 1) as nat).3);
                            assert(c.3.update(c.3.len() - 1, (2int, Seq::<char>::empty(), 0i64, pairs_field(k as nat).3.push(None)))
                                =~= fs.push(pairs_field((k + 1) as nat)));
                            assert(cs.push(c).update(n as int, with_pair_pushed(c))
                                =~= cs.push((1, seq![], ks.push(pk@), fs.push(pairs_field((k + 1) as nat)))));
                        }
                        k = k + 1;
                    }
                },
                None => {},
            }
        },
    }
}

} // verus!
