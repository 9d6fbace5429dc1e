//! Reconciling one array setting of `deny.toml` (an array, or an array of
//! tables) with its merged item requirements.
//!
//! Entries that cannot be read are reported and kept; identities held by
//! more than one entry are reported. Each required item is then looked up
//! by identity among the entries that can be read: a missing one is added,
//! one that does not satisfy the requirement is replaced, and one written in
//! a form that is not canonical is rewritten; each of these is reported.
//! Entries no requirement names are kept as they are. The array is rebuilt
//! only when something changed.

use vstd::prelude::*;
use crate::deny_entries::DenyArrayItem;
use toml_edit::{DocumentMut, Item};
use crate::deny_fields::{blocked_write, field_path, opt_view, provenances_of, table_display, way_open};
use crate::deny_scalar_edit::{shown_current, shown_text};
use crate::findings::{Finding, FindingView, finding_views, mismatch, policies, push_mismatch};
use crate::items::ResolvedItemRequirements;
use crate::rustfmt_reconcile::value_view;
use crate::toml_doc::{TomlValue, item_view, read_item, toml_at, way_is_open};
use crate::toml_entries::{
    cores, entries_item_at, entries_state, entries_view, push_entry_copy, push_written_entry, read_entries,
    rebuilt_only_at, set_empty_array, set_empty_tables, toml_entries, lemma_rebuilt_twice, lemma_rebuilt_way_open,
};
use crate::items::ResolvedItemEntry;
use crate::requirements::Provenance;
use crate::scalar_value::spec_decimal;
use crate::text::{join3, owned};
use crate::toml_entries::{EntryCore, EntryView, EntryWrite, TomlEntry, entry_core, entry_views, entry_write_view, write_keys_distinct};

verus! {

/// The message of a merged item: that of its first contribution.
pub open spec fn entry_message<T>(e: ResolvedItemEntry<T>) -> Seq<char> {
    if e.collected@.len() > 0 { e.collected@[0].1.1@ } else { seq![] }
}

/// The policies behind a merged item.
pub open spec fn entry_policies<T>(e: ResolvedItemEntry<T>) -> Seq<Seq<char>> {
    e.collected@.map_values(|x: (Provenance, (T, String))| x.0.policy@)
}

/// The identity an entry reads as, when it can be read.
pub open spec fn parsed_id<T: DenyArrayItem>(e: EntryView) -> Option<Seq<char>> {
    match T::spec_parse(entry_core(e)) {
        Ok(v) => Some(T::spec_id(v)),
        Err(_) => None,
    }
}

/// The position of the first entry that reads as an item of identity `id`.
pub open spec fn first_with_id<T: DenyArrayItem>(es: Seq<EntryView>, id: Seq<char>) -> Option<int> {
    if exists|i: int| 0 <= i < es.len() && parsed_id::<T>(es[i]) == Some(id) {
        Some(choose|i: int| 0 <= i < es.len() && parsed_id::<T>(es[i]) == Some(id)
            && forall|j: int| 0 <= j < i ==> parsed_id::<T>(es[j]) != Some(id))
    } else {
        None
    }
}

/// The kind of item an array setting holds: 6 an array of tables, 3 an
/// array.
pub open spec fn item_tag<T: DenyArrayItem>() -> int {
    if T::spec_tables() { 6 } else { 3 }
}

/// The text of the kind of item an array setting holds.
pub open spec fn item_shape<T: DenyArrayItem>() -> Seq<char> {
    if T::spec_tables() { "array of tables"@ } else { "array"@ }
}

/// One mismatch, keyed `key[index]`, for each of the first `n` entries
/// that cannot be read, expecting the error's text.
pub open spec fn malformed_findings<T: DenyArrayItem>(key: Seq<char>, es: Seq<EntryView>, n: nat, message: Seq<char>, attribution: Seq<Seq<char>>) -> Seq<FindingView>
    decreases n,
{
    if n == 0 {
        seq![]
    } else {
        let prev = malformed_findings::<T>(key, es, (n - 1) as nat, message, attribution);
        match T::spec_parse(entry_core(es[n - 1])) {
            Err(m) => prev.push(mismatch(key + "["@ + spec_decimal((n - 1) as nat) + "]"@, Some(es[n - 1].4), m, message, attribution)),
            Ok(_) => prev,
        }
    }
}

/// The finding of an identity that more than one entry holds.
pub open spec fn duplicate_finding(key: Seq<char>, id: Seq<char>) -> FindingView {
    (1, key + "."@ + id, None, seq![], "duplicate item identity"@, seq![], seq![])
}

/// Whether an entry before `i` reads as an item of identity `id`.
pub open spec fn seen_before<T: DenyArrayItem>(es: Seq<EntryView>, i: int, id: Seq<char>) -> bool {
    exists|j: int| 0 <= j < i && parsed_id::<T>(es[j]) == Some(id)
}

/// One finding for each of the first `n` entries whose identity an earlier
/// entry holds.
pub open spec fn duplicate_findings<T: DenyArrayItem>(key: Seq<char>, es: Seq<EntryView>, n: nat) -> Seq<FindingView>
    decreases n,
{
    if n == 0 {
        seq![]
    } else {
        let prev = duplicate_findings::<T>(key, es, (n - 1) as nat);
        match parsed_id::<T>(es[n - 1]) {
            Some(id) => if seen_before::<T>(es, n - 1, id) { prev.push(duplicate_finding(key, id)) } else { prev },
            None => prev,
        }
    }
}

/// The entries being planned and whether the array must be rebuilt.
pub type ItemPlan = (Seq<EntryCore>, bool);

/// What one required item does to the plan, and what it reports.
pub open spec fn required_step<T: DenyArrayItem>(key: Seq<char>, es: Seq<EntryView>, st: ItemPlan, r: ResolvedItemEntry<T>) -> (ItemPlan, Seq<FindingView>) {
    let want = r.merged@;
    let id = T::spec_id(want);
    let k = key + "."@ + id;
    let msg = entry_message(r);
    let attr = entry_policies(r);
    match first_with_id::<T>(es, id) {
        None => ((st.0.push(T::spec_written(want)), true), seq![mismatch(k, None, T::spec_shown(want), msg, attr)]),
        Some(i) => {
            let cur = T::spec_parse(entry_core(es[i]))->Ok_0;
            if !T::spec_matches(cur, want) {
                ((st.0.update(i, T::spec_written(want)), true),
                    seq![mismatch(k, Some(T::spec_shown(cur)), T::spec_shown(want), msg, attr)])
            } else if !T::spec_canonical(entry_core(es[i])) {
                ((st.0.update(i, T::spec_written(cur)), true),
                    seq![mismatch(k, Some(es[i].4), T::spec_shown(cur), msg, attr)])
            } else {
                (st, seq![])
            }
        },
    }
}

/// What the first `n` required items do to the plan, in order, and report.
pub open spec fn required_pass<T: DenyArrayItem>(key: Seq<char>, es: Seq<EntryView>, rs: Seq<ResolvedItemEntry<T>>, n: nat, st0: ItemPlan) -> (ItemPlan, Seq<FindingView>)
    decreases n,
{
    if n == 0 {
        (st0, seq![])
    } else {
        let prev = required_pass::<T>(key, es, rs, (n - 1) as nat, st0);
        let step = required_step::<T>(key, es, prev.0, rs[n - 1]);
        (step.0, prev.1 + step.1)
    }
}

/// A slot of the array being planned: an entry kept from the array, or an
/// entry to write.
#[derive(Debug)]
pub enum Slot {
    Keep(usize),
    Put(EntryWrite),
}

/// What a slot leaves as its entry.
pub open spec fn slot_core(s: Slot, es: Seq<EntryView>) -> EntryCore {
    match s {
        Slot::Keep(i) => entry_core(es[i as int]),
        Slot::Put(w) => entry_write_view(w),
    }
}

/// What slots leave as entries.
pub open spec fn slot_cores(ss: Seq<Slot>, es: Seq<EntryView>) -> Seq<EntryCore> {
    ss.map_values(|s: Slot| slot_core(s, es))
}

/// Whether slots can be written into an array of kind `tag`.
pub open spec fn slots_ok(ss: Seq<Slot>, es: Seq<EntryView>, tag: int) -> bool {
    forall|k: int| 0 <= k < ss.len() ==> match #[trigger] ss[k] {
        Slot::Keep(i) => i < es.len(),
        Slot::Put(w) => write_keys_distinct(w) && (tag == 6 ==> w is Table),
    }
}

/// How read entries stand to their views: each read item is what its entry
/// reads as, and an entry that cannot be read has none.
pub open spec fn parsed_as<T: DenyArrayItem>(ps: Seq<Option<T>>, es: Seq<EntryView>) -> bool {
    &&& ps.len() == es.len()
    &&& forall|i: int| 0 <= i < ps.len() ==> match #[trigger] ps[i] {
        Some(t) => T::spec_parse(entry_core(es[i])) == Ok::<T::V, Seq<char>>(t@),
        None => T::spec_parse(entry_core(es[i])) is Err,
    }
}

/// Reads every entry as an item, reporting each that cannot be read.
#[verifier::rlimit(30)]
pub fn parse_all<T: DenyArrayItem>(
    key: &str,
    entries: &Vec<TomlEntry>,
    message: &str,
    attribution: &Vec<Provenance>,
    findings: &mut Vec<Finding>,
) -> (r: Vec<Option<T>>)
    ensures
        parsed_as(r@, entry_views(entries@)),
        finding_views(final(findings)@) == finding_views(old(findings)@)
            + malformed_findings::<T>(key@, entry_views(entries@), entries@.len() as nat, message@, policies(attribution@)),
{
    let ghost es = entry_views(entries@);
    let ghost f0 = finding_views(findings@);
    let mut out: Vec<Option<T>> = Vec::new();
    let mut i: usize = 0;
    assert(f0 =~= f0 + malformed_findings::<T>(key@, es, 0, message@, policies(attribution@)));
    while i < entries.len()
        invariant
            i <= entries@.len(),
            es == entry_views(entries@),
            parsed_as(out@, es.subrange(0, i as int)),
            finding_views(findings@) == f0 + malformed_findings::<T>(key@, es, i as nat, message@, policies(attribution@)),
        decreases entries@.len() - i,
    {
        assert(es[i as int] == entries@[i as int]@);
        let ghost before = out@;
        let ghost fb = finding_views(findings@);
        match T::parse_entry(&entries[i]) {
            Ok(t) => {
                out.push(Some(t));
            },
            Err(m) => {
                let mut k = join3(key, "[", crate::scalar_value::decimal_text(i as u64).as_str());
                k.append("]");
                proof {
                    reveal_strlit("[");
                    reveal_strlit("]");
                }
                let text = match &entries[i] {
                    TomlEntry::Str { text, .. } => text.clone(),
                    TomlEntry::Table { text, .. } => text.clone(),
                    TomlEntry::Other { text } => text.clone(),
                };
                push_mismatch(findings, k, Some(text), m, message, attribution);
                out.push(None);
            },
        }
        proof {
            let sub = es.subrange(0, i + 1);
            assert forall|j: int| 0 <= j < out@.len() implies match #[trigger] out@[j] {
                Some(t) => T::spec_parse(entry_core(sub[j])) == Ok::<T::V, Seq<char>>(t@),
                None => T::spec_parse(entry_core(sub[j])) is Err,
            } by {
                if j < i {
                    assert(out@[j] == before[j]);
                    assert(sub[j] == es.subrange(0, i as int)[j]);
                }
            }
            assert(finding_views(findings@) == f0 + malformed_findings::<T>(key@, es, (i + 1) as nat, message@, policies(attribution@))) by {
                match T::spec_parse(entry_core(es[i as int])) {
                    Err(m) => {
                        assert(f0 + malformed_findings::<T>(key@, es, i as nat, message@, policies(attribution@)).push(finding_views(findings@).last())
                            =~= f0 + malformed_findings::<T>(key@, es, (i + 1) as nat, message@, policies(attribution@)));
                    },
                    Ok(_) => {},
                }
            }
        }
        i = i + 1;
    }
    assert(es.subrange(0, entries@.len() as int) =~= es);
    out
}

/// The identity of a read item.
fn parsed_identity<T: DenyArrayItem>(p: &Option<T>) -> (r: Option<String>)
    ensures
        match r {
            Some(s) => p matches Some(t) && s@ == T::spec_id(t@),
            None => p is None,
        },
{
    match p {
        Some(t) => {
            proof {
                t.lemma_id();
            }
            Some(t.identity())
        },
        None => None,
    }
}

/// The position of the first read item of identity `id`.
pub fn find_identity<T: DenyArrayItem>(parsed: &Vec<Option<T>>, id: &str, Ghost(es): Ghost<Seq<EntryView>>) -> (r: Option<usize>)
    requires
        parsed_as(parsed@, es),
    ensures
        match r {
            Some(i) => first_with_id::<T>(es, id@) == Some(i as int) && i < parsed@.len()
                && parsed_id::<T>(es[i as int]) == Some(id@) && parsed@[i as int] is Some,
            None => first_with_id::<T>(es, id@) is None,
        },
{
    let mut i: usize = 0;
    while i < parsed.len()
        invariant
            i <= parsed@.len(),
            parsed_as(parsed@, es),
            forall|j: int| 0 <= j < i ==> parsed_id::<T>(es[j]) != Some(id@),
        decreases parsed@.len() - i,
    {
        let found = match parsed_identity(&parsed[i]) {
            Some(s) => crate::text::str_eq(s.as_str(), id),
            None => false,
        };
        assert(match parsed@[i as int] {
            Some(t) => T::spec_parse(entry_core(es[i as int])) == Ok::<T::V, Seq<char>>(t@),
            None => T::spec_parse(entry_core(es[i as int])) is Err,
        });
        if found {
            proof {
                assert(parsed_id::<T>(es[i as int]) == Some(id@));
                let c = choose|c: int| 0 <= c < es.len() && parsed_id::<T>(es[c]) == Some(id@)
                    && forall|j: int| 0 <= j < c ==> parsed_id::<T>(es[j]) != Some(id@);
                assert(c == i as int) by {
                    if c > i {
                        assert(parsed_id::<T>(es[i as int]) != Some(id@));
                    }
                }
            }
            return Some(i);
        }
        i = i + 1;
    }
    None
}

/// Reports each read item whose identity an earlier one holds.
#[verifier::rlimit(30)]
pub fn report_duplicates<T: DenyArrayItem>(key: &str, parsed: &Vec<Option<T>>, Ghost(es): Ghost<Seq<EntryView>>, findings: &mut Vec<Finding>)
    requires
        parsed_as(parsed@, es),
    ensures
        finding_views(final(findings)@) == finding_views(old(findings)@) + duplicate_findings::<T>(key@, es, es.len()),
{
    let ghost f0 = finding_views(findings@);
    let mut i: usize = 0;
    assert(f0 =~= f0 + duplicate_findings::<T>(key@, es, 0));
    while i < parsed.len()
        invariant
            i <= parsed@.len(),
            parsed_as(parsed@, es),
            finding_views(findings@) == f0 + duplicate_findings::<T>(key@, es, i as nat),
        decreases parsed@.len() - i,
    {
        assert(match parsed@[i as int] {
            Some(t) => T::spec_parse(entry_core(es[i as int])) == Ok::<T::V, Seq<char>>(t@),
            None => T::spec_parse(entry_core(es[i as int])) is Err,
        });
        match parsed_identity(&parsed[i]) {
            Some(id) => {
                let mut seen = false;
                let mut j: usize = 0;
                while j < i
                    invariant
                        j <= i,
                        i < parsed@.len(),
                        parsed_as(parsed@, es),
                        seen == exists|k: int| 0 <= k < j && parsed_id::<T>(es[k]) == Some(id@),
                    decreases i - j,
                {
                    assert(match parsed@[j as int] {
                        Some(t) => T::spec_parse(entry_core(es[j as int])) == Ok::<T::V, Seq<char>>(t@),
                        None => T::spec_parse(entry_core(es[j as int])) is Err,
                    });
                    let same = match parsed_identity(&parsed[j]) {
                        Some(other) => crate::text::str_eq(other.as_str(), id.as_str()),
                        None => false,
                    };
                    proof {
                        if same {
                            assert(parsed_id::<T>(es[j as int]) == Some(id@));
                        }
                        if seen || same {
                            if !seen {
                                assert(0 <= j < j + 1 && parsed_id::<T>(es[j as int]) == Some(id@));
                            }
                        } else {
                            assert forall|k: int| 0 <= k < j + 1 implies parsed_id::<T>(es[k]) != Some(id@) by {
                                if k == j {
                                } else {
                                    assert(!(0 <= k < j && parsed_id::<T>(es[k]) == Some(id@)));
                                }
                            }
                        }
                    }
                    seen = seen || same;
                    j = j + 1;
                }
                assert(seen == seen_before::<T>(es, i as int, id@));
                if seen {
                    proof {
                        reveal_strlit(".");
                        reveal_strlit("duplicate item identity");
                    }
                    let ghost before = findings@;
                    let contributors: Vec<(String, String)> = Vec::new();
                    assert(crate::findings::pair_views(contributors@) =~= Seq::<(Seq<char>, Seq<char>)>::empty());
                    findings.push(Finding::InvalidRequirements {
                        key: join3(key, ".", id.as_str()),
                        message: owned("duplicate item identity"),
                        contributors,
                    });
                    assert(finding_views(findings@) =~= finding_views(before).push(duplicate_finding(key@, id@)));
                }
            },
            None => {},
        }
        i = i + 1;
    }
}

/// Writes the array (or array of tables) at the field anew from slots:
/// kept entries copied from `from`, the others written.
#[verifier::rlimit(30)]
pub fn rebuild_entries(
    doc: &mut DocumentMut,
    table: &str,
    sub: Option<&str>,
    key: &str,
    tag: u8,
    from: &Option<Item>,
    slots: &Vec<Slot>,
    Ghost(es): Ghost<Seq<EntryView>>,
)
    requires
        tag == 3 || tag == 6,
        way_is_open(*old(doc), field_path(table@, opt_view(sub), key@)),
        slots_ok(slots@, es, tag as int),
        match *from {
            Some(item) => item_view(item).0 == tag && entries_view(item) == es,
            None => es.len() == 0,
        },
    ensures
        rebuilt_only_at(*old(doc), *final(doc), field_path(table@, opt_view(sub), key@)),
        entries_state(*final(doc), field_path(table@, opt_view(sub), key@), tag as int, slot_cores(slots@, es)),
{
    let ghost path = field_path(table@, opt_view(sub), key@);
    let ghost d0 = *doc;
    assert(path.len() > 0);
    if tag == 3 {
        set_empty_array(doc, table, sub, key);
    } else {
        set_empty_tables(doc, table, sub, key);
    }
    let mut k: usize = 0;
    assert(slot_cores(slots@.subrange(0, 0), es) =~= Seq::<EntryCore>::empty());
    while k < slots.len()
        invariant
            k <= slots@.len(),
            tag == 3 || tag == 6,
            path == field_path(table@, opt_view(sub), key@),
            path.len() > 0,
            slots_ok(slots@, es, tag as int),
            match *from {
                Some(item) => item_view(item).0 == tag && entries_view(item) == es,
                None => es.len() == 0,
            },
            rebuilt_only_at(d0, *doc, path),
            entries_state(*doc, path, tag as int, slot_cores(slots@.subrange(0, k as int), es)),
        decreases slots@.len() - k,
    {
        proof {
            lemma_rebuilt_way_open(d0, *doc, path);
            assert(cores(toml_entries(*doc, path)).len() == toml_entries(*doc, path).len());
        }
        let ghost before = *doc;
        let ghost s = slots@[k as int];
        assert(match s {
            Slot::Keep(i) => i < es.len(),
            Slot::Put(w) => write_keys_distinct(w) && (tag == 6 ==> w is Table),
        });
        match &slots[k] {
            Slot::Keep(i) => {
                match from {
                    Some(item) => {
                        push_entry_copy(doc, table, sub, key, tag, item, *i);
                    },
                    None => {
                        assert(false);
                    },
                }
            },
            Slot::Put(w) => {
                push_written_entry(doc, table, sub, key, tag, k, w);
            },
        }
        proof {
            lemma_rebuilt_twice(d0, before, *doc, path);
            assert(slot_cores(slots@.subrange(0, k + 1), es) =~= slot_cores(slots@.subrange(0, k as int), es).push(slot_core(s, es)));
        }
        k = k + 1;
    }
    assert(slots@.subrange(0, slots@.len() as int) =~= slots@);
}

/// The entries of the field when it holds the kind of array the setting
/// is; none otherwise.
pub open spec fn current_entries<T: DenyArrayItem>(doc: DocumentMut, path: Seq<Seq<char>>) -> Seq<EntryView> {
    if toml_at(doc, path) matches Some(t) && t.0 == item_tag::<T>() { toml_entries(doc, path) } else { seq![] }
}

/// The mismatch of a field that holds something other than the kind of
/// array the setting is.
pub open spec fn shape_finding<T: DenyArrayItem>(key: Seq<char>, v: Option<crate::toml_doc::TomlView>, message: Seq<char>, attribution: Seq<Seq<char>>) -> Seq<FindingView> {
    match v {
        Some(t) => if t.0 != item_tag::<T>() {
            seq![mismatch(key, shown_text(v), item_shape::<T>(), message, attribution)]
        } else {
            seq![]
        },
        None => seq![],
    }
}

/// What reconciling an array setting with merged item requirements `rs`
/// leaves: nothing for none; a blocked report when the way to the field is
/// not a table; otherwise the shape, the entries that cannot be read, the
/// repeated identities and what each required item did are reported, in
/// that order, and the array holds the planned entries when anything
/// changed.
pub open spec fn items_applied<T: DenyArrayItem>(
    old: DocumentMut,
    new: DocumentMut,
    f0: Seq<FindingView>,
    f1: Seq<FindingView>,
    path: Seq<Seq<char>>,
    table_key: Seq<char>,
    key: Seq<char>,
    rs: Seq<ResolvedItemEntry<T>>,
) -> bool {
    if rs.len() == 0 {
        new == old && f1 == f0
    } else if !way_is_open(old, path) {
        new == old && f1 == f0.push(blocked_write(table_key, entry_policies(rs[0])))
    } else {
        let msg = entry_message(rs[0]);
        let attr = entry_policies(rs[0]);
        let v = toml_at(old, path);
        let es = current_entries::<T>(old, path);
        let fresh = !(v matches Some(t) && t.0 == item_tag::<T>());
        let pass = required_pass::<T>(key, es, rs, rs.len(), (cores(es), fresh));
        &&& f1 == f0 + shape_finding::<T>(key, v, msg, attr) + malformed_findings::<T>(key, es, es.len(), msg, attr)
            + duplicate_findings::<T>(key, es, es.len()) + pass.1
        &&& if pass.0.1 {
            rebuilt_only_at(old, new, path) && entries_state(new, path, item_tag::<T>(), pass.0.0)
        } else {
            new == old
        }
    }
}

/// The message and the policies of a merged item.
fn entry_message_and_attribution<T>(e: &ResolvedItemEntry<T>) -> (r: (String, Vec<Provenance>))
    ensures
        r.0@ == entry_message(*e),
        policies(r.1@) == entry_policies(*e),
{
    let message = if e.collected.len() > 0 { e.collected[0].1.1.clone() } else { String::new() };
    (message, provenances_of(&e.collected))
}

/// The entries of the field, when it is the kind of array the setting is,
/// with a copy of the item; reports a field of another kind.
#[verifier::rlimit(30)]
fn current_field_entries<T: DenyArrayItem>(
    doc: &DocumentMut,
    table: &str,
    sub: Option<&str>,
    key: &str,
    display_key: &str,
    message: &str,
    attribution: &Vec<Provenance>,
    findings: &mut Vec<Finding>,
) -> (r: (Vec<TomlEntry>, Option<Item>))
    ensures
        entry_views(r.0@) == current_entries::<T>(*doc, field_path(table@, opt_view(sub), key@)),
        match r.1 {
            Some(item) => item_view(item).0 == item_tag::<T>()
                && entries_view(item) == current_entries::<T>(*doc, field_path(table@, opt_view(sub), key@))
                && (toml_at(*doc, field_path(table@, opt_view(sub), key@)) matches Some(t) && t.0 == item_tag::<T>()),
            None => current_entries::<T>(*doc, field_path(table@, opt_view(sub), key@)).len() == 0
                && !(toml_at(*doc, field_path(table@, opt_view(sub), key@)) matches Some(t) && t.0 == item_tag::<T>()),
        },
        finding_views(final(findings)@) == finding_views(old(findings)@)
            + shape_finding::<T>(display_key@, toml_at(*doc, field_path(table@, opt_view(sub), key@)), message@, policies(attribution@)),
{
    let ghost path = field_path(table@, opt_view(sub), key@);
    let tables = T::tables();
    let none: Vec<TomlEntry> = Vec::new();
    assert(entry_views(none@) =~= Seq::<EntryView>::empty());
    match entries_item_at(doc, table, sub, key) {
        None => {
            assert(finding_views(findings@) =~= finding_views(findings@) + Seq::<FindingView>::empty());
            (none, None)
        },
        Some(item) => {
            let current = read_item(&item);
            assert(toml_at(*doc, path) == value_view(Some(current)));
            let kind_ok = match &current {
                TomlValue::Array { .. } => !tables,
                TomlValue::TableArray => tables,
                _ => false,
            };
            if kind_ok {
                let entries = read_entries(&item);
                assert(finding_views(findings@) =~= finding_views(findings@) + Seq::<FindingView>::empty());
                (entries, Some(item))
            } else {
                let shown = shown_current(&Some(current));
                proof {
                    reveal_strlit("array");
                    reveal_strlit("array of tables");
                }
                let expected = if tables { owned("array of tables") } else { owned("array") };
                let ghost before = finding_views(findings@);
                push_mismatch(findings, owned(display_key), shown, expected, message, attribution);
                assert(finding_views(findings@) =~= before + shape_finding::<T>(display_key@, toml_at(*doc, path), message@, policies(attribution@)));
                (none, None)
            }
        },
    }
}

/// Reconciles the array setting `key` of the table `table` (or
/// `table.sub`) with merged item requirements, reporting at `display_key`.
#[verifier::rlimit(40)]
pub fn apply_item_field<T: DenyArrayItem>(
    doc: &mut DocumentMut,
    table: &str,
    sub: Option<&str>,
    key: &str,
    display_key: &str,
    requirements: &ResolvedItemRequirements<T>,
    findings: &mut Vec<Finding>,
)
    ensures
        items_applied::<T>(*old(doc), *final(doc), finding_views(old(findings)@), finding_views(final(findings)@),
            field_path(table@, opt_view(sub), key@), table_display(table@, opt_view(sub)), display_key@, requirements.required@),
{
    let rs = &requirements.required;
    if rs.len() == 0 {
        return;
    }
    let ghost path = field_path(table@, opt_view(sub), key@);
    let (message, attribution) = entry_message_and_attribution(&rs[0]);
    if !way_open(doc, table, sub, key) {
        let table_key = match sub {
            Some(s) => join3(table, ".", s),
            None => owned(table),
        };
        proof {
            reveal_strlit(".");
            reveal_strlit("table");
        }
        let ghost before = findings@;
        findings.push(Finding::UnwritableRequiredKey { key: table_key, expected: owned("table"), attribution });
        assert(finding_views(findings@) =~= finding_views(before).push(
            blocked_write(table_display(table@, opt_view(sub)), entry_policies(rs@[0]))));
        return;
    }
    let ghost d0 = *doc;
    let ghost f0 = finding_views(findings@);
    let tag: u8 = if T::tables() { 6 } else { 3 };
    let (entries, from) = current_field_entries::<T>(doc, table, sub, key, display_key, message.as_str(), &attribution, findings);
    let ghost es = entry_views(entries@);
    let ghost fresh = !(toml_at(d0, path) matches Some(t) && t.0 == item_tag::<T>());
    let parsed: Vec<Option<T>> = parse_all(display_key, &entries, message.as_str(), &attribution, findings);
    report_duplicates(display_key, &parsed, Ghost(es), findings);
    let ghost f3 = finding_views(findings@);
    // the plan starts from the entries as they are
    let mut slots: Vec<Slot> = Vec::new();
    let mut i: usize = 0;
    while i < entries.len()
        invariant
            i <= entries@.len(),
            es == entry_views(entries@),
            slots@.len() == i,
            forall|k: int| 0 <= k < i ==> #[trigger] slots@[k] == Slot::Keep(k as usize),
        decreases entries@.len() - i,
    {
        slots.push(Slot::Keep(i));
        i = i + 1;
    }
    assert(slot_cores(slots@, es) =~= cores(es));
    assert(slots_ok(slots@, es, tag as int));
    let mut changed = from.is_none();
    let mut k: usize = 0;
    while k < rs.len()
        invariant
            k <= rs@.len(),
            rs@.len() > 0,
            rs == &requirements.required,
            es == entry_views(entries@),
            parsed_as(parsed@, es),
            tag as int == item_tag::<T>(),
            slots_ok(slots@, es, tag as int),
            slots@.len() >= es.len(),
            (slot_cores(slots@, es), changed) == required_pass::<T>(display_key@, es, rs@, k as nat, (cores(es), fresh)).0,
            finding_views(findings@) == f3 + required_pass::<T>(display_key@, es, rs@, k as nat, (cores(es), fresh)).1,
        decreases rs@.len() - k,
    {
        let r = &rs[k];
        let want = &r.merged;
        proof {
            want.lemma_id();
        }
        let id = want.identity();
        let (msg, attr) = entry_message_and_attribution(r);
        let item_key = join3(display_key, ".", id.as_str());
        proof {
            reveal_strlit(".");
        }
        let ghost prev = required_pass::<T>(display_key@, es, rs@, k as nat, (cores(es), fresh));
        let ghost fb = finding_views(findings@);
        let ghost sb = slots@;
        match find_identity(&parsed, id.as_str(), Ghost(es)) {
            None => {
                push_mismatch(findings, item_key, None, want.shown(), msg.as_str(), &attr);
                let w = want.written();
                slots.push(Slot::Put(w));
                changed = true;
                proof {
                    assert(slot_cores(slots@, es) =~= slot_cores(sb, es).push(entry_write_view(w)));
                    assert(slots_ok(slots@, es, tag as int)) by {
                        assert forall|j: int| 0 <= j < slots@.len() implies match #[trigger] slots@[j] {
                            Slot::Keep(i) => i < es.len(),
                            Slot::Put(w) => write_keys_distinct(w) && (tag == 6 ==> w is Table),
                        } by {
                            if j < sb.len() {
                                assert(slots@[j] == sb[j]);
                            }
                        }
                    }
                }
            },
            Some(at) => {
                let cur = match &parsed[at] {
                    Some(t) => t,
                    None => {
                        assert(false);
                        return;
                    },
                };
                assert(match parsed@[at as int] {
                    Some(t) => T::spec_parse(entry_core(es[at as int])) == Ok::<T::V, Seq<char>>(t@),
                    None => T::spec_parse(entry_core(es[at as int])) is Err,
                });
                if !T::matches(cur, want) {
                    push_mismatch(findings, item_key, Some(cur.shown()), want.shown(), msg.as_str(), &attr);
                    let w = want.written();
                    slots.set(at, Slot::Put(w));
                    changed = true;
                    proof {
                        assert(slot_cores(slots@, es) =~= slot_cores(sb, es).update(at as int, entry_write_view(w)));
                        assert forall|j: int| 0 <= j < slots@.len() implies match #[trigger] slots@[j] {
                            Slot::Keep(i) => i < es.len(),
                            Slot::Put(w) => write_keys_distinct(w) && (tag == 6 ==> w is Table),
                        } by {
                            if j != at {
                                assert(slots@[j] == sb[j]);
                            }
                        }
                    }
                } else if !T::canonical(&entries[at]) {
                    let text = match &entries[at] {
                        TomlEntry::Str { text, .. } => text.clone(),
                        TomlEntry::Table { text, .. } => text.clone(),
                        TomlEntry::Other { text } => text.clone(),
                    };
                    assert(es[at as int] == entries@[at as int]@);
                    push_mismatch(findings, item_key, Some(text), cur.shown(), msg.as_str(), &attr);
                    let w = cur.written();
                    slots.set(at, Slot::Put(w));
                    changed = true;
                    proof {
                        assert(slot_cores(slots@, es) =~= slot_cores(sb, es).update(at as int, entry_write_view(w)));
                        assert forall|j: int| 0 <= j < slots@.len() implies match #[trigger] slots@[j] {
                            Slot::Keep(i) => i < es.len(),
                            Slot::Put(w) => write_keys_distinct(w) && (tag == 6 ==> w is Table),
                        } by {
                            if j != at {
                                assert(slots@[j] == sb[j]);
                            }
                        }
                    }
                } else {
                    assert(finding_views(findings@) =~= fb + Seq::<FindingView>::empty());
                }
            },
        }
        proof {
            let step = required_step::<T>(display_key@, es, prev.0, rs@[k as int]);
            assert(finding_views(findings@) =~= fb + step.1);
            assert(f3 + prev.1 + step.1 =~= f3 + (prev.1 + step.1));
        }
        k = k + 1;
    }
    if changed {
        rebuild_entries(doc, table, sub, key, tag, &from, &slots, Ghost(es));
    }
}

/// The identity an entry without its text reads as, when it can be read.
pub open spec fn core_id<T: DenyArrayItem>(c: EntryCore) -> Option<Seq<char>> {
    match T::spec_parse(c) {
        Ok(v) => Some(T::spec_id(v)),
        Err(_) => None,
    }
}

/// The position of the first entry, without its text, that reads as an
/// item of identity `id`.
pub open spec fn first_core_with_id<T: DenyArrayItem>(cs: Seq<EntryCore>, id: Seq<char>) -> Option<int> {
    if exists|i: int| 0 <= i < cs.len() && core_id::<T>(cs[i]) == Some(id) {
        Some(choose|i: int| 0 <= i < cs.len() && core_id::<T>(cs[i]) == Some(id)
            && forall|j: int| 0 <= j < i ==> core_id::<T>(cs[j]) != Some(id))
    } else {
        None
    }
}

/// Whether the first entry of a required item's identity reads as an item
/// that satisfies it, in canonical form.
pub open spec fn item_held<T: DenyArrayItem>(cs: Seq<EntryCore>, want: T::V) -> bool {
    match first_core_with_id::<T>(cs, T::spec_id(want)) {
        Some(p) => T::spec_parse(cs[p]) is Ok && T::spec_matches(T::spec_parse(cs[p])->Ok_0, want)
            && T::spec_canonical(cs[p]),
        None => false,
    }
}

proof fn lemma_min_core<T: DenyArrayItem>(cs: Seq<EntryCore>, id: Seq<char>, w: int) -> (m: int)
    requires
        0 <= w < cs.len(),
        core_id::<T>(cs[w]) == Some(id),
    ensures
        0 <= m <= w,
        core_id::<T>(cs[m]) == Some(id),
        forall|j: int| 0 <= j < m ==> core_id::<T>(cs[j]) != Some(id),
    decreases w,
{
    if exists|q: int| 0 <= q < w && core_id::<T>(cs[q]) == Some(id) {
        let q = choose|q: int| 0 <= q < w && core_id::<T>(cs[q]) == Some(id);
        lemma_min_core::<T>(cs, id, q)
    } else {
        w
    }
}

/// What the first position of an identity among entries is.
pub proof fn lemma_first_core<T: DenyArrayItem>(cs: Seq<EntryCore>, id: Seq<char>)
    ensures
        match first_core_with_id::<T>(cs, id) {
            Some(p) => 0 <= p < cs.len() && core_id::<T>(cs[p]) == Some(id)
                && forall|j: int| 0 <= j < p ==> core_id::<T>(cs[j]) != Some(id),
            None => forall|j: int| 0 <= j < cs.len() ==> core_id::<T>(cs[j]) != Some(id),
        },
{
    if exists|i: int| 0 <= i < cs.len() && core_id::<T>(cs[i]) == Some(id) {
        let w = choose|i: int| 0 <= i < cs.len() && core_id::<T>(cs[i]) == Some(id);
        let m = lemma_min_core::<T>(cs, id, w);
        assert(0 <= m < cs.len() && core_id::<T>(cs[m]) == Some(id)
            && forall|j: int| 0 <= j < m ==> core_id::<T>(cs[j]) != Some(id));
    }
}

/// The first position of an identity among entries is the one that holds
/// it with none before.
pub proof fn lemma_first_core_at<T: DenyArrayItem>(cs: Seq<EntryCore>, id: Seq<char>, p: int)
    requires
        0 <= p < cs.len(),
        core_id::<T>(cs[p]) == Some(id),
        forall|j: int| 0 <= j < p ==> core_id::<T>(cs[j]) != Some(id),
    ensures
        first_core_with_id::<T>(cs, id) == Some(p),
{
    lemma_first_core::<T>(cs, id);
    let f = first_core_with_id::<T>(cs, id)->Some_0;
    assert(f == p) by {
        if f < p {
            assert(core_id::<T>(cs[f]) != Some(id));
        } else if f > p {
            assert(core_id::<T>(cs[p]) != Some(id));
        }
    }
}

/// The first entry of an identity, with texts, is that of the entries
/// without them.
#[verifier::rlimit(30)]
pub proof fn lemma_first_with_id_cores<T: DenyArrayItem>(es: Seq<EntryView>, id: Seq<char>)
    ensures
        first_with_id::<T>(es, id) == first_core_with_id::<T>(cores(es), id),
{
    let cs = cores(es);
    assert forall|i: int| 0 <= i < es.len() implies parsed_id::<T>(es[i]) == core_id::<T>(#[trigger] cs[i]) by {
    }
    lemma_first_core::<T>(cs, id);
    if exists|i: int| 0 <= i < es.len() && parsed_id::<T>(es[i]) == Some(id) {
        let i = choose|i: int| 0 <= i < es.len() && parsed_id::<T>(es[i]) == Some(id);
        assert(core_id::<T>(cs[i]) == Some(id));
        let p = first_core_with_id::<T>(cs, id)->Some_0;
        assert(0 <= p < es.len() && parsed_id::<T>(es[p]) == Some(id)
            && forall|j: int| 0 <= j < p ==> parsed_id::<T>(es[j]) != Some(id)) by {
            assert forall|j: int| 0 <= j < p implies parsed_id::<T>(es[j]) != Some(id) by {
                assert(core_id::<T>(cs[j]) != Some(id));
            }
        }
        let f = first_with_id::<T>(es, id)->Some_0;
        assert(f == p) by {
            if f < p {
                assert(core_id::<T>(cs[f]) != Some(id));
            } else if f > p {
                assert(parsed_id::<T>(es[p]) != Some(id));
            }
        }
    } else {
        assert forall|i: int| 0 <= i < cs.len() implies core_id::<T>(cs[i]) != Some(id) by {
            assert(parsed_id::<T>(es[i]) != Some(id));
        }
    }
}

/// The identity of the `i`th required item.
pub open spec fn required_id<T: DenyArrayItem>(rs: Seq<ResolvedItemEntry<T>>, i: int) -> Seq<char> {
    T::spec_id(rs[i].merged@)
}

/// Whether required items are valid and of distinct identities.
pub open spec fn required_ok<T: DenyArrayItem>(rs: Seq<ResolvedItemEntry<T>>) -> bool {
    &&& forall|i: int| 0 <= i < rs.len() ==> T::spec_valid(#[trigger] rs[i].merged@)
    &&& forall|i: int, j: int| 0 <= i < j < rs.len() ==> required_id::<T>(rs, i) != required_id::<T>(rs, j)
}

/// What the plan keeps after the first `n` required items: every entry is
/// one of the array's, unchanged, or one of an identity required so far;
/// each entry of the array is unchanged unless it was the first of a
/// required identity; each required item so far is held; and nothing has
/// changed when nothing was to be rebuilt.
pub open spec fn pass_keeps<T: DenyArrayItem>(es: Seq<EntryView>, rs: Seq<ResolvedItemEntry<T>>, n: int, fresh: bool, st: ItemPlan) -> bool {
    &&& st.0.len() >= es.len()
    &&& plan_entries_known::<T>(es, rs, n, st.0)
    &&& plan_array_kept::<T>(es, rs, n, st.0)
    &&& forall|i: int| 0 <= i < n ==> item_held::<T>(st.0, #[trigger] rs[i].merged@)
    &&& !st.1 ==> st.0 == cores(es) && !fresh
}

/// The entry at `p` of the array is the first of its identity among the
/// array's entries, and the plan still holds it unchanged there.
#[verifier::rlimit(30)]
proof fn lemma_plan_keeps_first<T: DenyArrayItem>(es: Seq<EntryView>, rs: Seq<ResolvedItemEntry<T>>, n: int, fresh: bool, st: ItemPlan, p: int)
    requires
        0 <= n < rs.len(),
        required_ok::<T>(rs),
        pass_keeps::<T>(es, rs, n, fresh, st),
        first_with_id::<T>(es, required_id::<T>(rs, n)) == Some(p),
    ensures
        0 <= p < es.len(),
        st.0[p] == cores(es)[p],
        core_id::<T>(st.0[p]) == Some(required_id::<T>(rs, n)),
        forall|j: int| 0 <= j < p ==> core_id::<T>(st.0[j]) != Some(required_id::<T>(rs, n)),
{
    let id = required_id::<T>(rs, n);
    lemma_first_with_id_cores::<T>(es, id);
    lemma_first_core::<T>(cores(es), id);
    assert(cores(es)[p] == entry_core(es[p]));
    if st.0[p] != cores(es)[p] {
        let i = choose|i: int| 0 <= i < n && first_with_id::<T>(es, required_id::<T>(rs, i)) == Some(p);
        lemma_first_with_id_cores::<T>(es, required_id::<T>(rs, i));
        lemma_first_core::<T>(cores(es), required_id::<T>(rs, i));
        assert(required_id::<T>(rs, i) != id);
    }
    assert forall|j: int| 0 <= j < p implies core_id::<T>(st.0[j]) != Some(id) by {
        if st.0[j] == cores(es)[j] {
            assert(core_id::<T>(cores(es)[j]) != Some(id));
        } else {
            let i = choose|i: int| 0 <= i < n && core_id::<T>(st.0[j]) == Some(required_id::<T>(rs, i));
            assert(required_id::<T>(rs, i) != id);
        }
    }
}

/// Putting at `p` an entry of the `n`th required identity that holds it
/// keeps every required item held.
#[verifier::rlimit(30)]
proof fn lemma_plan_put_held<T: DenyArrayItem>(rs: Seq<ResolvedItemEntry<T>>, n: int, st: Seq<EntryCore>, p: int, x: EntryCore)
    requires
        0 <= n < rs.len(),
        required_ok::<T>(rs),
        forall|i: int| 0 <= i < n ==> item_held::<T>(st, #[trigger] rs[i].merged@),
        0 <= p < st.len(),
        core_id::<T>(st[p]) == Some(required_id::<T>(rs, n)),
        forall|j: int| 0 <= j < p ==> core_id::<T>(st[j]) != Some(required_id::<T>(rs, n)),
        core_id::<T>(x) == Some(required_id::<T>(rs, n)),
        T::spec_parse(x) is Ok,
        T::spec_matches(T::spec_parse(x)->Ok_0, rs[n].merged@),
        T::spec_canonical(x),
    ensures
        forall|i: int| 0 <= i < n + 1 ==> item_held::<T>(st.update(p, x), #[trigger] rs[i].merged@),
{
    let id = required_id::<T>(rs, n);
    let cs = st.update(p, x);
    assert forall|i: int| 0 <= i < n + 1 implies item_held::<T>(cs, #[trigger] rs[i].merged@) by {
        if i == n {
            lemma_first_core_at::<T>(cs, id, p);
        } else {
            let idi = required_id::<T>(rs, i);
            assert(item_held::<T>(st, rs[i].merged@));
            lemma_first_core::<T>(st, idi);
            let pi = first_core_with_id::<T>(st, idi)->Some_0;
            assert(idi != id);
            assert(pi != p);
            assert forall|j: int| 0 <= j < pi implies core_id::<T>(cs[j]) != Some(idi) by {
                if j != p {
                    assert(cs[j] == st[j]);
                }
            }
            lemma_first_core_at::<T>(cs, idi, pi);
        }
    }
}

/// Every planned entry is one of the array's, unchanged, or one of an
/// identity among the first `n` required.
pub open spec fn plan_entries_known<T: DenyArrayItem>(es: Seq<EntryView>, rs: Seq<ResolvedItemEntry<T>>, n: int, cs: Seq<EntryCore>) -> bool {
    forall|q: int| 0 <= q < cs.len() ==> (q < es.len() && #[trigger] cs[q] == cores(es)[q])
        || exists|i: int| 0 <= i < n && core_id::<T>(cs[q]) == Some(required_id::<T>(rs, i))
}

/// Each entry of the array is planned unchanged unless it is the first of
/// one of the first `n` required identities.
pub open spec fn plan_array_kept<T: DenyArrayItem>(es: Seq<EntryView>, rs: Seq<ResolvedItemEntry<T>>, n: int, cs: Seq<EntryCore>) -> bool {
    forall|q: int| 0 <= q < es.len() ==> #[trigger] cs[q] == cores(es)[q]
        || exists|i: int| 0 <= i < n && first_with_id::<T>(es, required_id::<T>(rs, i)) == Some(q)
}

proof fn lemma_plan_put_known<T: DenyArrayItem>(es: Seq<EntryView>, rs: Seq<ResolvedItemEntry<T>>, n: int, cs: Seq<EntryCore>, p: int, x: EntryCore)
    requires
        0 <= n,
        plan_entries_known::<T>(es, rs, n, cs),
        0 <= p < cs.len(),
        core_id::<T>(x) == Some(required_id::<T>(rs, n)),
    ensures
        plan_entries_known::<T>(es, rs, n + 1, cs.update(p, x)),
{
    let c2 = cs.update(p, x);
    assert forall|q: int| 0 <= q < c2.len() implies (q < es.len() && #[trigger] c2[q] == cores(es)[q])
        || exists|i: int| 0 <= i < n + 1 && core_id::<T>(c2[q]) == Some(required_id::<T>(rs, i)) by {
        if q == p {
            assert(0 <= n < n + 1 && core_id::<T>(c2[q]) == Some(required_id::<T>(rs, n)));
        } else {
            assert(c2[q] == cs[q]);
            if !(q < es.len() && cs[q] == cores(es)[q]) {
                let i = choose|i: int| 0 <= i < n && core_id::<T>(cs[q]) == Some(required_id::<T>(rs, i));
                assert(0 <= i < n + 1 && core_id::<T>(c2[q]) == Some(required_id::<T>(rs, i)));
            }
        }
    }
}

proof fn lemma_plan_put_kept<T: DenyArrayItem>(es: Seq<EntryView>, rs: Seq<ResolvedItemEntry<T>>, n: int, cs: Seq<EntryCore>, p: int, x: EntryCore)
    requires
        0 <= n,
        plan_array_kept::<T>(es, rs, n, cs),
        cs.len() >= es.len(),
        0 <= p < cs.len(),
        first_with_id::<T>(es, required_id::<T>(rs, n)) == Some(p),
    ensures
        plan_array_kept::<T>(es, rs, n + 1, cs.update(p, x)),
{
    let c2 = cs.update(p, x);
    assert forall|q: int| 0 <= q < es.len() implies #[trigger] c2[q] == cores(es)[q]
        || exists|i: int| 0 <= i < n + 1 && first_with_id::<T>(es, required_id::<T>(rs, i)) == Some(q) by {
        if q == p {
            assert(0 <= n < n + 1 && first_with_id::<T>(es, required_id::<T>(rs, n)) == Some(q));
        } else {
            assert(c2[q] == cs[q]);
            if cs[q] != cores(es)[q] {
                let i = choose|i: int| 0 <= i < n && first_with_id::<T>(es, required_id::<T>(rs, i)) == Some(q);
                assert(0 <= i < n + 1 && first_with_id::<T>(es, required_id::<T>(rs, i)) == Some(q));
            }
        }
    }
}

/// Putting at `p`, the first entry of the `n`th required identity in the
/// array, an entry of that identity keeps what the plan keeps.
#[verifier::rlimit(30)]
proof fn lemma_plan_put<T: DenyArrayItem>(es: Seq<EntryView>, rs: Seq<ResolvedItemEntry<T>>, n: int, fresh: bool, st: ItemPlan, p: int, x: EntryCore)
    requires
        0 <= n < rs.len(),
        required_ok::<T>(rs),
        pass_keeps::<T>(es, rs, n, fresh, st),
        0 <= p < es.len(),
        core_id::<T>(st.0[p]) == Some(required_id::<T>(rs, n)),
        forall|j: int| 0 <= j < p ==> core_id::<T>(st.0[j]) != Some(required_id::<T>(rs, n)),
        core_id::<T>(x) == Some(required_id::<T>(rs, n)),
        T::spec_parse(x) is Ok,
        T::spec_matches(T::spec_parse(x)->Ok_0, rs[n].merged@),
        T::spec_canonical(x),
        first_with_id::<T>(es, required_id::<T>(rs, n)) == Some(p),
    ensures
        pass_keeps::<T>(es, rs, n + 1, fresh, (st.0.update(p, x), true)),
{
    lemma_plan_put_held::<T>(rs, n, st.0, p, x);
    assert(plan_entries_known::<T>(es, rs, n, st.0));
    assert(plan_array_kept::<T>(es, rs, n, st.0));
    lemma_plan_put_known::<T>(es, rs, n, st.0, p, x);
    lemma_plan_put_kept::<T>(es, rs, n, st.0, p, x);
}

/// A required item already held at the first entry of its identity in
/// the array leaves what the plan keeps.
#[verifier::rlimit(30)]
proof fn lemma_plan_keep<T: DenyArrayItem>(es: Seq<EntryView>, rs: Seq<ResolvedItemEntry<T>>, k: int, fresh: bool, st: ItemPlan, p: int)
    requires
        0 <= k < rs.len(),
        required_ok::<T>(rs),
        pass_keeps::<T>(es, rs, k, fresh, st),
        0 <= p < st.0.len(),
        core_id::<T>(st.0[p]) == Some(required_id::<T>(rs, k)),
        forall|j: int| 0 <= j < p ==> core_id::<T>(st.0[j]) != Some(required_id::<T>(rs, k)),
        T::spec_parse(st.0[p]) is Ok,
        T::spec_matches(T::spec_parse(st.0[p])->Ok_0, rs[k].merged@),
        T::spec_canonical(st.0[p]),
    ensures
        pass_keeps::<T>(es, rs, k + 1, fresh, st),
{
    assert forall|i: int| 0 <= i < k + 1 implies item_held::<T>(st.0, #[trigger] rs[i].merged@) by {
        if i == k {
            lemma_first_core_at::<T>(st.0, required_id::<T>(rs, k), p);
        }
    }
    assert(plan_entries_known::<T>(es, rs, k, st.0));
    assert(plan_array_kept::<T>(es, rs, k, st.0));
    assert forall|q: int| 0 <= q < st.0.len() implies (q < es.len() && #[trigger] st.0[q] == cores(es)[q])
        || exists|i: int| 0 <= i < k + 1 && core_id::<T>(st.0[q]) == Some(required_id::<T>(rs, i)) by {
        if !(q < es.len() && st.0[q] == cores(es)[q]) {
            let i = choose|i: int| 0 <= i < k && core_id::<T>(st.0[q]) == Some(required_id::<T>(rs, i));
            assert(0 <= i < k + 1);
        }
    }
    assert forall|q: int| 0 <= q < es.len() implies #[trigger] st.0[q] == cores(es)[q]
        || exists|i: int| 0 <= i < k + 1 && first_with_id::<T>(es, required_id::<T>(rs, i)) == Some(q) by {
        if st.0[q] != cores(es)[q] {
            let i = choose|i: int| 0 <= i < k && first_with_id::<T>(es, required_id::<T>(rs, i)) == Some(q);
            assert(0 <= i < k + 1);
        }
    }
}

/// A required item that no entry of the array names is appended.
#[verifier::rlimit(30)]
proof fn lemma_step_missing<T: DenyArrayItem>(es: Seq<EntryView>, rs: Seq<ResolvedItemEntry<T>>, k: int, fresh: bool, st: ItemPlan)
    requires
        0 <= k < rs.len(),
        required_ok::<T>(rs),
        pass_keeps::<T>(es, rs, k, fresh, st),
        first_with_id::<T>(es, required_id::<T>(rs, k)) is None,
    ensures
        pass_keeps::<T>(es, rs, k + 1, fresh, (st.0.push(T::spec_written(rs[k].merged@)), true)),
{
    let want = rs[k].merged@;
    let id = required_id::<T>(rs, k);
    assert(T::spec_valid(rs[k].merged@));
    T::lemma_written_reads_back(want);
    lemma_first_with_id_cores::<T>(es, id);
    lemma_first_core::<T>(cores(es), id);
    assert(plan_entries_known::<T>(es, rs, k, st.0));
    assert forall|j: int| 0 <= j < st.0.len() implies core_id::<T>(st.0[j]) != Some(id) by {
        if j < es.len() && st.0[j] == cores(es)[j] {
            assert(core_id::<T>(cores(es)[j]) != Some(id));
        } else {
            let i = choose|i: int| 0 <= i < k && core_id::<T>(st.0[j]) == Some(required_id::<T>(rs, i));
            assert(required_id::<T>(rs, i) != id);
        }
    }
    lemma_plan_put_end::<T>(es, rs, k, fresh, st, T::spec_written(want));
}

/// A required item that the first entry of its identity in the array
/// names is replaced, rewritten, or left.
#[verifier::rlimit(30)]
proof fn lemma_step_found<T: DenyArrayItem>(key: Seq<char>, es: Seq<EntryView>, rs: Seq<ResolvedItemEntry<T>>, k: int, fresh: bool, st: ItemPlan, p: int)
    requires
        0 <= k < rs.len(),
        required_ok::<T>(rs),
        pass_keeps::<T>(es, rs, k, fresh, st),
        first_with_id::<T>(es, required_id::<T>(rs, k)) == Some(p),
    ensures
        pass_keeps::<T>(es, rs, k + 1, fresh, required_step::<T>(key, es, st, rs[k]).0),
{
    let want = rs[k].merged@;
    let id = required_id::<T>(rs, k);
    assert(T::spec_valid(rs[k].merged@));
    lemma_plan_keeps_first::<T>(es, rs, k, fresh, st, p);
    let cur = T::spec_parse(entry_core(es[p]))->Ok_0;
    assert(cores(es)[p] == entry_core(es[p]));
    if !T::spec_matches(cur, want) {
        T::lemma_written_reads_back(want);
        lemma_plan_put::<T>(es, rs, k, fresh, st, p, T::spec_written(want));
    } else if !T::spec_canonical(entry_core(es[p])) {
        T::lemma_parsed_valid(entry_core(es[p]));
        T::lemma_written_reads_back(cur);
        let w = T::spec_parse(T::spec_written(cur))->Ok_0;
        T::lemma_matches_transitive(w, cur, want);
        lemma_plan_put::<T>(es, rs, k, fresh, st, p, T::spec_written(cur));
    } else {
        lemma_plan_keep::<T>(es, rs, k, fresh, st, p);
    }
}

/// What the plan keeps after each required item.
pub proof fn lemma_required_pass<T: DenyArrayItem>(key: Seq<char>, es: Seq<EntryView>, rs: Seq<ResolvedItemEntry<T>>, n: nat, fresh: bool)
    requires
        n <= rs.len(),
        required_ok::<T>(rs),
    ensures
        pass_keeps::<T>(es, rs, n as int, fresh, required_pass::<T>(key, es, rs, n, (cores(es), fresh)).0),
    decreases n,
{
    if n == 0 {
        let st: ItemPlan = (cores(es), fresh);
        assert forall|q: int| 0 <= q < st.0.len() implies (q < es.len() && #[trigger] st.0[q] == cores(es)[q])
            || exists|i: int| 0 <= i < 0 && core_id::<T>(st.0[q]) == Some(required_id::<T>(rs, i)) by {
        }
    } else {
        let m = (n - 1) as nat;
        lemma_required_pass::<T>(key, es, rs, m, fresh);
        let st = required_pass::<T>(key, es, rs, m, (cores(es), fresh)).0;
        let k = m as int;
        match first_with_id::<T>(es, required_id::<T>(rs, k)) {
            None => {
                lemma_step_missing::<T>(es, rs, k, fresh, st);
            },
            Some(p) => {
                lemma_step_found::<T>(key, es, rs, k, fresh, st, p);
            },
        }
    }
}

/// Appending an entry of the `n`th required identity that holds it, where
/// none of that identity is, keeps every required item held.
#[verifier::rlimit(30)]
proof fn lemma_plan_put_end<T: DenyArrayItem>(es: Seq<EntryView>, rs: Seq<ResolvedItemEntry<T>>, n: int, fresh: bool, st: ItemPlan, x: EntryCore)
    requires
        0 <= n < rs.len(),
        required_ok::<T>(rs),
        pass_keeps::<T>(es, rs, n, fresh, st),
        forall|j: int| 0 <= j < st.0.len() ==> core_id::<T>(st.0[j]) != Some(required_id::<T>(rs, n)),
        first_with_id::<T>(es, required_id::<T>(rs, n)) is None,
        core_id::<T>(x) == Some(required_id::<T>(rs, n)),
        T::spec_parse(x) is Ok,
        T::spec_matches(T::spec_parse(x)->Ok_0, rs[n].merged@),
        T::spec_canonical(x),
    ensures
        pass_keeps::<T>(es, rs, n + 1, fresh, (st.0.push(x), true)),
{
    let id = required_id::<T>(rs, n);
    let cs = st.0.push(x);
    let p = st.0.len() as int;
    assert forall|i: int| 0 <= i < n + 1 implies item_held::<T>(cs, #[trigger] rs[i].merged@) by {
        if i == n {
            lemma_first_core_at::<T>(cs, id, p);
        } else {
            let idi = required_id::<T>(rs, i);
            assert(item_held::<T>(st.0, rs[i].merged@));
            lemma_first_core::<T>(st.0, idi);
            let pi = first_core_with_id::<T>(st.0, idi)->Some_0;
            assert forall|j: int| 0 <= j < pi implies core_id::<T>(cs[j]) != Some(idi) by {
                assert(cs[j] == st.0[j]);
            }
            lemma_first_core_at::<T>(cs, idi, pi);
        }
    }
    assert forall|q: int| 0 <= q < cs.len() implies (q < es.len() && #[trigger] cs[q] == cores(es)[q])
        || exists|i: int| 0 <= i < n + 1 && core_id::<T>(cs[q]) == Some(required_id::<T>(rs, i)) by {
        if q == p {
            assert(0 <= n < n + 1 && core_id::<T>(cs[q]) == Some(required_id::<T>(rs, n)));
        } else {
            assert(cs[q] == st.0[q]);
            if !(q < es.len() && st.0[q] == cores(es)[q]) {
                let i = choose|i: int| 0 <= i < n && core_id::<T>(st.0[q]) == Some(required_id::<T>(rs, i));
                assert(0 <= i < n + 1 && core_id::<T>(cs[q]) == Some(required_id::<T>(rs, i)));
            }
        }
    }
    assert forall|q: int| 0 <= q < es.len() implies #[trigger] cs[q] == cores(es)[q]
        || exists|i: int| 0 <= i < n + 1 && first_with_id::<T>(es, required_id::<T>(rs, i)) == Some(q) by {
        assert(cs[q] == st.0[q]);
        if st.0[q] != cores(es)[q] {
            let i = choose|i: int| 0 <= i < n && first_with_id::<T>(es, required_id::<T>(rs, i)) == Some(q);
            assert(0 <= i < n + 1 && first_with_id::<T>(es, required_id::<T>(rs, i)) == Some(q));
        }
    }
}

/// Required items all held by an array change nothing and report nothing.
pub proof fn lemma_pass_unchanged<T: DenyArrayItem>(key: Seq<char>, es: Seq<EntryView>, rs: Seq<ResolvedItemEntry<T>>, n: nat)
    requires
        n <= rs.len(),
        forall|i: int| 0 <= i < n ==> item_held::<T>(cores(es), #[trigger] rs[i].merged@),
    ensures
        required_pass::<T>(key, es, rs, n, (cores(es), false)) == ((cores(es), false), Seq::<FindingView>::empty()),
    decreases n,
{
    if n > 0 {
        let m = (n - 1) as nat;
        lemma_pass_unchanged::<T>(key, es, rs, m);
        let k = m as int;
        let id = T::spec_id(rs[k].merged@);
        assert(item_held::<T>(cores(es), rs[k].merged@));
        lemma_first_with_id_cores::<T>(es, id);
        let p = first_core_with_id::<T>(cores(es), id)->Some_0;
        lemma_first_core::<T>(cores(es), id);
        assert(cores(es)[p] == entry_core(es[p]));
        let prev = required_pass::<T>(key, es, rs, m, (cores(es), false));
        assert(prev.1 + Seq::<FindingView>::empty() =~= Seq::<FindingView>::empty());
    }
}

} // verus!
