//! Closing `deny.toml` to the tables and `[bans.build]` fields cargo-deny
//! knows, when a policy asks for exact settings.

use vstd::prelude::*;
use toml_edit::DocumentMut;
use crate::deny_fields::read_at;
use crate::deny_model::ResolvedDenyTomlRequirements;
use crate::findings::{Finding, FindingView, finding_views, mismatch, policies, push_mismatch};
use crate::rustfmt_reconcile::{
    current_text, first_message, keep_unmatched, keys_removed, lemma_remove_all_in_push, lemma_remove_none,
    message_and_attribution, policies_of, read_root, remove_all_in, render_current, root_item,
};
use crate::text::{join2, owned};
use crate::text_order::string_views;
use crate::toml_doc::{item_at_root, read_item, TomlValue, path_prefix, remove_in_subtable, remove_root, root_keys, subtable_keys, toml_at, toml_keys};

verus! {

/// The root tables cargo-deny knows.
pub open spec fn deny_root_tables() -> Seq<Seq<char>> {
    seq!["graph"@, "output"@, "advisories"@, "licenses"@, "bans"@, "sources"@]
}

/// The fields `[bans.build]` may hold.
pub open spec fn bans_build_fields() -> Seq<Seq<char>> {
    seq!["executables"@, "interpreted"@, "script-extensions"@, "enable-builtin-globs"@, "globs"@,
        "include-dependencies"@, "include-workspace"@, "include-archives"@]
}

/// The mismatches of removing root keys `extras`, one each in order, shown
/// with the item's text (nothing once an earlier occurrence removed it).
pub open spec fn root_extra_findings(doc: DocumentMut, extras: Seq<Seq<char>>, message: Seq<char>, attribution: Seq<Seq<char>>) -> Seq<FindingView>
    decreases extras.len(),
{
    if extras.len() == 0 {
        seq![]
    } else {
        let k = extras.last();
        let current = if extras.drop_last().contains(k) { None } else { current_text(root_item(doc, k)) };
        root_extra_findings(doc, extras.drop_last(), message, attribution).push(
            mismatch(k, current, "absent (exact settings)"@, message, attribution))
    }
}

/// The item at `bans.build.key`.
pub open spec fn build_item(doc: DocumentMut, key: Seq<char>) -> Option<crate::toml_doc::TomlView> {
    toml_at(doc, seq!["bans"@, "build"@, key])
}

/// The mismatches of removing `[bans.build]` fields `extras`.
pub open spec fn build_extra_findings(doc: DocumentMut, extras: Seq<Seq<char>>, message: Seq<char>, attribution: Seq<Seq<char>>) -> Seq<FindingView>
    decreases extras.len(),
{
    if extras.len() == 0 {
        seq![]
    } else {
        let k = extras.last();
        let current = if extras.drop_last().contains(k) { None } else { current_text(build_item(doc, k)) };
        build_extra_findings(doc, extras.drop_last(), message, attribution).push(
            mismatch("bans.build."@ + k, current, "absent (exact settings)"@, message, attribution))
    }
}

/// What removing the fields `extras` of `[bans.build]` leaves: nothing
/// under them, the rest as it was, and the table's keys without them.
pub open spec fn build_keys_removed(old: DocumentMut, new: DocumentMut, extras: Seq<Seq<char>>) -> bool {
    &&& forall|q: Seq<Seq<char>>| q.len() > 2 && q[0] == "bans"@ && q[1] == "build"@ && extras.contains(q[2]) ==> #[trigger] toml_at(new, q) is None
    &&& forall|q: Seq<Seq<char>>| !(q.len() > 2 && q[0] == "bans"@ && q[1] == "build"@ && extras.contains(q[2])) ==> #[trigger] toml_at(new, q) == toml_at(old, q)
    &&& toml_keys(new, seq!["bans"@, "build"@]) == match toml_keys(old, seq!["bans"@, "build"@]) {
        Some(ks) => Some(remove_all_in(ks, extras)),
        None => None,
    }
}

/// What exact settings do: nothing unless a policy asks for them; then
/// every unknown root key is removed and reported, and then every unknown
/// field of `[bans.build]`, when that table is there.
/// Whether `[bans]` and `[bans.build]` are both standard tables.
pub open spec fn build_is_standard(d: DocumentMut) -> bool {
    &&& toml_at(d, seq!["bans"@]) matches Some(t) && t.0 == 5
    &&& toml_at(d, seq!["bans"@, "build"@]) matches Some(t) && t.0 == 5
}

fn build_standard(doc: &DocumentMut) -> (r: bool)
    ensures
        r == build_is_standard(*doc),
{
    let bans = match item_at_root(doc, "bans") {
        Some(i) => read_item(&i),
        None => return false,
    };
    let build = read_at(doc, "bans", None, "build");
    proof {
        assert(crate::deny_fields::field_path("bans"@, None, "build"@) =~= seq!["bans"@, "build"@]);
    }
    match (bans, build) {
        (TomlValue::Table, Some(TomlValue::Table)) => true,
        _ => false,
    }
}

pub open spec fn deny_exact_applied(old: DocumentMut, new: DocumentMut, f0: Seq<FindingView>, f1: Seq<FindingView>, r: ResolvedDenyTomlRequirements) -> bool {
    if r.closed_settings@.len() == 0 {
        new == old && f1 == f0
    } else {
        let m = first_message(r.closed_settings@);
        let a = policies_of(r.closed_settings@);
        let roots = remove_all_in(toml_keys(old, seq![])->0, deny_root_tables());
        exists|mid: DocumentMut| {
            &&& #[trigger] keys_removed(old, mid, roots)
            &&& match toml_keys(mid, seq!["bans"@, "build"@]) {
                Some(ks) if build_is_standard(mid) => {
                    let builds = remove_all_in(ks, bans_build_fields());
                    &&& build_keys_removed(mid, new, builds)
                    &&& f1 == f0 + root_extra_findings(old, roots, m, a) + build_extra_findings(mid, builds, m, a)
                },
                _ => new == mid && f1 == f0 + root_extra_findings(old, roots, m, a),
            }
        }
    }
}

fn names(list: Vec<&str>) -> (r: Vec<String>)
    ensures
        r@.len() == list@.len(),
        forall|i: int| 0 <= i < list@.len() ==> r@[i]@ == list@[i]@,
{
    let mut out: Vec<String> = Vec::new();
    let mut i: usize = 0;
    while i < list.len()
        invariant
            i <= list.len(),
            out@.len() == i,
            forall|j: int| 0 <= j < i ==> out@[j]@ == list@[j]@,
        decreases list.len() - i,
    {
        out.push(owned(list[i]));
        i = i + 1;
    }
    out
}

fn root_table_names() -> (r: Vec<String>)
    ensures
        string_views(r@) == deny_root_tables(),
{
    let r = names(vec!["graph", "output", "advisories", "licenses", "bans", "sources"]);
    assert(string_views(r@) =~= deny_root_tables());
    r
}

fn build_field_names() -> (r: Vec<String>)
    ensures
        string_views(r@) == bans_build_fields(),
{
    let r = names(vec!["executables", "interpreted", "script-extensions", "enable-builtin-globs", "globs",
        "include-dependencies", "include-workspace", "include-archives"]);
    assert(string_views(r@) =~= bans_build_fields());
    r
}

fn remove_root_extras(doc: &mut DocumentMut, message: &str, attribution: &Vec<crate::requirements::Provenance>, findings: &mut Vec<Finding>)
    ensures
        keys_removed(*old(doc), *final(doc), remove_all_in(toml_keys(*old(doc), seq![])->0, deny_root_tables())),
        finding_views(final(findings)@) == finding_views(old(findings)@)
            + root_extra_findings(*old(doc), remove_all_in(toml_keys(*old(doc), seq![])->0, deny_root_tables()), message@, policies(attribution@)),
{
    proof {
        reveal_strlit("absent (exact settings)");
    }
    let ghost d0 = *doc;
    let allowed = root_table_names();
    let keys = root_keys(doc);
    let extras = keep_unmatched(&keys, &allowed);
    let ghost ev = string_views(extras@);
    let ghost f0 = finding_views(findings@);
    let mut i: usize = 0;
    assert(keys_removed(d0, *doc, ev.subrange(0, 0))) by {
        assert(ev.subrange(0, 0) =~= Seq::<Seq<char>>::empty());
        lemma_remove_none(string_views(keys@));
    }
    assert(finding_views(findings@) =~= f0 + root_extra_findings(d0, ev.subrange(0, 0), message@, policies(attribution@)));
    while i < extras.len()
        invariant
            i <= extras.len(),
            ev == string_views(extras@),
            toml_keys(d0, seq![]) == Some(string_views(keys@)),
            keys_removed(d0, *doc, ev.subrange(0, i as int)),
            finding_views(findings@) == f0 + root_extra_findings(d0, ev.subrange(0, i as int), message@, policies(attribution@)),
        decreases extras.len() - i,
    {
        let ghost before = *doc;
        let ghost sub = ev.subrange(0, i + 1);
        let ghost prev = ev.subrange(0, i as int);
        assert(sub.drop_last() =~= prev);
        let k = extras[i].as_str();
        let cur = read_root(doc, k);
        proof {
            if prev.contains(ev[i as int]) {
                assert(root_item(before, k@) is None);
            } else {
                assert(root_item(before, k@) == root_item(d0, k@));
            }
        }
        push_mismatch(findings, owned(k), render_current(&cur), owned("absent (exact settings)"), message, attribution);
        let _ = remove_root(doc, k);
        proof {
            assert forall|q: Seq<Seq<char>>| q.len() > 0 && sub.contains(q[0]) implies #[trigger] toml_at(*doc, q) is None by {
                let j = choose|j: int| 0 <= j < sub.len() && sub[j] == q[0];
                if j < i {
                    assert(prev[j] == q[0]);
                    assert(prev.contains(q[0]));
                    if !path_prefix(seq![k@], q) {
                        assert(toml_at(*doc, q) == toml_at(before, q));
                    }
                } else {
                    assert(q.subrange(0, 1) =~= seq![k@]);
                }
            }
            assert forall|q: Seq<Seq<char>>| !(q.len() > 0 && sub.contains(q[0])) implies #[trigger] toml_at(*doc, q) == toml_at(d0, q) by {
                if q.len() > 0 {
                    if prev.contains(q[0]) {
                        let j = choose|j: int| 0 <= j < prev.len() && prev[j] == q[0];
                        assert(sub[j] == q[0]);
                    }
                    assert(q[0] != k@) by {
                        if q[0] == k@ {
                            assert(sub[i as int] == q[0]);
                        }
                    }
                    assert(!path_prefix(seq![k@], q));
                } else {
                    assert(!path_prefix(seq![k@], q));
                }
            }
            lemma_remove_all_in_push(string_views(keys@), prev, k@);
            assert(sub =~= prev.push(k@));
            assert(seq![k@].drop_last() =~= Seq::<Seq<char>>::empty());
            assert(seq![k@].last() == k@);
            assert(toml_keys(before, seq![]) == Some(remove_all_in(string_views(keys@), prev)));
            assert(toml_keys(*doc, seq![]) == Some(remove_all_in(string_views(keys@), sub)));
        }
        i = i + 1;
    }
    proof {
        assert(ev.subrange(0, ev.len() as int) =~= ev);
    }
}

fn remove_build_extras(
    doc: &mut DocumentMut,
    keys: &Vec<String>,
    message: &str,
    attribution: &Vec<crate::requirements::Provenance>,
    findings: &mut Vec<Finding>,
)
    requires
        toml_keys(*old(doc), seq!["bans"@, "build"@]) == Some(string_views(keys@)),
        build_is_standard(*old(doc)),
    ensures
        build_keys_removed(*old(doc), *final(doc), remove_all_in(string_views(keys@), bans_build_fields())),
        finding_views(final(findings)@) == finding_views(old(findings)@)
            + build_extra_findings(*old(doc), remove_all_in(string_views(keys@), bans_build_fields()), message@, policies(attribution@)),
{
    proof {
        reveal_strlit("absent (exact settings)");
        reveal_strlit("bans.build.");
    }
    let ghost d0 = *doc;
    let allowed = build_field_names();
    let extras = keep_unmatched(keys, &allowed);
    let ghost ev = string_views(extras@);
    let ghost f0 = finding_views(findings@);
    let mut i: usize = 0;
    assert(ev.subrange(0, 0) =~= Seq::<Seq<char>>::empty());
    proof {
        lemma_remove_none(string_views(keys@));
    }
    assert(finding_views(findings@) =~= f0 + build_extra_findings(d0, ev.subrange(0, 0), message@, policies(attribution@)));
    while i < extras.len()
        invariant
            i <= extras.len(),
            ev == string_views(extras@),
            toml_keys(d0, seq!["bans"@, "build"@]) == Some(string_views(keys@)),
            build_is_standard(d0),
            forall|q: Seq<Seq<char>>| q.len() > 2 && q[0] == "bans"@ && q[1] == "build"@ && ev.subrange(0, i as int).contains(q[2]) ==> #[trigger] toml_at(*doc, q) is None,
            forall|q: Seq<Seq<char>>| !(q.len() > 2 && q[0] == "bans"@ && q[1] == "build"@ && ev.subrange(0, i as int).contains(q[2])) ==> #[trigger] toml_at(*doc, q) == toml_at(d0, q),
            toml_keys(*doc, seq!["bans"@, "build"@]) == Some(remove_all_in(string_views(keys@), ev.subrange(0, i as int))),
            finding_views(findings@) == f0 + build_extra_findings(d0, ev.subrange(0, i as int), message@, policies(attribution@)),
        decreases extras.len() - i,
    {
        let ghost before = *doc;
        let ghost sub = ev.subrange(0, i + 1);
        let ghost prev = ev.subrange(0, i as int);
        assert(sub.drop_last() =~= prev);
        let k = extras[i].as_str();
        let cur = read_at(doc, "bans", Some("build"), k);
        proof {
            let p = seq!["bans"@, "build"@, k@];
            if prev.contains(ev[i as int]) {
                assert(toml_at(before, p) is None);
            } else {
                assert(toml_at(before, p) == toml_at(d0, p));
            }
        }
        push_mismatch(findings, join2("bans.build.", k), render_current(&cur), owned("absent (exact settings)"), message, attribution);
        proof {
            assert(toml_at(*doc, seq!["bans"@]) == toml_at(d0, seq!["bans"@]));
            assert(toml_at(*doc, seq!["bans"@, "build"@]) == toml_at(d0, seq!["bans"@, "build"@]));
            let p = seq!["bans"@, "build"@, k@];
            assert(p.subrange(0, 1) =~= seq!["bans"@]);
            assert(p.subrange(0, 2) =~= seq!["bans"@, "build"@]);
        }
        let _ = remove_in_subtable(doc, "bans", "build", k);
        proof {
            let p = seq!["bans"@, "build"@, k@];
            assert forall|q: Seq<Seq<char>>| q.len() > 2 && q[0] == "bans"@ && q[1] == "build"@ && sub.contains(q[2]) implies #[trigger] toml_at(*doc, q) is None by {
                let j = choose|j: int| 0 <= j < sub.len() && sub[j] == q[2];
                if j < i {
                    assert(prev[j] == q[2]);
                    assert(prev.contains(q[2]));
                    if !path_prefix(p, q) {
                        assert(toml_at(*doc, q) == toml_at(before, q));
                    }
                } else {
                    assert(q.subrange(0, 3) =~= p);
                }
            }
            assert forall|q: Seq<Seq<char>>| !(q.len() > 2 && q[0] == "bans"@ && q[1] == "build"@ && sub.contains(q[2])) implies #[trigger] toml_at(*doc, q) == toml_at(d0, q) by {
                if q.len() > 2 && q[0] == "bans"@ && q[1] == "build"@ {
                    if prev.contains(q[2]) {
                        let j = choose|j: int| 0 <= j < prev.len() && prev[j] == q[2];
                        assert(sub[j] == q[2]);
                    }
                    assert(q[2] != k@) by {
                        if q[2] == k@ {
                            assert(sub[i as int] == q[2]);
                        }
                    }
                    assert(!path_prefix(p, q)) by {
                        if path_prefix(p, q) {
                            assert(q.subrange(0, 3)[2] == q[2]);
                        }
                    }
                } else {
                    assert(!path_prefix(p, q)) by {
                        if path_prefix(p, q) {
                            assert(q.subrange(0, 3)[0] == q[0]);
                            assert(q.subrange(0, 3)[1] == q[1]);
                        }
                    }
                }
            }
            assert(p.drop_last() =~= seq!["bans"@, "build"@]);
            assert(p.last() == k@);
            lemma_remove_all_in_push(string_views(keys@), prev, k@);
            assert(sub =~= prev.push(k@));
        }
        i = i + 1;
    }
    proof {
        assert(ev.subrange(0, ev.len() as int) =~= ev);
    }
}

/// When a policy asks for exact settings, removes every root key that is
/// not a table cargo-deny knows, then every unknown `[bans.build]` field,
/// reporting each one.
pub fn apply_exact_settings(doc: &mut DocumentMut, requirement: &ResolvedDenyTomlRequirements, findings: &mut Vec<Finding>)
    ensures
        deny_exact_applied(*old(doc), *final(doc), finding_views(old(findings)@), finding_views(final(findings)@), *requirement),
{
    if requirement.closed_settings.len() == 0 {
        return;
    }
    let (message, attribution) = message_and_attribution(&requirement.closed_settings);
    let ghost d0 = *doc;
    let ghost f0 = finding_views(findings@);
    remove_root_extras(doc, message.as_str(), &attribution, findings);
    let ghost mid = *doc;
    let ghost f1 = finding_views(findings@);
    if build_standard(doc) {
        match subtable_keys(doc, "bans", "build") {
            Some(keys) => {
                remove_build_extras(doc, &keys, message.as_str(), &attribution, findings);
            },
            None => {},
        }
    }
    proof {
        let roots = remove_all_in(toml_keys(d0, seq![])->0, deny_root_tables());
        assert(keys_removed(d0, mid, roots));
    }
}

} // verus!
