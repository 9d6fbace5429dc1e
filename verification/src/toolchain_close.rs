//! Closing the `[toolchain]` table to the fields requirements name, and
//! reporting it empty.

use vstd::prelude::*;
use toml_edit::DocumentMut;
use crate::deny_scalar_edit::{shown_current, shown_text};
use crate::findings::{Finding, FindingView, finding_views, mismatch, policies, push_mismatch};
use crate::rustfmt_reconcile::{
    first_message, keep_unmatched, lemma_remove_all_in_push, lemma_remove_none, message_and_attribution, policies_of,
    remove_all_in,
};
use crate::text::{join2, owned};
use crate::text_order::string_views;
use crate::toml_doc::{lemma_way_open_in_table, path_prefix, remove_in_table, table_keys, toml_at, toml_keys};
use crate::toolchain_fields::{read_tc, tc_item};
use crate::toolchain_model::ResolvedRustToolchainTomlRequirements;
use crate::toolchain_table::has_tc_table;

verus! {

/// The fields of `[toolchain]` that requirements can name.
pub open spec fn toolchain_fields() -> Seq<Seq<char>> {
    seq!["channel"@, "path"@, "profile"@, "components"@, "targets"@]
}

/// The mismatches of closing `[toolchain]`: one per extra field, in order,
/// shown with its current text (nothing once an earlier occurrence removed
/// it).
pub open spec fn tc_closed_findings(doc: DocumentMut, extras: Seq<Seq<char>>, message: Seq<char>, attribution: Seq<Seq<char>>) -> Seq<FindingView>
    decreases extras.len(),
{
    if extras.len() == 0 {
        seq![]
    } else {
        let k = extras.last();
        let current = if extras.drop_last().contains(k) { None } else { shown_text(tc_item(doc, k)) };
        tc_closed_findings(doc, extras.drop_last(), message, attribution).push(
            mismatch("toolchain."@ + k, current, "absent because rust-toolchain.toml fields are exact"@, message, attribution))
    }
}

/// What removing the fields `extras` of `[toolchain]` leaves: nothing under
/// them, the rest as it was, and the table's keys without them.
pub open spec fn tc_keys_removed(old: DocumentMut, new: DocumentMut, extras: Seq<Seq<char>>) -> bool {
    &&& forall|q: Seq<Seq<char>>| q.len() > 1 && q[0] == "toolchain"@ && extras.contains(q[1]) ==> #[trigger] toml_at(new, q) is None
    &&& forall|q: Seq<Seq<char>>| !(q.len() > 1 && q[0] == "toolchain"@ && extras.contains(q[1])) ==> #[trigger] toml_at(new, q) == toml_at(old, q)
    &&& toml_keys(new, seq!["toolchain"@]) == match toml_keys(old, seq!["toolchain"@]) {
        Some(ks) => Some(remove_all_in(ks, extras)),
        None => None,
    }
}

/// What closing `[toolchain]` does: nothing unless a policy closes it;
/// then every field that no requirement can name is removed and reported.
pub open spec fn tc_closed(old: DocumentMut, new: DocumentMut, f0: Seq<FindingView>, f1: Seq<FindingView>, r: ResolvedRustToolchainTomlRequirements) -> bool {
    if r.closed_settings@.len() == 0 {
        new == old && f1 == f0
    } else {
        let extras = remove_all_in(toml_keys(old, seq!["toolchain"@])->0, toolchain_fields());
        &&& tc_keys_removed(old, new, extras)
        &&& f1 == f0 + tc_closed_findings(old, extras, first_message(r.closed_settings@), policies_of(r.closed_settings@))
    }
}

fn field_names() -> (r: Vec<String>)
    ensures
        string_views(r@) == toolchain_fields(),
{
    let r = vec![owned("channel"), owned("path"), owned("profile"), owned("components"), owned("targets")];
    assert(string_views(r@) =~= toolchain_fields());
    r
}

/// When a policy closes `[toolchain]`, removes every field no requirement
/// can name, in the table's order, reporting each one.
pub fn apply_closed(doc: &mut DocumentMut, requirement: &ResolvedRustToolchainTomlRequirements, findings: &mut Vec<Finding>)
    requires
        has_tc_table(*old(doc)),
    ensures
        tc_closed(*old(doc), *final(doc), finding_views(old(findings)@), finding_views(final(findings)@), *requirement),
{
    if requirement.closed_settings.len() == 0 {
        return;
    }
    proof {
        reveal_strlit("absent because rust-toolchain.toml fields are exact");
        reveal_strlit("toolchain.");
    }
    let ghost d0 = *doc;
    let allowed = field_names();
    let keys = match table_keys(doc, "toolchain") {
        Some(ks) => ks,
        None => Vec::new(),
    };
    let ghost tk = toml_keys(d0, seq!["toolchain"@]);
    assert(tk is Some);
    let extras = keep_unmatched(&keys, &allowed);
    let ghost ev = string_views(extras@);
    let (message, attribution) = message_and_attribution(&requirement.closed_settings);
    let ghost f0 = finding_views(findings@);
    let mut i: usize = 0;
    assert(ev.subrange(0, 0) =~= Seq::<Seq<char>>::empty());
    proof {
        lemma_remove_none(string_views(keys@));
    }
    assert(finding_views(findings@) =~= f0 + tc_closed_findings(d0, ev.subrange(0, 0), message@, policies(attribution@)));
    while i < extras.len()
        invariant
            i <= extras.len(),
            ev == string_views(extras@),
            tk is Some ==> tk == Some(string_views(keys@)),
            has_tc_table(d0),
            forall|q: Seq<Seq<char>>| q.len() > 1 && q[0] == "toolchain"@ && ev.subrange(0, i as int).contains(q[1]) ==> #[trigger] toml_at(*doc, q) is None,
            forall|q: Seq<Seq<char>>| !(q.len() > 1 && q[0] == "toolchain"@ && ev.subrange(0, i as int).contains(q[1])) ==> #[trigger] toml_at(*doc, q) == toml_at(d0, q),
            toml_keys(*doc, seq!["toolchain"@]) == match tk {
                Some(ks) => Some(remove_all_in(ks, ev.subrange(0, i as int))),
                None => None,
            },
            finding_views(findings@) == f0 + tc_closed_findings(d0, ev.subrange(0, i as int), message@, policies(attribution@)),
        decreases extras.len() - i,
    {
        let ghost before = *doc;
        let ghost sub = ev.subrange(0, i + 1);
        let ghost prev = ev.subrange(0, i as int);
        assert(sub.drop_last() =~= prev);
        let k = extras[i].as_str();
        let cur = read_tc(doc, k);
        proof {
            let p = seq!["toolchain"@, k@];
            if prev.contains(ev[i as int]) {
                assert(toml_at(before, p) is None);
            } else {
                assert(toml_at(before, p) == toml_at(d0, p));
            }
        }
        push_mismatch(findings, join2("toolchain.", k), shown_current(&cur),
            owned("absent because rust-toolchain.toml fields are exact"), message.as_str(), &attribution);
        proof {
            assert(toml_at(*doc, seq!["toolchain"@]) == toml_at(d0, seq!["toolchain"@]));
            lemma_way_open_in_table(*doc, "toolchain"@, k@);
        }
        let _ = remove_in_table(doc, "toolchain", k);
        proof {
            let p = seq!["toolchain"@, k@];
            assert forall|q: Seq<Seq<char>>| q.len() > 1 && q[0] == "toolchain"@ && sub.contains(q[1]) implies #[trigger] toml_at(*doc, q) is None by {
                let j = choose|j: int| 0 <= j < sub.len() && sub[j] == q[1];
                if j < i {
                    assert(prev[j] == q[1]);
                    assert(prev.contains(q[1]));
                    if !path_prefix(p, q) {
                        assert(toml_at(*doc, q) == toml_at(before, q));
                    }
                } else {
                    assert(q.subrange(0, 2) =~= p);
                }
            }
            assert forall|q: Seq<Seq<char>>| !(q.len() > 1 && q[0] == "toolchain"@ && sub.contains(q[1])) implies #[trigger] toml_at(*doc, q) == toml_at(d0, q) by {
                if q.len() > 1 && q[0] == "toolchain"@ {
                    if prev.contains(q[1]) {
                        let j = choose|j: int| 0 <= j < prev.len() && prev[j] == q[1];
                        assert(sub[j] == q[1]);
                    }
                    assert(q[1] != k@) by {
                        if q[1] == k@ {
                            assert(sub[i as int] == q[1]);
                        }
                    }
                    assert(!path_prefix(p, q)) by {
                        if path_prefix(p, q) {
                            assert(q.subrange(0, 2)[1] == q[1]);
                        }
                    }
                } else {
                    assert(!path_prefix(p, q)) by {
                        if path_prefix(p, q) {
                            assert(q.subrange(0, 2)[0] == q[0]);
                        }
                    }
                }
            }
            assert(p.drop_last() =~= seq!["toolchain"@]);
            assert(p.last() == k@);
            if tk is Some {
                lemma_remove_all_in_push(string_views(keys@), prev, k@);
                assert(sub =~= prev.push(k@));
            }
        }
        i = i + 1;
    }
    proof {
        assert(ev.subrange(0, ev.len() as int) =~= ev);
        assert(has_tc_table(d0));
    }
}

/// The finding of an empty `[toolchain]` table.
pub open spec fn empty_table_finding() -> FindingView {
    mismatch("toolchain"@, Some("{}"@), "at least one supported property"@,
        "rust-toolchain.toml [toolchain] table cannot be empty."@, seq![])
}

/// Reports a `[toolchain]` table with no fields.
pub fn report_empty_table(doc: &DocumentMut, findings: &mut Vec<Finding>)
    ensures
        finding_views(final(findings)@) == if toml_keys(*doc, seq!["toolchain"@]) == Some(Seq::<Seq<char>>::empty()) {
            finding_views(old(findings)@).push(empty_table_finding())
        } else {
            finding_views(old(findings)@)
        },
{
    let empty = match table_keys(doc, "toolchain") {
        Some(ks) => ks.len() == 0,
        None => false,
    };
    proof {
        if empty {
            let ks = toml_keys(*doc, seq!["toolchain"@])->0;
            assert(ks =~= Seq::<Seq<char>>::empty());
        } else if toml_keys(*doc, seq!["toolchain"@]) is Some {
            assert(toml_keys(*doc, seq!["toolchain"@])->0.len() > 0);
        }
    }
    if empty {
        proof {
            reveal_strlit("toolchain");
            reveal_strlit("{}");
            reveal_strlit("at least one supported property");
            reveal_strlit("rust-toolchain.toml [toolchain] table cannot be empty.");
        }
        let attribution: Vec<crate::requirements::Provenance> = Vec::new();
        assert(policies(attribution@) =~= Seq::<Seq<char>>::empty());
        push_mismatch(findings, owned("toolchain"), Some(owned("{}")), owned("at least one supported property"),
            "rust-toolchain.toml [toolchain] table cannot be empty.", &attribution);
    }
}

} // verus!
