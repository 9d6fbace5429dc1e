//! Applying merged `deny.toml` requirements to a document, and the engine
//! that reads, reconciles and renders the file.

use vstd::prelude::*;
use vstd::utf8::encode_utf8;
use toml_edit::DocumentMut;
use crate::deny_exact::{apply_exact_settings, deny_exact_applied};
use crate::deny_item_fields::{apply_items, deny_items_applied};
use crate::deny_list_fields::{apply_lists, deny_lists_applied};
use crate::deny_model::ResolvedDenyTomlRequirements;
use crate::deny_scalar_fields::{apply_scalars, deny_scalars_applied};
use crate::findings::{EngineOutput, Finding, FindingView, finding_view, finding_views, mismatch};
use crate::text::owned;
use crate::toml_doc::{lemma_way_open_in_table, item_at_root, read_item, remove_in_table, removed, toml_at, toml_text};
use crate::toml_io::{document_bytes, is_empty_document, parse_error_view, read_as, read_document, read_error};
use crate::rustfmt_reconcile::value_view;

verus! {

/// The identity under which this engine's requirements are routed.
pub const ENGINE_ID: &'static str = "aqc-deny-toml-engine";

/// What dropping the key `sources.unused-allowed-org`, which cargo-deny
/// does not support, leaves: when `sources` is a standard table the key is
/// removed, and reported when it was there; otherwise nothing changes.
pub open spec fn source_key_rejected(old: DocumentMut, new: DocumentMut, f0: Seq<FindingView>, f1: Seq<FindingView>) -> bool {
    let p = seq!["sources"@, "unused-allowed-org"@];
    if toml_at(old, seq!["sources"@]) matches Some(t) && t.0 == 5 {
        &&& removed(old, new, p)
        &&& f1 == if toml_at(old, p) is Some {
            f0.push(mismatch("sources.unused-allowed-org"@, Some("present"@), "absent"@,
                "unsupported by cargo-deny 0.19.4"@, seq![]))
        } else {
            f0
        }
    } else {
        new == old && f1 == f0
    }
}

/// Removes `sources.unused-allowed-org`, which cargo-deny does not support,
/// from a standard `[sources]` table, reporting it when it was there.
pub fn reject_unsupported_source_key(doc: &mut DocumentMut, findings: &mut Vec<Finding>)
    ensures
        source_key_rejected(*old(doc), *final(doc), finding_views(old(findings)@), finding_views(final(findings)@)),
{
    let sources = match item_at_root(doc, "sources") {
        Some(i) => Some(read_item(&i)),
        None => None,
    };
    let is_table = match &sources {
        Some(crate::toml_doc::TomlValue::Table) => true,
        _ => false,
    };
    proof {
        reveal_strlit("sources");
        assert(toml_at(*doc, seq!["sources"@]) == value_view(sources));
    }
    if !is_table {
        return;
    }
    proof {
        lemma_way_open_in_table(*doc, "sources"@, "unused-allowed-org"@);
    }
    if remove_in_table(doc, "sources", "unused-allowed-org") {
        proof {
            reveal_strlit("sources.unused-allowed-org");
            reveal_strlit("present");
            reveal_strlit("absent");
            reveal_strlit("unsupported by cargo-deny 0.19.4");
        }
        let ghost before = findings@;
        let attribution: Vec<crate::requirements::Provenance> = Vec::new();
        assert(crate::findings::policies(attribution@) =~= Seq::<Seq<char>>::empty());
        findings.push(Finding::Mismatch {
            key: owned("sources.unused-allowed-org"),
            current: Some(owned("present")),
            expected: owned("absent"),
            message: owned("unsupported by cargo-deny 0.19.4"),
            attribution,
        });
        assert(finding_views(findings@) =~= finding_views(before).push(mismatch("sources.unused-allowed-org"@,
            Some("present"@), "absent"@, "unsupported by cargo-deny 0.19.4"@, seq![])));
    }
}

/// What applying merged requirements `r` to `d0` leaves: the unsupported
/// source key dropped, then every item array field, then every scalar
/// field, then every list field, then exact settings, each step on the
/// document the ones before it left; `f1` is `f0` with the steps' findings
/// added in that order.
pub open spec fn deny_applied(d0: DocumentMut, d1: DocumentMut, r: ResolvedDenyTomlRequirements, f0: Seq<FindingView>, f1: Seq<FindingView>) -> bool {
    exists|it: Seq<DocumentMut>, itf: Seq<Seq<FindingView>>, s: Seq<DocumentMut>, sf: Seq<Seq<FindingView>>, l: Seq<DocumentMut>, lf: Seq<Seq<FindingView>>| {
        &&& #[trigger] deny_items_applied(it, itf, r)
        &&& #[trigger] deny_scalars_applied(s, sf, r)
        &&& #[trigger] deny_lists_applied(l, lf, r)
        &&& source_key_rejected(d0, it[0], f0, itf[0])
        &&& s[0] == it.last() && sf[0] == itf.last()
        &&& l[0] == s.last() && lf[0] == sf.last()
        &&& deny_exact_applied(l.last(), d1, lf.last(), f1, r)
    }
}

/// Applies merged `deny.toml` requirements: drops the unsupported source
/// key, then reconciles every item array field, then applies every scalar
/// field and every list field in turn, then exact settings.
pub fn apply(doc: &mut DocumentMut, requirement: &ResolvedDenyTomlRequirements, findings: &mut Vec<Finding>)
    ensures
        deny_applied(*old(doc), *final(doc), *requirement, finding_views(old(findings)@), finding_views(final(findings)@)),
{
    let ghost d0 = *doc;
    let ghost f0 = finding_views(findings@);
    reject_unsupported_source_key(doc, findings);
    let ghost d0i = *doc;
    let ghost f0i = finding_views(findings@);
    apply_items(doc, requirement, findings);
    let ghost d1 = *doc;
    let ghost f1 = finding_views(findings@);
    apply_scalars(doc, requirement, findings);
    let ghost d2 = *doc;
    let ghost f2 = finding_views(findings@);
    apply_lists(doc, requirement, findings);
    let ghost d3 = *doc;
    let ghost f3 = finding_views(findings@);
    apply_exact_settings(doc, requirement, findings);
    proof {
        let it = choose|ds: Seq<DocumentMut>, fs: Seq<Seq<FindingView>>| {
            &&& #[trigger] deny_items_applied(ds, fs, *requirement)
            &&& ds[0] == d0i
            &&& fs[0] == f0i
            &&& ds.last() == d1
            &&& fs.last() == f1
        };
        let s = choose|ds: Seq<DocumentMut>, fs: Seq<Seq<FindingView>>| {
            &&& #[trigger] deny_scalars_applied(ds, fs, *requirement)
            &&& ds[0] == d1
            &&& fs[0] == f1
            &&& ds.last() == d2
            &&& fs.last() == f2
        };
        let l = choose|ds: Seq<DocumentMut>, fs: Seq<Seq<FindingView>>| {
            &&& #[trigger] deny_lists_applied(ds, fs, *requirement)
            &&& ds[0] == d2
            &&& fs[0] == f2
            &&& ds.last() == d3
            &&& fs.last() == f3
        };
        assert(deny_items_applied(it.0, it.1, *requirement));
        assert(deny_scalars_applied(s.0, s.1, *requirement));
        assert(deny_lists_applied(l.0, l.1, *requirement));
    }
}

/// What reconciling the document `d0` with `r` produces: the bytes of the
/// document that applying `r` leaves, and the findings of applying it.
pub open spec fn deny_reconciled(d0: DocumentMut, r: ResolvedDenyTomlRequirements, out: EngineOutput) -> bool {
    exists|d: DocumentMut| {
        &&& #[trigger] deny_applied(d0, d, r, seq![], finding_views(out.findings@))
        &&& out.expected_bytes@ == encode_utf8(toml_text(d))
    }
}

/// The `deny.toml` engine.
#[derive(Debug, Default)]
pub struct DenyTomlEngine;

impl DenyTomlEngine {
    /// Reconciles the current bytes of `deny.toml` (none when the file is
    /// missing) with merged requirements. Bytes that cannot be read give one
    /// parse error and no bytes; otherwise the document read is reconciled.
    pub fn reconcile(current: Option<&[u8]>, requirement: &ResolvedDenyTomlRequirements) -> (out: EngineOutput)
        ensures
            current is None ==> exists|d0: DocumentMut| #[trigger] is_empty_document(d0) && deny_reconciled(d0, *requirement, out),
            current matches Some(b) ==> match read_error(b@) {
                Some(e) => out.expected_bytes@ == Seq::<u8>::empty()
                    && finding_views(out.findings@) == seq![parse_error_view("deny.toml"@, e)],
                None => exists|d0: DocumentMut| read_as(b@, d0) && #[trigger] deny_reconciled(d0, *requirement, out),
            },
    {
        match read_document(current, "deny.toml") {
            Ok(doc) => {
                let mut doc = doc;
                let ghost d0 = doc;
                let mut findings: Vec<Finding> = Vec::new();
                assert(finding_views(findings@) =~= Seq::<FindingView>::empty());
                apply(&mut doc, requirement, &mut findings);
                let expected_bytes = document_bytes(&doc);
                let out = EngineOutput { expected_bytes, findings };
                assert(deny_applied(d0, doc, *requirement, seq![], finding_views(out.findings@)));
                assert(deny_reconciled(d0, *requirement, out));
                out
            },
            Err(finding) => {
                let findings = vec![finding];
                assert(finding_views(findings@) =~= seq![finding_view(findings@[0])]);
                EngineOutput { expected_bytes: Vec::new(), findings }
            },
        }
    }
}

} // verus!
