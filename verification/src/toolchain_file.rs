//! Checks of what `[toolchain]` already holds: fields of the wrong shape,
//! and a path that clashes with a channel.

use vstd::prelude::*;
use toml_edit::DocumentMut;
use crate::findings::{Finding, FindingView, finding_views, policies};
use crate::rustfmt_reconcile::value_view;
use crate::text::is_empty_str;
use crate::text_order::string_views;
use crate::toml_doc::{lemma_way_open_in_table, TomlElement, TomlValue, TomlView, remove_in_table, removed, toml_at};
use crate::toolchain_fields::{read_tc, tc_item};
use crate::toolchain_model::ResolvedRustToolchainTomlRequirements;
use crate::toolchain_table::{has_channel_based, has_tc_table, requirement_attribution, requirement_policies, spec_has_channel_based, unwritable};
use crate::toolchain_values::{RustToolchainPath, RustToolchainProfile, surely_relative};

verus! {

/// A string field holding anything but non-empty text.
pub open spec fn string_field_issue(cur: Option<TomlView>) -> bool {
    cur matches Some(v) && (v.0 != 0 || v.1.len() == 0)
}

/// A profile field holding anything but a rustup profile.
pub open spec fn profile_field_issue(cur: Option<TomlView>) -> bool {
    cur matches Some(v) && (v.0 != 0 || RustToolchainProfile::spec_parse(v.1) is None)
}

/// A path field holding anything but non-empty text that the platform
/// takes as absolute (`relative` says whether it did not).
pub open spec fn path_field_issue(cur: Option<TomlView>, relative: bool) -> bool {
    cur matches Some(v) && (v.0 != 0 || v.1.len() == 0 || relative)
}

/// The first fault of array elements, scanning in order with the strings
/// `seen` before them: a non-string, or an empty or repeated string.
pub open spec fn element_issue(es: Seq<(bool, Seq<char>)>, seen: Seq<Seq<char>>) -> Option<Seq<char>>
    decreases es.len(),
{
    if es.len() == 0 {
        None
    } else if !es[0].0 {
        Some("array of non-empty strings"@)
    } else if es[0].1.len() == 0 || seen.contains(es[0].1) {
        Some("array of unique non-empty strings"@)
    } else {
        element_issue(es.drop_first(), seen.push(es[0].1))
    }
}

/// What is wrong with a list field, if anything.
pub open spec fn list_field_issue(cur: Option<TomlView>) -> Option<Seq<char>> {
    match cur {
        Some(v) => if v.0 != 3 { Some("array of non-empty strings"@) } else { element_issue(v.4, seq![]) },
        None => None,
    }
}

/// One unwritable finding when `bad`.
pub open spec fn issue_finding(bad: bool, key: Seq<char>, expected: Seq<char>, attribution: Seq<Seq<char>>) -> Seq<FindingView> {
    if bad { seq![unwritable(key, expected, attribution)] } else { seq![] }
}

/// The findings of checking what `[toolchain]` holds: channel, profile,
/// path, components, then targets.
pub open spec fn file_field_findings(doc: DocumentMut, attribution: Seq<Seq<char>>, relative: bool) -> Seq<FindingView> {
    issue_finding(string_field_issue(tc_item(doc, "channel"@)), "toolchain.channel"@, "non-empty string"@, attribution)
        + issue_finding(profile_field_issue(tc_item(doc, "profile"@)), "toolchain.profile"@, "rustup profile"@, attribution)
        + issue_finding(path_field_issue(tc_item(doc, "path"@), relative), "toolchain.path"@, "absolute path"@, attribution)
        + match list_field_issue(tc_item(doc, "components"@)) {
            Some(e) => seq![unwritable("toolchain.components"@, e, attribution)],
            None => seq![],
        }
        + match list_field_issue(tc_item(doc, "targets"@)) {
            Some(e) => seq![unwritable("toolchain.targets"@, e, attribution)],
            None => seq![],
        }
}

fn string_issue(cur: &Option<TomlValue>) -> (r: bool)
    ensures
        r == string_field_issue(value_view(*cur)),
{
    match cur {
        Some(TomlValue::Str { value, .. }) => is_empty_str(value.as_str()),
        Some(_) => true,
        None => false,
    }
}

fn profile_issue(cur: &Option<TomlValue>) -> (r: bool)
    ensures
        r == profile_field_issue(value_view(*cur)),
{
    match cur {
        Some(TomlValue::Str { value, .. }) => RustToolchainProfile::parse(value.as_str()).is_err(),
        Some(_) => true,
        None => false,
    }
}

fn path_issue(cur: &Option<TomlValue>) -> (r: bool)
    ensures
        r == path_field_issue(value_view(*cur), false) || (r && path_field_issue(value_view(*cur), true)),
        (value_view(*cur) matches Some(v) && v.0 == 0 && surely_relative(v.1)) ==> r,
{
    match cur {
        Some(TomlValue::Str { value, .. }) => {
            if is_empty_str(value.as_str()) {
                true
            } else {
                RustToolchainPath::new(value.as_str()).is_err()
            }
        },
        Some(_) => true,
        None => false,
    }
}

fn elements_issue(elements: &Vec<TomlElement>) -> (r: Option<&'static str>)
    ensures
        match r {
            Some(e) => element_issue(crate::toml_doc::element_views(elements@), seq![]) == Some(e@),
            None => element_issue(crate::toml_doc::element_views(elements@), seq![]) is None,
        },
{
    let ghost ev = crate::toml_doc::element_views(elements@);
    let mut seen: Vec<String> = Vec::new();
    let mut i: usize = 0;
    proof {
        reveal_strlit("array of non-empty strings");
        reveal_strlit("array of unique non-empty strings");
    }
    assert(ev.subrange(0, ev.len() as int) =~= ev);
    assert(string_views(seen@) =~= Seq::<Seq<char>>::empty());
    while i < elements.len()
        invariant
            i <= elements.len(),
            ev == crate::toml_doc::element_views(elements@),
            element_issue(ev, seq![]) == element_issue(ev.subrange(i as int, ev.len() as int), string_views(seen@)),
        decreases elements.len() - i,
    {
        let ghost rest = ev.subrange(i as int, ev.len() as int);
        assert(rest[0] == ev[i as int]);
        assert(rest.drop_first() =~= ev.subrange(i + 1, ev.len() as int));
        match &elements[i] {
            TomlElement::Other(_) => {
                return Some("array of non-empty strings");
            },
            TomlElement::Str(s) => {
                if is_empty_str(s.as_str()) || crate::lists::strings_contain(&seen, s.as_str()) {
                    return Some("array of unique non-empty strings");
                }
                let ghost before = seen@;
                seen.push(s.clone());
                assert(string_views(seen@) =~= string_views(before).push(s@));
            },
        }
        i = i + 1;
    }
    None
}

fn list_issue(cur: &Option<TomlValue>) -> (r: Option<&'static str>)
    ensures
        match r {
            Some(e) => list_field_issue(value_view(*cur)) == Some(e@),
            None => list_field_issue(value_view(*cur)) is None,
        },
{
    proof {
        reveal_strlit("array of non-empty strings");
    }
    match cur {
        Some(TomlValue::Array { elements, .. }) => elements_issue(elements),
        Some(_) => Some("array of non-empty strings"),
        None => None,
    }
}

fn push_issue(findings: &mut Vec<Finding>, bad: bool, key: &str, expected: &str, attribution: &Vec<crate::requirements::Provenance>)
    ensures
        finding_views(final(findings)@) == finding_views(old(findings)@) + issue_finding(bad, key@, expected@, policies(attribution@)),
{
    let ghost before = finding_views(findings@);
    if bad {
        findings.push(Finding::UnwritableRequiredKey {
            key: crate::text::owned(key),
            expected: crate::text::owned(expected),
            attribution: crate::findings::clone_attribution(attribution),
        });
        assert(finding_views(findings@) =~= before + issue_finding(bad, key@, expected@, policies(attribution@)));
    } else {
        assert(finding_views(findings@) =~= before + issue_finding(bad, key@, expected@, policies(attribution@)));
    }
}

/// Reports each field of `[toolchain]` whose value cannot be what its
/// kind needs: channel, profile, path, components, targets. Whether a path
/// is absolute is the platform's answer.
pub fn report_invalid_file_fields(doc: &DocumentMut, requirement: &ResolvedRustToolchainTomlRequirements, findings: &mut Vec<Finding>)
    ensures
        exists|relative: bool| {
            &&& finding_views(final(findings)@) == finding_views(old(findings)@)
                + #[trigger] file_field_findings(*doc, requirement_policies(*requirement), relative)
            &&& relative ==> (tc_item(*doc, "path"@) matches Some(v) && v.0 == 0 && v.1.len() > 0)
            &&& (tc_item(*doc, "path"@) matches Some(v) && v.0 == 0 && v.1.len() > 0 && surely_relative(v.1)) ==> relative
        },
{
    proof {
        reveal_strlit("toolchain.channel");
        reveal_strlit("non-empty string");
        reveal_strlit("toolchain.profile");
        reveal_strlit("rustup profile");
        reveal_strlit("toolchain.path");
        reveal_strlit("absolute path");
        reveal_strlit("toolchain.components");
        reveal_strlit("toolchain.targets");
    }
    let attribution = requirement_attribution(requirement);
    let ghost a = policies(attribution@);
    let ghost f0 = finding_views(findings@);
    let channel = read_tc(doc, "channel");
    push_issue(findings, string_issue(&channel), "toolchain.channel", "non-empty string", &attribution);
    let profile = read_tc(doc, "profile");
    push_issue(findings, profile_issue(&profile), "toolchain.profile", "rustup profile", &attribution);
    let path = read_tc(doc, "path");
    let bad_path = path_issue(&path);
    push_issue(findings, bad_path, "toolchain.path", "absolute path", &attribution);
    let ghost relative = !path_field_issue(value_view(path), false) && bad_path;
    let ghost f3 = finding_views(findings@);
    let components = read_tc(doc, "components");
    match list_issue(&components) {
        Some(e) => {
            let ghost b = finding_views(findings@);
            push_issue(findings, true, "toolchain.components", e, &attribution);
        },
        None => {},
    }
    let ghost f4 = finding_views(findings@);
    let targets = read_tc(doc, "targets");
    match list_issue(&targets) {
        Some(e) => {
            push_issue(findings, true, "toolchain.targets", e, &attribution);
        },
        None => {},
    }
    proof {
        assert(bad_path == path_field_issue(tc_item(*doc, "path"@), relative));
        let c = match list_field_issue(tc_item(*doc, "components"@)) {
            Some(e) => seq![unwritable("toolchain.components"@, e, a)],
            None => Seq::<FindingView>::empty(),
        };
        let t = match list_field_issue(tc_item(*doc, "targets"@)) {
            Some(e) => seq![unwritable("toolchain.targets"@, e, a)],
            None => Seq::<FindingView>::empty(),
        };
        assert(f4 =~= f3 + c);
        assert(finding_views(findings@) =~= f4 + t);
        assert(finding_views(findings@) =~= f0 + file_field_findings(*doc, a, relative));
    }
}

/// What removing a path that clashes leaves: a path beside a channel in the
/// file is removed and reported; otherwise a path in the file is removed
/// and reported when channel-based fields are required.
pub open spec fn file_conflicts_resolved(old: DocumentMut, new: DocumentMut, f0: Seq<FindingView>, f1: Seq<FindingView>, r: ResolvedRustToolchainTomlRequirements) -> bool {
    let p = seq!["toolchain"@, "path"@];
    let a = requirement_policies(r);
    if tc_item(old, "channel"@) is Some && tc_item(old, "path"@) is Some {
        removed(old, new, p) && f1 == f0.push(unwritable("toolchain.path"@, "absent when channel is set"@, a))
    } else if tc_item(old, "path"@) is Some && spec_has_channel_based(r) {
        removed(old, new, p) && f1 == f0.push(unwritable("toolchain.path"@, "absent when channel-based fields are required"@, a))
    } else {
        new == old && f1 == f0
    }
}

/// Removes a path in `[toolchain]` that cannot stand: beside a channel, or
/// when channel-based fields are required.
pub fn report_existing_file_conflicts(doc: &mut DocumentMut, requirement: &ResolvedRustToolchainTomlRequirements, findings: &mut Vec<Finding>)
    requires
        toml_at(*old(doc), seq!["toolchain"@]) matches Some(t) && t.0 == 5,
    ensures
        file_conflicts_resolved(*old(doc), *final(doc), finding_views(old(findings)@), finding_views(final(findings)@), *requirement),
{
    proof {
        reveal_strlit("toolchain.path");
        reveal_strlit("absent when channel is set");
        reveal_strlit("absent when channel-based fields are required");
    }
    let ghost f0 = finding_views(findings@);
    let ghost a = requirement_policies(*requirement);
    let channel = read_tc(doc, "channel");
    let path = read_tc(doc, "path");
    if channel.is_some() && path.is_some() {
        push_issue(findings, true, "toolchain.path", "absent when channel is set", &requirement_attribution(requirement));
        assert(finding_views(findings@) =~= f0.push(unwritable("toolchain.path"@, "absent when channel is set"@, a)));
        proof {
            lemma_way_open_in_table(*doc, "toolchain"@, "path"@);
        }
        let _ = remove_in_table(doc, "toolchain", "path");
        return;
    }
    if path.is_some() && has_channel_based(requirement) {
        push_issue(findings, true, "toolchain.path", "absent when channel-based fields are required", &requirement_attribution(requirement));
        assert(finding_views(findings@) =~= f0.push(unwritable("toolchain.path"@, "absent when channel-based fields are required"@, a)));
        proof {
            lemma_way_open_in_table(*doc, "toolchain"@, "path"@);
        }
        let _ = remove_in_table(doc, "toolchain", "path");
    }
}

} // verus!
