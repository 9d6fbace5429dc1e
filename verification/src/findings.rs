//! What reconciling a file reports, and what it produces.

use vstd::prelude::*;
use crate::requirements::Provenance;
use crate::text::owned;

verus! {

/// One thing reconciling found wrong with a file or with the requirements.
#[derive(Debug)]
pub enum Finding {
    /// A setting differs from what is required: its key, its current text
    /// (if any), what is expected, the requirement's message and the
    /// policies behind it.
    Mismatch {
        key: String,
        current: Option<String>,
        expected: String,
        message: String,
        attribution: Vec<Provenance>,
    },
    /// Requirements that cannot be met together.
    InvalidRequirements {
        key: String,
        message: String,
        contributors: Vec<(String, String)>,
    },
    /// A required setting that cannot be written as the file stands.
    UnwritableRequiredKey {
        key: String,
        expected: String,
        attribution: Vec<Provenance>,
    },
    /// The file is not valid TOML.
    ParseError {
        path: String,
        message: String,
    },
}

/// A finding seen as a tag (0 mismatch, 1 invalid requirements,
/// 2 unwritable key, 3 parse error), its key (or path), current text,
/// expected text, message, attributed policies and contributors.
pub type FindingView = (int, Seq<char>, Option<Seq<char>>, Seq<char>, Seq<char>, Seq<Seq<char>>, Seq<(Seq<char>, Seq<char>)>);

/// The policies of an attribution.
pub open spec fn policies(a: Seq<Provenance>) -> Seq<Seq<char>> {
    a.map_values(|p: Provenance| p.policy@)
}

/// The view of an optional text.
pub open spec fn opt_text(o: Option<String>) -> Option<Seq<char>> {
    match o {
        Some(s) => Some(s@),
        None => None,
    }
}

/// The text pairs of contributors.
pub open spec fn pair_views(c: Seq<(String, String)>) -> Seq<(Seq<char>, Seq<char>)> {
    c.map_values(|x: (String, String)| (x.0@, x.1@))
}

/// The view of a finding.
pub open spec fn finding_view(f: Finding) -> FindingView {
    match f {
        Finding::Mismatch { key, current, expected, message, attribution } =>
            (0, key@, opt_text(current), expected@, message@, policies(attribution@), seq![]),
        Finding::InvalidRequirements { key, message, contributors } =>
            (1, key@, None, seq![], message@, seq![], pair_views(contributors@)),
        Finding::UnwritableRequiredKey { key, expected, attribution } =>
            (2, key@, None, expected@, seq![], policies(attribution@), seq![]),
        Finding::ParseError { path, message } =>
            (3, path@, None, seq![], message@, seq![], seq![]),
    }
}

/// The views of findings.
pub open spec fn finding_views(fs: Seq<Finding>) -> Seq<FindingView> {
    fs.map_values(|f: Finding| finding_view(f))
}

/// The view of a mismatch.
pub open spec fn mismatch(key: Seq<char>, current: Option<Seq<char>>, expected: Seq<char>, message: Seq<char>, attribution: Seq<Seq<char>>) -> FindingView {
    (0, key, current, expected, message, attribution, seq![])
}

/// What reconciling a file produces: the bytes the file should hold, and
/// what was found.
#[derive(Debug)]
pub struct EngineOutput {
    pub expected_bytes: Vec<u8>,
    pub findings: Vec<Finding>,
}

/// A copy of a list of provenances.
pub fn clone_attribution(a: &Vec<Provenance>) -> (r: Vec<Provenance>)
    ensures
        r@ == a@,
{
    let mut out: Vec<Provenance> = Vec::new();
    let mut i: usize = 0;
    while i < a.len()
        invariant
            i <= a.len(),
            out@ == a@.subrange(0, i as int),
        decreases a.len() - i,
    {
        out.push(a[i].clone());
        i = i + 1;
        assert(out@ =~= a@.subrange(0, i as int));
    }
    assert(out@ =~= a@);
    out
}

/// Adds a mismatch finding.
pub fn push_mismatch(
    findings: &mut Vec<Finding>,
    key: String,
    current: Option<String>,
    expected: String,
    message: &str,
    attribution: &Vec<Provenance>,
)
    ensures
        finding_views(final(findings)@) == finding_views(old(findings)@).push(
            mismatch(key@, opt_text(current), expected@, message@, policies(attribution@))),
{
    let ghost before = findings@;
    findings.push(Finding::Mismatch {
        key,
        current,
        expected,
        message: owned(message),
        attribution: clone_attribution(attribution),
    });
    assert(finding_views(findings@) =~= finding_views(before).push(finding_views(findings@).last()));
}

} // verus!
