//! What `rustfmt.toml` policies require, and how the requirements of several
//! policies merge.

use vstd::prelude::*;
use crate::items::{FileItem, ItemRequirements, ResolvedItemEntry, item_conflicts, item_flat, merges_items, resolve_items, sorted_identities};
use crate::lists::{ListRequirements, ResolvedListRequirements, flat_pairs, exact_items, list_conflicts, list_resolution, resolve_list, clone_strings};
use crate::requirements::{ConfigScalar, Provenance};
use crate::scalar_merge::{ConflictEntry, ConflictView, ResolvedRequirement, conflict_views, contributor_views};
use crate::scalar_value::{ScalarValue, signed_decimal_text, spec_decimal, spec_bool_text};
use crate::settings::{RustfmtListSetting, RustfmtScalarSetting};
use crate::text::{owned, str_eq, join2, join3};
use crate::text_order::{string_views, strictly_sorted, sort_dedup, lemma_sorted_same_set_equal};

verus! {

/// What a policy asserts of one `rustfmt.toml` scalar setting, with the
/// message reported when the file breaks it: the value, one of several
/// texts, that the setting is present, or that it is absent.
#[derive(Debug)]
pub enum RustfmtScalarAssertion {
    Equals(ConfigScalar, String),
    OneOf(Vec<String>, String),
    Present(String),
    Absent(String),
}

/// The merged assertion of a setting; a `OneOf` holds its texts sorted and
/// without repeats.
#[derive(Debug)]
pub enum ResolvedRustfmtScalarAssertion {
    Equals(ConfigScalar, String),
    OneOf(Vec<String>, String),
    Present(String),
    Absent(String),
}

/// An assertion seen as a tag (0 equals, 1 one of, 2 present, 3 absent),
/// its value, its texts and its message.
pub type AssertionView = (int, Option<ConfigScalar>, Seq<Seq<char>>, Seq<char>);

impl View for RustfmtScalarAssertion {
    type V = AssertionView;

    open spec fn view(&self) -> AssertionView {
        match *self {
            RustfmtScalarAssertion::Equals(v, m) => (0, Some(v), seq![], m@),
            RustfmtScalarAssertion::OneOf(vs, m) => (1, None, string_views(vs@), m@),
            RustfmtScalarAssertion::Present(m) => (2, None, seq![], m@),
            RustfmtScalarAssertion::Absent(m) => (3, None, seq![], m@),
        }
    }
}

impl View for ResolvedRustfmtScalarAssertion {
    type V = AssertionView;

    open spec fn view(&self) -> AssertionView {
        match *self {
            ResolvedRustfmtScalarAssertion::Equals(v, m) => (0, Some(v), seq![], m@),
            ResolvedRustfmtScalarAssertion::OneOf(vs, m) => (1, None, string_views(vs@), m@),
            ResolvedRustfmtScalarAssertion::Present(m) => (2, None, seq![], m@),
            ResolvedRustfmtScalarAssertion::Absent(m) => (3, None, seq![], m@),
        }
    }
}

impl Clone for RustfmtScalarAssertion {
    fn clone(&self) -> (r: Self)
        ensures
            r@ == self@,
    {
        match self {
            RustfmtScalarAssertion::Equals(v, m) => RustfmtScalarAssertion::Equals(v.clone(), m.clone()),
            RustfmtScalarAssertion::OneOf(vs, m) => RustfmtScalarAssertion::OneOf(clone_strings(vs), m.clone()),
            RustfmtScalarAssertion::Present(m) => RustfmtScalarAssertion::Present(m.clone()),
            RustfmtScalarAssertion::Absent(m) => RustfmtScalarAssertion::Absent(m.clone()),
        }
    }
}

/// Whether two values are the same value.
pub open spec fn same_config_value(a: Option<ConfigScalar>, b: Option<ConfigScalar>) -> bool {
    match (a, b) {
        (Some(x), Some(y)) => x.spec_same(&y),
        (None, None) => true,
        _ => false,
    }
}

/// Whether two assertions assert the same thing, messages aside; the texts
/// of `OneOf` compare as sets.
pub open spec fn same_rustfmt_assertion(a: AssertionView, b: AssertionView) -> bool {
    &&& a.0 == b.0
    &&& same_config_value(a.1, b.1)
    &&& forall|x: Seq<char>| a.2.contains(x) <==> b.2.contains(x)
}

/// The values of a list, sorted and without repeats.
pub open spec fn sorted_texts(vs: Seq<Seq<char>>) -> Seq<Seq<char>> {
    choose|t: Seq<Seq<char>>| strictly_sorted(t) && forall|x: Seq<char>| t.contains(x) <==> vs.contains(x)
}

/// The merged form of an assertion: the same, with `OneOf` texts sorted and
/// without repeats.
pub open spec fn resolved_view(a: AssertionView) -> AssertionView {
    if a.0 == 1 { (a.0, a.1, sorted_texts(a.2), a.3) } else { a }
}

proof fn lemma_sorted_sets(a: Seq<Seq<char>>, b: Seq<Seq<char>>, sa: Seq<Seq<char>>, sb: Seq<Seq<char>>)
    requires
        strictly_sorted(sa),
        strictly_sorted(sb),
        forall|x: Seq<char>| sa.contains(x) <==> a.contains(x),
        forall|x: Seq<char>| sb.contains(x) <==> b.contains(x),
    ensures
        (forall|x: Seq<char>| a.contains(x) <==> b.contains(x)) <==> sa == sb,
{
    if forall|x: Seq<char>| a.contains(x) <==> b.contains(x) {
        assert forall|x: Seq<char>| sa.contains(x) <==> sb.contains(x) by {
            assert(sa.contains(x) <==> a.contains(x));
            assert(sb.contains(x) <==> b.contains(x));
        }
        lemma_sorted_same_set_equal(sa, sb);
    }
    if sa == sb {
        assert forall|x: Seq<char>| a.contains(x) <==> b.contains(x) by {
            assert(sa.contains(x) <==> a.contains(x));
            assert(sb.contains(x) <==> b.contains(x));
        }
    }
}

fn same_texts_as_sets(a: &Vec<String>, b: &Vec<String>) -> (r: bool)
    ensures
        r == forall|x: Seq<char>| string_views(a@).contains(x) <==> string_views(b@).contains(x),
{
    let sa = sort_dedup(a);
    let sb = sort_dedup(b);
    proof {
        lemma_sorted_sets(string_views(a@), string_views(b@), string_views(sa@), string_views(sb@));
    }
    if sa.len() != sb.len() {
        assert(string_views(sa@).len() != string_views(sb@).len());
        return false;
    }
    let mut i: usize = 0;
    while i < sa.len()
        invariant
            sa.len() == sb.len(),
            i <= sa.len(),
            forall|k: int| 0 <= k < i ==> sa@[k]@ == sb@[k]@,
            (forall|x: Seq<char>| string_views(a@).contains(x) <==> string_views(b@).contains(x))
                <==> string_views(sa@) == string_views(sb@),
        decreases sa.len() - i,
    {
        if !str_eq(sa[i].as_str(), sb[i].as_str()) {
            assert(string_views(sa@)[i as int] != string_views(sb@)[i as int]);
            return false;
        }
        i = i + 1;
    }
    assert(string_views(sa@) =~= string_views(sb@));
    true
}

/// What an assertion does to a file that lacks the setting: writes it, or
/// only checks.
#[derive(Debug, Clone, Copy, PartialEq, Eq, Structural)]
pub enum OnEmpty {
    Writes,
    ChecksOnly,
}

impl RustfmtScalarAssertion {
    /// `Equals` and `Absent` settle a setting by writing; `OneOf` and
    /// `Present` only check.
    pub fn on_empty(&self) -> (r: OnEmpty)
        ensures
            r == (if self is Equals || self is Absent { OnEmpty::Writes } else { OnEmpty::ChecksOnly }),
    {
        match self {
            RustfmtScalarAssertion::Equals(..) | RustfmtScalarAssertion::Absent(..) => OnEmpty::Writes,
            _ => OnEmpty::ChecksOnly,
        }
    }
}

impl ResolvedRustfmtScalarAssertion {
    /// `Equals` and `Absent` settle a setting by writing; `OneOf` and
    /// `Present` only check.
    pub fn on_empty(&self) -> (r: OnEmpty)
        ensures
            r == (if self is Equals || self is Absent { OnEmpty::Writes } else { OnEmpty::ChecksOnly }),
    {
        match self {
            ResolvedRustfmtScalarAssertion::Equals(..) | ResolvedRustfmtScalarAssertion::Absent(..) => OnEmpty::Writes,
            _ => OnEmpty::ChecksOnly,
        }
    }
}

impl RustfmtScalarAssertion {
    /// Whether `self` and `other` assert the same thing, messages aside;
    /// the texts of `OneOf` compare as sets.
    pub fn same_assertion(&self, other: &Self) -> (r: bool)
        ensures
            r == same_rustfmt_assertion(self@, other@),
    {
        match self {
            RustfmtScalarAssertion::Equals(a, _) => match other {
                RustfmtScalarAssertion::Equals(b, _) => {
                    let same = a.same_value(b);
                    assert(same_config_value(self@.1, other@.1) == same);
                    assert(self@.2 == other@.2);
                    assert(same_rustfmt_assertion(self@, other@) == same);
                    same
                },
                _ => {
                    assert(other@.0 != 0);
                    false
                },
            },
            RustfmtScalarAssertion::OneOf(a, _) => match other {
                RustfmtScalarAssertion::OneOf(b, _) => {
                    let same = same_texts_as_sets(a, b);
                    assert(self@.2 == string_views(a@));
                    assert(other@.2 == string_views(b@));
                    assert(same_rustfmt_assertion(self@, other@) == same);
                    same
                },
                _ => false,
            },
            RustfmtScalarAssertion::Present(_) => match other {
                RustfmtScalarAssertion::Present(_) => true,
                _ => false,
            },
            RustfmtScalarAssertion::Absent(_) => match other {
                RustfmtScalarAssertion::Absent(_) => true,
                _ => false,
            },
        }
    }

    /// The merged form of this assertion.
    pub fn resolve(&self) -> (r: ResolvedRustfmtScalarAssertion)
        ensures
            r@ == resolved_view(self@),
    {
        match self {
            RustfmtScalarAssertion::Equals(v, m) => ResolvedRustfmtScalarAssertion::Equals(v.clone(), m.clone()),
            RustfmtScalarAssertion::OneOf(vs, m) => {
                let sorted = sort_dedup(vs);
                proof {
                    let t = sorted_texts(string_views(vs@));
                    lemma_sorted_same_set_equal(t, string_views(sorted@));
                }
                ResolvedRustfmtScalarAssertion::OneOf(sorted, m.clone())
            },
            RustfmtScalarAssertion::Present(m) => ResolvedRustfmtScalarAssertion::Present(m.clone()),
            RustfmtScalarAssertion::Absent(m) => ResolvedRustfmtScalarAssertion::Absent(m.clone()),
        }
    }
}

/// The text that std's `Debug` gives a string: quoted and escaped.
pub uninterp spec fn debug_text(s: Seq<char>) -> Seq<char>;

/// The `Debug` text of a string, by `format!("{:?}", s)`: the string in
/// double quotes, with quotes, backslashes and control characters escaped.
/// The contract names the result and claims nothing more of it.
#[verifier::external_body]
pub fn debug_str(s: &str) -> (r: String)
    ensures
        r@ == debug_text(s@),
{
    format!("{:?}", s)
}

/// The texts of values in the form `"a", "b"`, each in its `Debug` form.
pub open spec fn spec_debug_join(vs: Seq<Seq<char>>) -> Seq<char>
    decreases vs.len(),
{
    if vs.len() == 0 {
        seq![]
    } else if vs.len() == 1 {
        debug_text(vs[0])
    } else {
        spec_debug_join(vs.drop_last()) + ", "@ + debug_text(vs.last())
    }
}

/// Values in `Debug` form, separated by `, `.
pub fn debug_join(vs: &Vec<String>) -> (r: String)
    ensures
        r@ == spec_debug_join(string_views(vs@)),
{
    let mut out = owned("");
    let mut i: usize = 0;
    proof {
        reveal_strlit("");
    }
    while i < vs.len()
        invariant
            i <= vs.len(),
            out@ == spec_debug_join(string_views(vs@).subrange(0, i as int)),
        decreases vs.len() - i,
    {
        let d = debug_str(vs[i].as_str());
        let ghost sub = string_views(vs@).subrange(0, i + 1);
        assert(sub.drop_last() =~= string_views(vs@).subrange(0, i as int));
        if i == 0 {
            out = d;
            assert(sub.len() == 1);
        } else {
            out = join3(out.as_str(), ", ", d.as_str());
            proof {
                reveal_strlit(", ");
            }
        }
        i = i + 1;
    }
    assert(string_views(vs@).subrange(0, vs@.len() as int) =~= string_views(vs@));
    out
}

/// The `Debug` text of a value: `Str("..")`, `Int(..)` or `Bool(..)`.
pub open spec fn spec_config_debug(v: ConfigScalar) -> Seq<char> {
    match v {
        ConfigScalar::Str(s) => "Str("@ + debug_text(s@) + ")"@,
        ConfigScalar::Int(i) => "Int("@ + (if i < 0 { "-"@ + spec_decimal((-i) as nat) } else { spec_decimal(i as nat) }) + ")"@,
        ConfigScalar::Bool(b) => "Bool("@ + spec_bool_text(b) + ")"@,
    }
}

/// How an assertion is named in a conflict: `equals <value>`, `one of
/// {<texts>}` (sorted), `present` or `absent`.
pub open spec fn spec_render_rustfmt_assertion(a: AssertionView) -> Seq<char> {
    if a.0 == 0 {
        match a.1 {
            Some(v) => "equals "@ + spec_config_debug(v),
            None => seq![],
        }
    } else if a.0 == 1 {
        "one of {"@ + spec_debug_join(sorted_texts(a.2)) + "}"@
    } else if a.0 == 2 {
        "present"@
    } else {
        "absent"@
    }
}

fn config_debug(v: &ConfigScalar) -> (r: String)
    ensures
        r@ == spec_config_debug(*v),
{
    proof {
        reveal_strlit("Str(");
        reveal_strlit("Int(");
        reveal_strlit("Bool(");
        reveal_strlit(")");
        reveal_strlit("true");
        reveal_strlit("false");
    }
    match v {
        ConfigScalar::Str(s) => {
            let d = debug_str(s.as_str());
            join3("Str(", d.as_str(), ")")
        },
        ConfigScalar::Int(i) => {
            let t = signed_decimal_text(*i);
            join3("Int(", t.as_str(), ")")
        },
        ConfigScalar::Bool(b) => {
            let t = b.render();
            join3("Bool(", t.as_str(), ")")
        },
    }
}

/// How an assertion is named in a conflict.
pub fn render_rustfmt_assertion(a: &RustfmtScalarAssertion) -> (r: String)
    ensures
        r@ == spec_render_rustfmt_assertion(a@),
{
    proof {
        reveal_strlit("equals ");
        reveal_strlit("one of {");
        reveal_strlit("}");
        reveal_strlit("present");
        reveal_strlit("absent");
    }
    match a {
        RustfmtScalarAssertion::Equals(v, _) => {
            let d = config_debug(v);
            join2("equals ", d.as_str())
        },
        RustfmtScalarAssertion::OneOf(vs, _) => {
            let sorted = sort_dedup(vs);
            proof {
                lemma_sorted_same_set_equal(sorted_texts(string_views(vs@)), string_views(sorted@));
            }
            let d = debug_join(&sorted);
            join3("one of {", d.as_str(), "}")
        },
        RustfmtScalarAssertion::Present(_) => owned("present"),
        RustfmtScalarAssertion::Absent(_) => owned("absent"),
    }
}

/// A glob over paths that the `ignore` list must not hold.
#[derive(Debug)]
pub struct RustfmtIgnorePathGlob {
    pub glob: String,
}

impl View for RustfmtIgnorePathGlob {
    type V = Seq<char>;

    open spec fn view(&self) -> Seq<char> {
        self.glob@
    }
}

impl FileItem for RustfmtIgnorePathGlob {
    open spec fn spec_identity(&self) -> Seq<char> {
        self.glob@
    }

    fn identity(&self) -> (r: String) {
        self.glob.clone()
    }

    fn same_item(&self, other: &Self) -> (r: bool) {
        str_eq(self.glob.as_str(), other.glob.as_str())
    }

    fn duplicate(&self) -> (r: Self) {
        RustfmtIgnorePathGlob { glob: self.glob.clone() }
    }
}

impl RustfmtIgnorePathGlob {
    /// The identity under which requirements for this glob merge: the glob.
    pub fn merge_identity(&self) -> (r: String)
        ensures
            r@ == self.glob@,
    {
        self.glob.clone()
    }

    /// The glob's text.
    pub fn render(&self) -> (r: String)
        ensures
            r@ == self.glob@,
    {
        self.glob.clone()
    }
}

/// The globs one policy forbids in a list setting, each with a message.
#[derive(Debug)]
pub struct ForbiddenGlobRequirements<G> {
    pub globs: Vec<(G, String)>,
}

impl<G> Default for ForbiddenGlobRequirements<G> {
    fn default() -> (r: Self)
        ensures
            r.globs@.len() == 0,
    {
        ForbiddenGlobRequirements { globs: Vec::new() }
    }
}

/// The merged forbidden globs, sorted by glob, each with every policy that
/// forbids it.
#[derive(Debug)]
pub struct ResolvedForbiddenGlobRequirements<G> {
    pub globs: Vec<ResolvedItemEntry<G>>,
}

/// Required `ignore` paths that a forbidden glob matches, and those globs.
#[derive(Debug)]
pub struct RustfmtForbiddenIgnoreGlobConflictBlocks {
    pub required: Vec<String>,
    pub path_globs: Vec<String>,
}

} // verus!
