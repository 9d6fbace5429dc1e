//! How `deny.toml` scalar values are read from and written to the file, and
//! what one scalar assertion decides about the value a field holds.

use vstd::prelude::*;
use crate::deny_confidence::{DenyConfidenceThreshold, ValueOrder, spec_confidence_millionths, spec_dot_index};
use crate::deny_text::{DenyDuration, DenyNonEmptyString, spec_is_duration};
use crate::deny_values::{DenyAdvisoryScope, DenyGitSpec, DenyGraphHighlight, DenyLintLevel};
use crate::scalar_value::{ScalarValue, decimal_text, signed_decimal_text, spec_decimal};
use crate::text::{chars_of, join2, owned, spec_trim, trim_blanks};
use crate::toml_doc::{TomlValue, TomlView, TomlWrite, WriteView, holds_written, simple_decimal, writable, write_view};

verus! {

/// The plain key two scalar values are compared by: a number (for ordered
/// values, what orders them) and a text.
pub type ScalarKey = (int, Seq<char>);

/// The order of two keys by their numbers, for ordered values.
pub open spec fn key_order(ordered: bool, a: ScalarKey, b: ScalarKey) -> Option<ValueOrder> {
    if ordered {
        Some(if a.0 < b.0 {
            ValueOrder::Less
        } else if a.0 == b.0 {
            ValueOrder::Equal
        } else {
            ValueOrder::Greater
        })
    } else {
        None
    }
}

/// A scalar value of `deny.toml`: how an item reads as one, and what
/// writing one writes.
pub trait DenyTomlScalar: ScalarValue {
    /// The key this value is compared by.
    spec fn spec_key(&self) -> ScalarKey;

    /// Whether values of this kind are ordered by their key's number.
    spec fn spec_ordered() -> bool;

    /// The key of the value an item reads as, when it reads as one.
    spec fn spec_item_key(v: TomlView) -> Option<ScalarKey>;

    /// What writing this value writes.
    spec fn spec_write(&self) -> WriteView;

    proof fn lemma_key(&self, other: &Self)
        ensures
            self.spec_same(other) <==> self.spec_key() == other.spec_key(),
            self.spec_order(other) == key_order(Self::spec_ordered(), self.spec_key(), other.spec_key()),
    ;

    /// Whether what writing this value writes reads back as it.
    spec fn spec_round_trips(&self) -> bool;

    proof fn lemma_written_reads_back(&self, v: TomlView)
        requires
            self.spec_round_trips(),
            holds_written(v, self.spec_write()),
        ensures
            Self::spec_item_key(v) == Some(self.spec_key()),
    ;

    fn parse_item(v: &TomlValue) -> (r: Option<Self>)
        ensures
            match r {
                Some(x) => Self::spec_item_key(v@) == Some(x.spec_key()),
                None => Self::spec_item_key(v@) is None,
            },
    ;

    fn write_item(&self) -> (r: TomlWrite)
        ensures
            write_view(r) == self.spec_write(),
            writable(write_view(r)),
    ;
}

impl DenyTomlScalar for bool {
    open spec fn spec_key(&self) -> ScalarKey {
        (if *self { 1 } else { 0 }, seq![])
    }

    open spec fn spec_ordered() -> bool {
        false
    }

    open spec fn spec_item_key(v: TomlView) -> Option<ScalarKey> {
        if v.0 == 2 {
            Some((if v.3 { 1 } else { 0 }, seq![]))
        } else {
            None
        }
    }

    open spec fn spec_write(&self) -> WriteView {
        (2, seq![], 0, *self, seq![])
    }

    proof fn lemma_key(&self, other: &Self) {
    }

    open spec fn spec_round_trips(&self) -> bool {
        true
    }

    proof fn lemma_written_reads_back(&self, v: TomlView) {
    }

    fn parse_item(v: &TomlValue) -> (r: Option<Self>) {
        match v {
            TomlValue::Bool { value, .. } => Some(*value),
            _ => None,
        }
    }

    fn write_item(&self) -> (r: TomlWrite) {
        TomlWrite::Bool(*self)
    }
}

impl DenyTomlScalar for u64 {
    open spec fn spec_key(&self) -> ScalarKey {
        (*self as int, seq![])
    }

    open spec fn spec_ordered() -> bool {
        true
    }

    open spec fn spec_item_key(v: TomlView) -> Option<ScalarKey> {
        if v.0 == 1 && v.2 >= 0 {
            Some((v.2 as int, seq![]))
        } else {
            None
        }
    }

    open spec fn spec_write(&self) -> WriteView {
        if *self <= 9223372036854775807 {
            (1, seq![], *self as i64, false, seq![])
        } else {
            (0, spec_decimal(*self as nat), 0, false, seq![])
        }
    }

    proof fn lemma_key(&self, other: &Self) {
    }

    open spec fn spec_round_trips(&self) -> bool {
        *self <= 9223372036854775807
    }

    proof fn lemma_written_reads_back(&self, v: TomlView) {
    }

    fn parse_item(v: &TomlValue) -> (r: Option<Self>) {
        match v {
            TomlValue::Int { value, .. } => if *value >= 0 {
                Some(*value as u64)
            } else {
                None
            },
            _ => None,
        }
    }

    fn write_item(&self) -> (r: TomlWrite) {
        if *self <= 9223372036854775807 {
            TomlWrite::Int(*self as i64)
        } else {
            TomlWrite::Str(decimal_text(*self))
        }
    }
}

impl DenyTomlScalar for DenyLintLevel {
    open spec fn spec_key(&self) -> ScalarKey {
        (0, self.spec_text())
    }

    open spec fn spec_ordered() -> bool {
        false
    }

    open spec fn spec_item_key(v: TomlView) -> Option<ScalarKey> {
        if v.0 == 0 && DenyLintLevel::spec_parse(v.1) is Some {
            Some((0, DenyLintLevel::spec_parse(v.1)->0.spec_text()))
        } else {
            None
        }
    }

    open spec fn spec_write(&self) -> WriteView {
        (0, self.spec_text(), 0, false, seq![])
    }

    proof fn lemma_key(&self, other: &Self) {
        reveal_strlit("allow");
        reveal_strlit("warn");
        reveal_strlit("deny");
        if self.spec_text() == other.spec_text() {
            assert(self.spec_text()[0] == other.spec_text()[0]);
        }
    }

    open spec fn spec_round_trips(&self) -> bool {
        true
    }

    proof fn lemma_written_reads_back(&self, v: TomlView) {
        reveal_strlit("allow");
        reveal_strlit("warn");
        reveal_strlit("deny");
    }

    fn parse_item(v: &TomlValue) -> (r: Option<Self>) {
        match v {
            TomlValue::Str { value, .. } => match DenyLintLevel::parse(value.as_str()) {
                Ok(level) => Some(level),
                Err(_) => None,
            },
            _ => None,
        }
    }

    fn write_item(&self) -> (r: TomlWrite) {
        TomlWrite::Str(owned(self.as_str()))
    }
}

impl DenyTomlScalar for DenyAdvisoryScope {
    open spec fn spec_key(&self) -> ScalarKey {
        (0, self.spec_text())
    }

    open spec fn spec_ordered() -> bool {
        false
    }

    open spec fn spec_item_key(v: TomlView) -> Option<ScalarKey> {
        if v.0 == 0 && DenyAdvisoryScope::spec_parse(v.1) is Some {
            Some((0, DenyAdvisoryScope::spec_parse(v.1)->0.spec_text()))
        } else {
            None
        }
    }

    open spec fn spec_write(&self) -> WriteView {
        (0, self.spec_text(), 0, false, seq![])
    }

    proof fn lemma_key(&self, other: &Self) {
        reveal_strlit("all");
        reveal_strlit("workspace");
        reveal_strlit("transitive");
        reveal_strlit("none");
        if self.spec_text() == other.spec_text() {
            assert(self.spec_text()[0] == other.spec_text()[0]);
        }
    }

    open spec fn spec_round_trips(&self) -> bool {
        true
    }

    proof fn lemma_written_reads_back(&self, v: TomlView) {
        reveal_strlit("all");
        reveal_strlit("workspace");
        reveal_strlit("transitive");
        reveal_strlit("none");
    }

    fn parse_item(v: &TomlValue) -> (r: Option<Self>) {
        match v {
            TomlValue::Str { value, .. } => match DenyAdvisoryScope::parse(value.as_str()) {
                Ok(scope) => Some(scope),
                Err(_) => None,
            },
            _ => None,
        }
    }

    fn write_item(&self) -> (r: TomlWrite) {
        TomlWrite::Str(owned(self.as_str()))
    }
}

impl DenyTomlScalar for DenyGraphHighlight {
    open spec fn spec_key(&self) -> ScalarKey {
        (0, self.spec_text())
    }

    open spec fn spec_ordered() -> bool {
        false
    }

    open spec fn spec_item_key(v: TomlView) -> Option<ScalarKey> {
        if v.0 == 0 && DenyGraphHighlight::spec_parse(v.1) is Some {
            Some((0, DenyGraphHighlight::spec_parse(v.1)->0.spec_text()))
        } else {
            None
        }
    }

    open spec fn spec_write(&self) -> WriteView {
        (0, self.spec_text(), 0, false, seq![])
    }

    proof fn lemma_key(&self, other: &Self) {
        reveal_strlit("all");
        reveal_strlit("simplest-path");
        reveal_strlit("lowest-version");
        if self.spec_text() == other.spec_text() {
            assert(self.spec_text()[0] == other.spec_text()[0]);
        }
    }

    open spec fn spec_round_trips(&self) -> bool {
        true
    }

    proof fn lemma_written_reads_back(&self, v: TomlView) {
        reveal_strlit("all");
        reveal_strlit("simplest-path");
        reveal_strlit("lowest-version");
    }

    fn parse_item(v: &TomlValue) -> (r: Option<Self>) {
        match v {
            TomlValue::Str { value, .. } => match DenyGraphHighlight::parse(value.as_str()) {
                Ok(h) => Some(h),
                Err(_) => None,
            },
            _ => None,
        }
    }

    fn write_item(&self) -> (r: TomlWrite) {
        TomlWrite::Str(owned(self.as_str()))
    }
}

impl DenyTomlScalar for DenyGitSpec {
    open spec fn spec_key(&self) -> ScalarKey {
        (0, self.spec_text())
    }

    open spec fn spec_ordered() -> bool {
        false
    }

    open spec fn spec_item_key(v: TomlView) -> Option<ScalarKey> {
        if v.0 == 0 && DenyGitSpec::spec_parse(v.1) is Some {
            Some((0, DenyGitSpec::spec_parse(v.1)->0.spec_text()))
        } else {
            None
        }
    }

    open spec fn spec_write(&self) -> WriteView {
        (0, self.spec_text(), 0, false, seq![])
    }

    proof fn lemma_key(&self, other: &Self) {
        reveal_strlit("any");
        reveal_strlit("branch");
        reveal_strlit("tag");
        reveal_strlit("rev");
        if self.spec_text() == other.spec_text() {
            assert(self.spec_text()[0] == other.spec_text()[0]);
        }
    }

    open spec fn spec_round_trips(&self) -> bool {
        true
    }

    proof fn lemma_written_reads_back(&self, v: TomlView) {
        reveal_strlit("any");
        reveal_strlit("branch");
        reveal_strlit("tag");
        reveal_strlit("rev");
    }

    fn parse_item(v: &TomlValue) -> (r: Option<Self>) {
        match v {
            TomlValue::Str { value, .. } => match DenyGitSpec::parse(value.as_str()) {
                Ok(g) => Some(g),
                Err(_) => None,
            },
            _ => None,
        }
    }

    fn write_item(&self) -> (r: TomlWrite) {
        TomlWrite::Str(owned(self.as_str()))
    }
}

impl DenyTomlScalar for DenyNonEmptyString {
    open spec fn spec_key(&self) -> ScalarKey {
        (0, self@)
    }

    open spec fn spec_ordered() -> bool {
        false
    }

    open spec fn spec_item_key(v: TomlView) -> Option<ScalarKey> {
        if v.0 == 0 && v.1.len() > 0 {
            Some((0, v.1))
        } else {
            None
        }
    }

    open spec fn spec_write(&self) -> WriteView {
        (0, self@, 0, false, seq![])
    }

    proof fn lemma_key(&self, other: &Self) {
    }

    open spec fn spec_round_trips(&self) -> bool {
        self@.len() > 0
    }

    proof fn lemma_written_reads_back(&self, v: TomlView) {
    }

    fn parse_item(v: &TomlValue) -> (r: Option<Self>) {
        match v {
            TomlValue::Str { value, .. } => match DenyNonEmptyString::new(value.as_str()) {
                Ok(s) => Some(s),
                Err(_) => None,
            },
            _ => None,
        }
    }

    fn write_item(&self) -> (r: TomlWrite) {
        TomlWrite::Str(owned(self.as_str()))
    }
}

impl DenyTomlScalar for DenyDuration {
    open spec fn spec_key(&self) -> ScalarKey {
        (0, self@)
    }

    open spec fn spec_ordered() -> bool {
        false
    }

    open spec fn spec_item_key(v: TomlView) -> Option<ScalarKey> {
        if v.0 == 0 && spec_is_duration(v.1) {
            Some((0, v.1))
        } else {
            None
        }
    }

    open spec fn spec_write(&self) -> WriteView {
        (0, self@, 0, false, seq![])
    }

    proof fn lemma_key(&self, other: &Self) {
    }

    open spec fn spec_round_trips(&self) -> bool {
        spec_is_duration(self@)
    }

    proof fn lemma_written_reads_back(&self, v: TomlView) {
    }

    fn parse_item(v: &TomlValue) -> (r: Option<Self>) {
        match v {
            TomlValue::Str { value, .. } => match DenyDuration::new(value.as_str()) {
                Ok(d) => Some(d),
                Err(_) => None,
            },
            _ => None,
        }
    }

    fn write_item(&self) -> (r: TomlWrite) {
        TomlWrite::Str(owned(self.as_str()))
    }
}

/// The text a threshold is read from: an integer's decimal text, or a
/// float's text without the blanks around it.
pub open spec fn confidence_source(v: TomlView) -> Seq<char> {
    if v.0 == 1 {
        if v.2 < 0 { "-"@ + spec_decimal((-v.2) as nat) } else { spec_decimal(v.2 as nat) }
    } else {
        spec_trim(v.5)
    }
}

/// The decimal literal written for a threshold: its text, with `.0` added
/// when it has no point.
pub open spec fn confidence_literal(t: Seq<char>) -> Seq<char> {
    if spec_dot_index(t) is Some { t } else { t + ".0"@ }
}

fn has_point(s: &str) -> (r: bool)
    ensures
        r == (spec_dot_index(s@) is Some),
{
    let cs = chars_of(s);
    let mut i: usize = 0;
    while i < cs.len()
        invariant
            cs@ == s@,
            i <= cs.len(),
            forall|j: int| 0 <= j < i ==> s@[j] != '.',
        decreases cs.len() - i,
    {
        if cs[i] == '.' {
            proof {
                lemma_dot_after(s@, i as int);
            }
            return true;
        }
        i = i + 1;
    }
    proof {
        lemma_no_dot(s@);
    }
    false
}

/// Text with no point has none.
proof fn lemma_no_dot(s: Seq<char>)
    requires
        forall|j: int| 0 <= j < s.len() ==> s[j] != '.',
    ensures
        spec_dot_index(s) is None,
    decreases s.len(),
{
    if s.len() > 0 {
        assert(s[0] != '.');
        lemma_no_dot(s.drop_first());
    }
}

/// A point at `k` means `s` has a point.
proof fn lemma_dot_after(s: Seq<char>, k: int)
    requires
        0 <= k < s.len(),
        s[k] == '.',
    ensures
        spec_dot_index(s) is Some,
    decreases k,
{
    if k > 0 {
        if s[0] != '.' {
            lemma_dot_after(s.drop_first(), k - 1);
        }
    }
}

impl DenyTomlScalar for DenyConfidenceThreshold {
    open spec fn spec_key(&self) -> ScalarKey {
        (self.spec_millionths() as int, seq![])
    }

    open spec fn spec_ordered() -> bool {
        true
    }

    open spec fn spec_item_key(v: TomlView) -> Option<ScalarKey> {
        let t = confidence_source(v);
        if (v.0 == 1 || v.0 == 4) && t.len() > 0 && spec_confidence_millionths(t) is Some {
            Some((spec_confidence_millionths(t)->0 as int, seq![]))
        } else {
            None
        }
    }

    open spec fn spec_write(&self) -> WriteView {
        (4, confidence_literal(self@), 0, false, seq![])
    }

    proof fn lemma_key(&self, other: &Self) {
    }

    open spec fn spec_round_trips(&self) -> bool {
        forall|v: TomlView| #[trigger] holds_written(v, self.spec_write())
            ==> Self::spec_item_key(v) == Some(self.spec_key())
    }

    proof fn lemma_written_reads_back(&self, v: TomlView) {
    }

    fn parse_item(v: &TomlValue) -> (r: Option<Self>) {
        let text = match v {
            TomlValue::Int { value, .. } => signed_decimal_text(*value),
            TomlValue::Other { text } => trim_blanks(text.as_str()),
            _ => return None,
        };
        match DenyConfidenceThreshold::new(text.as_str()) {
            Ok(t) => Some(t),
            Err(_) => None,
        }
    }

    fn write_item(&self) -> (r: TomlWrite) {
        proof {
            reveal_strlit(".0");
            reveal_strlit("0");
            reveal_strlit("1");
        }
        let text = self.as_str();
        if has_point(text) {
            proof {
                let t = text@;
                if t == "0"@ || t == "1"@ {
                    assert(t.len() == 1);
                    assert(t.drop_first().len() == 0);
                    assert(spec_dot_index(t.drop_first()) is None);
                }
            }
            TomlWrite::Decimal(owned(text))
        } else {
            proof {
                let t = text@;
                if simple_decimal(t) {
                    assert(t[0] != '.');
                    assert(t.drop_first()[0] == '.');
                    assert(spec_dot_index(t.drop_first()) is Some);
                }
                assert(t.len() == 1);
            }
            let r = join2(text, ".0");
            proof {
                assert(r@ == text@ + ".0"@);
                assert(r@.len() == 3 && r@[0] == text@[0] && r@[1] == '.' && r@[2] == '0');
                assert(simple_decimal(r@));
            }
            TomlWrite::Decimal(r)
        }
    }
}

} // verus!
