//! Values that scalar assertions speak of: how two are compared, ordered and
//! rendered.

use vstd::prelude::*;
use crate::deny_confidence::{DenyConfidenceThreshold, ValueOrder, spec_order_of};
use crate::deny_text::{DenyDuration, DenyNonEmptyString};
use crate::deny_values::{DenyAdvisoryScope, DenyGitSpec, DenyGraphHighlight, DenyLintLevel};
use crate::requirements::ConfigScalar;
use crate::text::{owned, str_eq};
use crate::toolchain_values::{RustToolchainChannel, RustToolchainPath, RustToolchainProfile};

verus! {

/// A value a scalar assertion can hold.
pub trait ScalarValue: Sized {
    /// The text a finding shows for this value.
    spec fn spec_render(&self) -> Seq<char>;

    /// Whether two values are the same value.
    spec fn spec_same(&self, other: &Self) -> bool;

    /// The order of two values, for values that are ordered.
    spec fn spec_order(&self, other: &Self) -> Option<ValueOrder>;

    fn render(&self) -> (r: String)
        ensures
            r@ == self.spec_render(),
    ;

    fn same_value(&self, other: &Self) -> (r: bool)
        ensures
            r == self.spec_same(other),
    ;

    fn compare_for_order(&self, other: &Self) -> (r: Option<ValueOrder>)
        ensures
            r == self.spec_order(other),
    ;

    fn duplicate(&self) -> (r: Self)
        ensures
            r == *self,
    ;
}

/// The text of a boolean.
pub open spec fn spec_bool_text(b: bool) -> Seq<char> {
    if b {
        "true"@
    } else {
        "false"@
    }
}

impl ScalarValue for bool {
    open spec fn spec_render(&self) -> Seq<char> {
        spec_bool_text(*self)
    }

    open spec fn spec_same(&self, other: &Self) -> bool {
        *self == *other
    }

    open spec fn spec_order(&self, other: &Self) -> Option<ValueOrder> {
        None
    }

    fn render(&self) -> (r: String) {
        if *self {
            owned("true")
        } else {
            owned("false")
        }
    }

    fn same_value(&self, other: &Self) -> (r: bool) {
        *self == *other
    }

    fn compare_for_order(&self, other: &Self) -> (r: Option<ValueOrder>) {
        None
    }

    fn duplicate(&self) -> (r: Self) {
        *self
    }
}

/// The decimal text of a natural number.
pub open spec fn spec_decimal(n: nat) -> Seq<char>
    decreases n,
{
    if n < 10 {
        seq![spec_digit_char(n)]
    } else {
        spec_decimal(n / 10).push(spec_digit_char(n % 10))
    }
}

/// The digit character of a number below ten.
pub open spec fn spec_digit_char(d: nat) -> char {
    if d == 0 { '0' } else if d == 1 { '1' } else if d == 2 { '2' } else if d == 3 { '3' }
    else if d == 4 { '4' } else if d == 5 { '5' } else if d == 6 { '6' } else if d == 7 { '7' }
    else if d == 8 { '8' } else { '9' }
}

fn digit_str(d: u64) -> (r: &'static str)
    requires
        d < 10,
    ensures
        r@ == seq![spec_digit_char(d as nat)],
{
    proof {
        reveal_strlit("0");
        reveal_strlit("1");
        reveal_strlit("2");
        reveal_strlit("3");
        reveal_strlit("4");
        reveal_strlit("5");
        reveal_strlit("6");
        reveal_strlit("7");
        reveal_strlit("8");
        reveal_strlit("9");
    }
    if d == 0 { "0" } else if d == 1 { "1" } else if d == 2 { "2" } else if d == 3 { "3" }
    else if d == 4 { "4" } else if d == 5 { "5" } else if d == 6 { "6" } else if d == 7 { "7" }
    else if d == 8 { "8" } else { "9" }
}

/// The decimal text of `n`.
pub fn decimal_text(n: u64) -> (r: String)
    ensures
        r@ == spec_decimal(n as nat),
    decreases n,
{
    if n < 10 {
        owned(digit_str(n))
    } else {
        let mut out = decimal_text(n / 10);
        out.append(digit_str(n % 10));
        out
    }
}

impl ScalarValue for u64 {
    open spec fn spec_render(&self) -> Seq<char> {
        spec_decimal(*self as nat)
    }

    open spec fn spec_same(&self, other: &Self) -> bool {
        *self == *other
    }

    open spec fn spec_order(&self, other: &Self) -> Option<ValueOrder> {
        Some(spec_order_of(*self as nat, *other as nat))
    }

    fn render(&self) -> (r: String) {
        decimal_text(*self)
    }

    fn same_value(&self, other: &Self) -> (r: bool) {
        *self == *other
    }

    fn compare_for_order(&self, other: &Self) -> (r: Option<ValueOrder>) {
        if *self < *other {
            Some(ValueOrder::Less)
        } else if *self == *other {
            Some(ValueOrder::Equal)
        } else {
            Some(ValueOrder::Greater)
        }
    }

    fn duplicate(&self) -> (r: Self) {
        *self
    }
}

impl ScalarValue for DenyLintLevel {
    open spec fn spec_render(&self) -> Seq<char> {
        self.spec_text()
    }

    open spec fn spec_same(&self, other: &Self) -> bool {
        *self == *other
    }

    open spec fn spec_order(&self, other: &Self) -> Option<ValueOrder> {
        None
    }

    fn render(&self) -> (r: String) {
        owned(self.as_str())
    }

    fn same_value(&self, other: &Self) -> (r: bool) {
        *self == *other
    }

    fn compare_for_order(&self, other: &Self) -> (r: Option<ValueOrder>) {
        None
    }

    fn duplicate(&self) -> (r: Self) {
        *self
    }
}

impl ScalarValue for DenyAdvisoryScope {
    open spec fn spec_render(&self) -> Seq<char> {
        self.spec_text()
    }

    open spec fn spec_same(&self, other: &Self) -> bool {
        *self == *other
    }

    open spec fn spec_order(&self, other: &Self) -> Option<ValueOrder> {
        None
    }

    fn render(&self) -> (r: String) {
        owned(self.as_str())
    }

    fn same_value(&self, other: &Self) -> (r: bool) {
        *self == *other
    }

    fn compare_for_order(&self, other: &Self) -> (r: Option<ValueOrder>) {
        None
    }

    fn duplicate(&self) -> (r: Self) {
        *self
    }
}

impl ScalarValue for DenyGraphHighlight {
    open spec fn spec_render(&self) -> Seq<char> {
        self.spec_text()
    }

    open spec fn spec_same(&self, other: &Self) -> bool {
        *self == *other
    }

    open spec fn spec_order(&self, other: &Self) -> Option<ValueOrder> {
        None
    }

    fn render(&self) -> (r: String) {
        owned(self.as_str())
    }

    fn same_value(&self, other: &Self) -> (r: bool) {
        *self == *other
    }

    fn compare_for_order(&self, other: &Self) -> (r: Option<ValueOrder>) {
        None
    }

    fn duplicate(&self) -> (r: Self) {
        *self
    }
}

impl ScalarValue for DenyGitSpec {
    open spec fn spec_render(&self) -> Seq<char> {
        self.spec_text()
    }

    open spec fn spec_same(&self, other: &Self) -> bool {
        *self == *other
    }

    open spec fn spec_order(&self, other: &Self) -> Option<ValueOrder> {
        None
    }

    fn render(&self) -> (r: String) {
        owned(self.as_str())
    }

    fn same_value(&self, other: &Self) -> (r: bool) {
        *self == *other
    }

    fn compare_for_order(&self, other: &Self) -> (r: Option<ValueOrder>) {
        None
    }

    fn duplicate(&self) -> (r: Self) {
        *self
    }
}

impl ScalarValue for DenyNonEmptyString {
    open spec fn spec_render(&self) -> Seq<char> {
        self@
    }

    open spec fn spec_same(&self, other: &Self) -> bool {
        self@ == other@
    }

    open spec fn spec_order(&self, other: &Self) -> Option<ValueOrder> {
        None
    }

    fn render(&self) -> (r: String) {
        owned(self.as_str())
    }

    fn same_value(&self, other: &Self) -> (r: bool) {
        str_eq(self.as_str(), other.as_str())
    }

    fn compare_for_order(&self, other: &Self) -> (r: Option<ValueOrder>) {
        None
    }

    fn duplicate(&self) -> (r: Self) {
        self.clone()
    }
}

impl ScalarValue for DenyDuration {
    open spec fn spec_render(&self) -> Seq<char> {
        self@
    }

    open spec fn spec_same(&self, other: &Self) -> bool {
        self@ == other@
    }

    open spec fn spec_order(&self, other: &Self) -> Option<ValueOrder> {
        None
    }

    fn render(&self) -> (r: String) {
        owned(self.as_str())
    }

    fn same_value(&self, other: &Self) -> (r: bool) {
        str_eq(self.as_str(), other.as_str())
    }

    fn compare_for_order(&self, other: &Self) -> (r: Option<ValueOrder>) {
        None
    }

    fn duplicate(&self) -> (r: Self) {
        self.clone()
    }
}

impl ScalarValue for DenyConfidenceThreshold {
    open spec fn spec_render(&self) -> Seq<char> {
        self@
    }

    open spec fn spec_same(&self, other: &Self) -> bool {
        self.spec_millionths() == other.spec_millionths()
    }

    open spec fn spec_order(&self, other: &Self) -> Option<ValueOrder> {
        Some(spec_order_of(self.spec_millionths(), other.spec_millionths()))
    }

    fn render(&self) -> (r: String) {
        owned(self.as_str())
    }

    fn same_value(&self, other: &Self) -> (r: bool) {
        DenyConfidenceThreshold::compare_for_order(self, other) == ValueOrder::Equal
    }

    fn compare_for_order(&self, other: &Self) -> (r: Option<ValueOrder>) {
        Some(DenyConfidenceThreshold::compare_for_order(self, other))
    }

    fn duplicate(&self) -> (r: Self) {
        self.clone()
    }
}

impl ScalarValue for RustToolchainChannel {
    open spec fn spec_render(&self) -> Seq<char> {
        self@
    }

    open spec fn spec_same(&self, other: &Self) -> bool {
        self@ == other@
    }

    open spec fn spec_order(&self, other: &Self) -> Option<ValueOrder> {
        None
    }

    fn render(&self) -> (r: String) {
        owned(self.as_str())
    }

    fn same_value(&self, other: &Self) -> (r: bool) {
        str_eq(self.as_str(), other.as_str())
    }

    fn compare_for_order(&self, other: &Self) -> (r: Option<ValueOrder>) {
        None
    }

    fn duplicate(&self) -> (r: Self) {
        self.clone()
    }
}

impl ScalarValue for RustToolchainPath {
    open spec fn spec_render(&self) -> Seq<char> {
        self@
    }

    open spec fn spec_same(&self, other: &Self) -> bool {
        self@ == other@
    }

    open spec fn spec_order(&self, other: &Self) -> Option<ValueOrder> {
        None
    }

    fn render(&self) -> (r: String) {
        owned(self.as_path())
    }

    fn same_value(&self, other: &Self) -> (r: bool) {
        str_eq(self.as_path(), other.as_path())
    }

    fn compare_for_order(&self, other: &Self) -> (r: Option<ValueOrder>) {
        None
    }

    fn duplicate(&self) -> (r: Self) {
        self.clone()
    }
}

impl ScalarValue for RustToolchainProfile {
    open spec fn spec_render(&self) -> Seq<char> {
        self.spec_text()
    }

    open spec fn spec_same(&self, other: &Self) -> bool {
        *self == *other
    }

    open spec fn spec_order(&self, other: &Self) -> Option<ValueOrder> {
        None
    }

    fn render(&self) -> (r: String) {
        owned(self.as_str())
    }

    fn same_value(&self, other: &Self) -> (r: bool) {
        *self == *other
    }

    fn compare_for_order(&self, other: &Self) -> (r: Option<ValueOrder>) {
        None
    }

    fn duplicate(&self) -> (r: Self) {
        *self
    }
}

/// The text of a configuration scalar: quoted text, a decimal or a boolean.
pub open spec fn spec_config_scalar_text(v: ConfigScalar) -> Seq<char> {
    match v {
        ConfigScalar::Str(s) => "\""@ + s@ + "\""@,
        ConfigScalar::Int(i) => if i < 0 {
            "-"@ + spec_decimal((-i) as nat)
        } else {
            spec_decimal(i as nat)
        },
        ConfigScalar::Bool(b) => spec_bool_text(b),
    }
}

/// The decimal text of a signed integer.
pub fn signed_decimal_text(i: i64) -> (r: String)
    ensures
        r@ == (if i < 0 { "-"@ + spec_decimal((-i) as nat) } else { spec_decimal(i as nat) }),
{
    if i < 0 {
        let magnitude: u64 = if i == i64::MIN {
            9223372036854775808u64
        } else {
            (-i) as u64
        };
        let mut out = owned("-");
        out.append(decimal_text(magnitude).as_str());
        out
    } else {
        decimal_text(i as u64)
    }
}

impl ScalarValue for ConfigScalar {
    open spec fn spec_render(&self) -> Seq<char> {
        spec_config_scalar_text(*self)
    }

    open spec fn spec_same(&self, other: &Self) -> bool {
        match (*self, *other) {
            (ConfigScalar::Str(a), ConfigScalar::Str(b)) => a@ == b@,
            (ConfigScalar::Int(a), ConfigScalar::Int(b)) => a == b,
            (ConfigScalar::Bool(a), ConfigScalar::Bool(b)) => a == b,
            _ => false,
        }
    }

    open spec fn spec_order(&self, other: &Self) -> Option<ValueOrder> {
        None
    }

    fn render(&self) -> (r: String) {
        match self {
            ConfigScalar::Str(s) => {
                let mut out = owned("\"");
                out.append(s.as_str());
                out.append("\"");
                out
            },
            ConfigScalar::Int(i) => signed_decimal_text(*i),
            ConfigScalar::Bool(b) => b.render(),
        }
    }

    fn same_value(&self, other: &Self) -> (r: bool) {
        match (self, other) {
            (ConfigScalar::Str(a), ConfigScalar::Str(b)) => str_eq(a.as_str(), b.as_str()),
            (ConfigScalar::Int(a), ConfigScalar::Int(b)) => *a == *b,
            (ConfigScalar::Bool(a), ConfigScalar::Bool(b)) => *a == *b,
            _ => false,
        }
    }

    fn compare_for_order(&self, other: &Self) -> (r: Option<ValueOrder>) {
        None
    }

    fn duplicate(&self) -> (r: Self) {
        self.clone()
    }
}

} // verus!
