//! The requirement vocabulary shared by the three engines: who asked
//! (provenance), scalar assertions, list requirements, merge conflicts and
//! reconcile findings.

use vstd::prelude::*;

verus! {

/// The policy a requirement came from.
#[derive(Debug, PartialEq, Eq)]
pub struct Provenance {
    pub policy: String,
}

impl Clone for Provenance {
    fn clone(&self) -> (r: Self)
        ensures
            r == *self,
    {
        Provenance { policy: self.policy.clone() }
    }
}

/// A scalar value of a configuration file: text, integer or boolean.
#[derive(Debug, PartialEq, Eq)]
pub enum ConfigScalar {
    Str(String),
    Int(i64),
    Bool(bool),
}

impl Clone for ConfigScalar {
    fn clone(&self) -> (r: Self)
        ensures
            r == *self,
    {
        match self {
            ConfigScalar::Str(s) => ConfigScalar::Str(s.clone()),
            ConfigScalar::Int(i) => ConfigScalar::Int(*i),
            ConfigScalar::Bool(b) => ConfigScalar::Bool(*b),
        }
    }
}

/// What a requirement asserts of one scalar setting; each variant carries the
/// message reported when the file breaks it.
#[derive(Debug, PartialEq, Eq)]
pub enum ScalarAssertion<T> {
    Equals(T, String),
    OneOf(Vec<T>, String),
    Present(String),
    Absent(String),
    AtLeast(T, String),
    AtMost(T, String),
    Range(T, T, String),
}

/// The message of an assertion.
pub open spec fn spec_assertion_message<T>(a: ScalarAssertion<T>) -> Seq<char> {
    match a {
        ScalarAssertion::Equals(_, m) => m@,
        ScalarAssertion::OneOf(_, m) => m@,
        ScalarAssertion::Present(m) => m@,
        ScalarAssertion::Absent(m) => m@,
        ScalarAssertion::AtLeast(_, m) => m@,
        ScalarAssertion::AtMost(_, m) => m@,
        ScalarAssertion::Range(_, _, m) => m@,
    }
}

impl<T> ScalarAssertion<T> {
    /// The message of this assertion.
    pub fn message(&self) -> (r: &str)
        ensures
            r@ == spec_assertion_message(*self),
    {
        match self {
            ScalarAssertion::Equals(_, m) => m.as_str(),
            ScalarAssertion::OneOf(_, m) => m.as_str(),
            ScalarAssertion::Present(m) => m.as_str(),
            ScalarAssertion::Absent(m) => m.as_str(),
            ScalarAssertion::AtLeast(_, m) => m.as_str(),
            ScalarAssertion::AtMost(_, m) => m.as_str(),
            ScalarAssertion::Range(_, _, m) => m.as_str(),
        }
    }

    /// Whether this assertion orders values.
    pub open spec fn spec_is_ordered(self) -> bool {
        self is AtLeast || self is AtMost || self is Range
    }
}

} // verus!
