//! Non-empty text wrappers for `deny.toml` values.

use vstd::prelude::*;
use crate::deny_values::DenyTomlValueError;
use crate::text::{owned, is_empty_str, starts_with};

verus! {

/// Text that is never empty.
#[derive(Debug, PartialEq, Eq, PartialOrd, Ord, Hash)]
pub struct DenyNonEmptyString(String);

impl View for DenyNonEmptyString {
    type V = Seq<char>;

    closed spec fn view(&self) -> Seq<char> {
        self.0@
    }
}

impl Clone for DenyNonEmptyString {
    fn clone(&self) -> (r: Self)
        ensures
            r == *self,
    {
        proof {
            use_type_invariant(self);
        }
        DenyNonEmptyString(self.0.clone())
    }
}

impl DenyNonEmptyString {
    #[verifier::type_invariant]
    closed spec fn non_empty(self) -> bool {
        self.0@.len() > 0
    }

    /// Wraps `value`, refusing empty text.
    pub fn new(value: &str) -> (r: Result<DenyNonEmptyString, DenyTomlValueError>)
        ensures
            value@.len() == 0 <==> r is Err,
            r matches Ok(s) ==> s@ == value@,
            r matches Err(e) ==> e matches DenyTomlValueError::Empty { field } && field@ == "text"@,
    {
        if is_empty_str(value) {
            return Err(DenyTomlValueError::Empty { field: "text" });
        }
        Ok(DenyNonEmptyString(owned(value)))
    }

    /// The wrapped text.
    pub fn as_str(&self) -> (r: &str)
        ensures
            r@ == self@,
            r@.len() > 0,
    {
        proof {
            use_type_invariant(self);
        }
        self.0.as_str()
    }

}

/// A cargo-deny package spec (`name` or `name@version`), never empty.
#[derive(Debug, PartialEq, Eq, PartialOrd, Ord, Hash)]
pub struct DenyPackageSpec(String);

impl View for DenyPackageSpec {
    type V = Seq<char>;

    closed spec fn view(&self) -> Seq<char> {
        self.0@
    }
}

impl Clone for DenyPackageSpec {
    fn clone(&self) -> (r: Self)
        ensures
            r == *self,
    {
        proof {
            use_type_invariant(self);
        }
        DenyPackageSpec(self.0.clone())
    }
}

impl DenyPackageSpec {
    #[verifier::type_invariant]
    closed spec fn non_empty(self) -> bool {
        self.0@.len() > 0
    }

    /// Wraps `value`, refusing empty text.
    pub fn new(value: &str) -> (r: Result<DenyPackageSpec, DenyTomlValueError>)
        ensures
            value@.len() == 0 <==> r is Err,
            r matches Ok(s) ==> s@ == value@,
            r matches Err(e) ==> e matches DenyTomlValueError::Empty { field } && field@ == "package"@,
    {
        if is_empty_str(value) {
            return Err(DenyTomlValueError::Empty { field: "package" });
        }
        Ok(DenyPackageSpec(owned(value)))
    }

    /// The wrapped text.
    pub fn as_str(&self) -> (r: &str)
        ensures
            r@ == self@,
            r@.len() > 0,
    {
        proof {
            use_type_invariant(self);
        }
        self.0.as_str()
    }

}

/// Whether `value` has the ISO-8601 duration shape cargo-deny accepts: it
/// starts with `P`.
pub open spec fn spec_is_duration(value: Seq<char>) -> bool {
    value.len() > 0 && value[0] == 'P'
}

/// A cargo-deny duration such as `P90D`.
#[derive(Debug, PartialEq, Eq, PartialOrd, Ord, Hash)]
pub struct DenyDuration(String);

impl View for DenyDuration {
    type V = Seq<char>;

    closed spec fn view(&self) -> Seq<char> {
        self.0@
    }
}

impl Clone for DenyDuration {
    fn clone(&self) -> (r: Self)
        ensures
            r == *self,
    {
        proof {
            use_type_invariant(self);
        }
        DenyDuration(self.0.clone())
    }
}

impl DenyDuration {
    #[verifier::type_invariant]
    closed spec fn shaped(self) -> bool {
        spec_is_duration(self.0@)
    }

    /// Wraps `value`, refusing empty text and text that does not start with `P`.
    pub fn new(value: &str) -> (r: Result<DenyDuration, DenyTomlValueError>)
        ensures
            spec_is_duration(value@) <==> r is Ok,
            r matches Ok(d) ==> d@ == value@,
            r matches Err(e) ==> if value@.len() == 0 {
                e matches DenyTomlValueError::Empty { field } && field@ == "duration"@
            } else {
                e matches DenyTomlValueError::Invalid { field, value: v, reason }
                    && field@ == "duration"@ && v@ == value@
                    && reason@ == "duration must use cargo-deny ISO-8601 form such as P90D"@
            },
    {
        if is_empty_str(value) {
            return Err(DenyTomlValueError::Empty { field: "duration" });
        }
        let p = starts_with(value, "P");
        proof {
            reveal_strlit("P");
            if p {
                assert(value@[0] == value@.subrange(0, 1)[0]);
            } else {
                assert(value@.subrange(0, 1) !~= "P"@ || value@[0] != 'P');
                if value@[0] == 'P' {
                    assert(value@.subrange(0, 1) =~= "P"@);
                }
            }
        }
        if !p {
            return Err(DenyTomlValueError::Invalid {
                field: "duration",
                value: owned(value),
                reason: "duration must use cargo-deny ISO-8601 form such as P90D",
            });
        }
        Ok(DenyDuration(owned(value)))
    }

    /// The wrapped text.
    pub fn as_str(&self) -> (r: &str)
        ensures
            r@ == self@,
            spec_is_duration(r@),
    {
        proof {
            use_type_invariant(self);
        }
        self.0.as_str()
    }

}

} // verus!
