//! Values of `rust-toolchain.toml`: channel, profile and path.

use vstd::prelude::*;
use crate::text::{owned, str_eq, is_empty_str, join2};

verus! {

/// Why a toolchain value was rejected.
#[derive(Debug, Clone, PartialEq, Eq)]
pub enum RustToolchainValueError {
    Empty { field: &'static str },
    UnknownProfile { value: String },
    RelativePath { value: String },
}

/// The human-readable text of an error.
pub open spec fn spec_toolchain_error_message(e: RustToolchainValueError) -> Seq<char> {
    match e {
        RustToolchainValueError::Empty { field } => field@ + " must not be empty"@,
        RustToolchainValueError::UnknownProfile { value } => "unknown rustup profile "@ + value@,
        RustToolchainValueError::RelativePath { value } => "path must be absolute: "@ + value@,
    }
}

impl RustToolchainValueError {
    /// The human-readable text of this error.
    pub fn message(&self) -> (r: String)
        ensures
            r@ == spec_toolchain_error_message(*self),
    {
        match self {
            RustToolchainValueError::Empty { field } => join2(field, " must not be empty"),
            RustToolchainValueError::UnknownProfile { value } => join2("unknown rustup profile ", value.as_str()),
            RustToolchainValueError::RelativePath { value } => join2("path must be absolute: ", value.as_str()),
        }
    }
}

/// A toolchain channel such as `stable`; never empty.
#[derive(Debug, PartialEq, Eq, PartialOrd, Ord, Hash)]
pub struct RustToolchainChannel(String);

impl View for RustToolchainChannel {
    type V = Seq<char>;

    closed spec fn view(&self) -> Seq<char> {
        self.0@
    }
}

impl Clone for RustToolchainChannel {
    fn clone(&self) -> (r: Self)
        ensures
            r == *self,
    {
        proof {
            use_type_invariant(self);
        }
        RustToolchainChannel(self.0.clone())
    }
}

impl RustToolchainChannel {
    #[verifier::type_invariant]
    closed spec fn non_empty(self) -> bool {
        self.0@.len() > 0
    }

    /// A channel named `value`, which must not be empty.
    pub fn new(value: &str) -> (r: Result<Self, RustToolchainValueError>)
        ensures
            value@.len() == 0 <==> r is Err,
            r matches Ok(c) ==> c@ == value@,
            r matches Err(e) ==> e matches RustToolchainValueError::Empty { field } && field@ == "channel"@,
    {
        if is_empty_str(value) {
            return Err(RustToolchainValueError::Empty { field: "channel" });
        }
        Ok(RustToolchainChannel(owned(value)))
    }

    /// The `stable` channel.
    pub fn stable() -> (r: Self)
        ensures
            r@ == "stable"@,
    {
        proof {
            reveal_strlit("stable");
        }
        RustToolchainChannel(owned("stable"))
    }

    /// The channel name.
    pub fn as_str(&self) -> (r: &str)
        ensures
            r@ == self@,
            r@.len() > 0,
    {
        proof {
            use_type_invariant(self);
        }
        self.0.as_str()
    }
}

impl Default for RustToolchainChannel {
    fn default() -> (r: Self)
        ensures
            r@ == "stable"@,
    {
        RustToolchainChannel::stable()
    }
}

/// A rustup profile.
#[derive(Debug, Clone, Copy, PartialEq, Eq, Structural, PartialOrd, Ord, Hash)]
pub enum RustToolchainProfile {
    Minimal,
    Default,
    Complete,
}

impl RustToolchainProfile {
    pub open spec fn spec_text(self) -> Seq<char> {
        match self {
            RustToolchainProfile::Minimal => "minimal"@,
            RustToolchainProfile::Default => "default"@,
            RustToolchainProfile::Complete => "complete"@,
        }
    }

    pub open spec fn spec_parse(value: Seq<char>) -> Option<RustToolchainProfile> {
        if value == "minimal"@ {
            Some(RustToolchainProfile::Minimal)
        } else if value == "default"@ {
            Some(RustToolchainProfile::Default)
        } else if value == "complete"@ {
            Some(RustToolchainProfile::Complete)
        } else {
            None
        }
    }

    /// Reads a profile from its rustup text.
    pub fn parse(value: &str) -> (r: Result<Self, RustToolchainValueError>)
        ensures
            match Self::spec_parse(value@) {
                Some(p) => r == Ok::<RustToolchainProfile, RustToolchainValueError>(p),
                None => if value@.len() == 0 {
                    r matches Err(e) && e matches RustToolchainValueError::Empty { field } && field@ == "profile"@
                } else {
                    r matches Err(e) && e matches RustToolchainValueError::UnknownProfile { value: v } && v@ == value@
                },
            },
    {
        if str_eq(value, "minimal") {
            Ok(RustToolchainProfile::Minimal)
        } else if str_eq(value, "default") {
            Ok(RustToolchainProfile::Default)
        } else if str_eq(value, "complete") {
            Ok(RustToolchainProfile::Complete)
        } else if is_empty_str(value) {
            Err(RustToolchainValueError::Empty { field: "profile" })
        } else {
            Err(RustToolchainValueError::UnknownProfile { value: owned(value) })
        }
    }

    /// The rustup text of this profile.
    pub fn as_str(&self) -> (r: &'static str)
        ensures
            r@ == self.spec_text(),
    {
        match self {
            RustToolchainProfile::Minimal => "minimal",
            RustToolchainProfile::Default => "default",
            RustToolchainProfile::Complete => "complete",
        }
    }
}

impl Default for RustToolchainProfile {
    fn default() -> (r: Self)
        ensures
            r == RustToolchainProfile::Minimal,
    {
        RustToolchainProfile::Minimal
    }
}

/// A path that no platform takes as absolute: empty, or starting with
/// neither `/` nor `\` and with no `:` as its second character (so with no
/// root, and no Windows drive or UNC prefix).
pub open spec fn surely_relative(s: Seq<char>) -> bool {
    s.len() == 0 || (s[0] != '/' && s[0] != '\\' && !(s.len() >= 2 && s[1] == ':'))
}

/// Calls `std::path::Path::is_absolute` on `value`. Whether a path is absolute
/// depends on the platform (a leading `/` on Unix, a prefix and root on
/// Windows); the contract claims only that a `surely_relative` path is not.
#[verifier::external_body]
fn path_is_absolute(value: &str) -> (r: bool)
    ensures
        surely_relative(value@) ==> !r,
{
    std::path::Path::new(value).is_absolute()
}

/// An absolute path to a custom toolchain.
#[derive(Debug, PartialEq, Eq, PartialOrd, Ord, Hash)]
pub struct RustToolchainPath(String);

impl View for RustToolchainPath {
    type V = Seq<char>;

    closed spec fn view(&self) -> Seq<char> {
        self.0@
    }
}

impl Clone for RustToolchainPath {
    fn clone(&self) -> (r: Self)
        ensures
            r == *self,
    {
        proof {
            use_type_invariant(self);
        }
        RustToolchainPath(self.0.clone())
    }
}

impl RustToolchainPath {
    #[verifier::type_invariant]
    closed spec fn non_empty(self) -> bool {
        self.0@.len() > 0
    }

    /// A toolchain path for `value`, given whether the platform considers it
    /// absolute: empty text is refused first, then a relative path.
    fn from_checked(value: &str, is_absolute: bool) -> (r: Result<Self, RustToolchainValueError>)
        ensures
            r is Ok <==> (value@.len() > 0 && is_absolute),
            r matches Ok(p) ==> p@ == value@,
            r matches Err(e) ==> if value@.len() == 0 {
                e matches RustToolchainValueError::Empty { field } && field@ == "path"@
            } else {
                e matches RustToolchainValueError::RelativePath { value: v } && v@ == value@
            },
    {
        if is_empty_str(value) {
            return Err(RustToolchainValueError::Empty { field: "path" });
        }
        if !is_absolute {
            return Err(RustToolchainValueError::RelativePath { value: owned(value) });
        }
        Ok(RustToolchainPath(owned(value)))
    }

    /// A toolchain path for `value`, which must be a non-empty absolute path on
    /// this platform; a `surely_relative` path is refused everywhere.
    pub fn new(value: &str) -> (r: Result<Self, RustToolchainValueError>)
        ensures
            value@.len() == 0 ==> (r matches Err(e)
                && e matches RustToolchainValueError::Empty { field } && field@ == "path"@),
            value@.len() > 0 ==> (r matches Ok(p) && p@ == value@)
                || (r matches Err(e) && e matches RustToolchainValueError::RelativePath { value: v } && v@ == value@),
            value@.len() > 0 && surely_relative(value@) ==> (r matches Err(e)
                && e matches RustToolchainValueError::RelativePath { value: v } && v@ == value@),
    {
        let absolute = path_is_absolute(value);
        Self::from_checked(value, absolute)
    }

    /// The path text.
    pub fn as_path(&self) -> (r: &str)
        ensures
            r@ == self@,
            r@.len() > 0,
    {
        proof {
            use_type_invariant(self);
        }
        self.0.as_str()
    }
}

} // verus!
