//! Array-item values of `deny.toml`: each names a package, target, glob or
//! advisory and may carry a reason.

use vstd::prelude::*;
use crate::deny_values::DenyTomlValueError;
use crate::deny_text::{DenyNonEmptyString, DenyPackageSpec};
use crate::text::{owned, join3, str_eq};
use crate::items::FileItem;
use crate::lists::sorted_distinct;
use crate::text_order::{chars_lt, strictly_sorted};

verus! {

/// The view of an optional text.
pub open spec fn opt_view(o: Option<DenyNonEmptyString>) -> Option<Seq<char>> {
    match o {
        Some(s) => Some(s@),
        None => None,
    }
}

/// The view of an optional borrowed text.
pub open spec fn opt_str_view(o: Option<&str>) -> Option<Seq<char>> {
    match o {
        Some(s) => Some(s@),
        None => None,
    }
}

fn opt_str(o: &Option<DenyNonEmptyString>) -> (r: Option<&str>)
    ensures
        opt_str_view(r) == opt_view(*o),
{
    match o {
        Some(s) => Some(s.as_str()),
        None => None,
    }
}

fn clone_opt(o: &Option<DenyNonEmptyString>) -> (r: Option<DenyNonEmptyString>)
    ensures
        r == *o,
{
    match o {
        Some(s) => Some(s.clone()),
        None => None,
    }
}

/// Whether `e` is the error for empty text in `field`.
pub open spec fn is_empty_error(e: DenyTomlValueError, field: Seq<char>) -> bool {
    e matches DenyTomlValueError::Empty { field: f } && f@ == field
}

/// A build target triple of `graph.targets`.
#[derive(Debug, PartialEq, Eq)]
pub struct DenyGraphTargetSpec {
    triple: DenyNonEmptyString,
}

impl View for DenyGraphTargetSpec {
    type V = Seq<char>;

    closed spec fn view(&self) -> Seq<char> {
        self.triple@
    }
}

impl Clone for DenyGraphTargetSpec {
    fn clone(&self) -> (r: Self)
        ensures
            r == *self,
    {
        DenyGraphTargetSpec { triple: self.triple.clone() }
    }
}

impl DenyGraphTargetSpec {
    /// A target for `triple`, which must not be empty.
    pub fn new(triple: &str) -> (r: Result<Self, DenyTomlValueError>)
        ensures
            triple@.len() == 0 <==> r is Err,
            r matches Ok(t) ==> t@ == triple@,
            r matches Err(e) ==> is_empty_error(e, "text"@),
    {
        match DenyNonEmptyString::new(triple) {
            Ok(t) => Ok(DenyGraphTargetSpec { triple: t }),
            Err(e) => Err(e),
        }
    }

    /// The target triple.
    pub fn as_str(&self) -> (r: &str)
        ensures
            r@ == self@,
    {
        self.triple.as_str()
    }
}

/// The identity of an ignored advisory.
#[derive(Debug, PartialEq, Eq)]
pub enum DenyAdvisoryIgnoreIdentity {
    Id(DenyNonEmptyString),
}

impl View for DenyAdvisoryIgnoreIdentity {
    type V = Seq<char>;

    open spec fn view(&self) -> Seq<char> {
        match self {
            DenyAdvisoryIgnoreIdentity::Id(s) => s@,
        }
    }
}

impl Clone for DenyAdvisoryIgnoreIdentity {
    fn clone(&self) -> (r: Self)
        ensures
            r == *self,
    {
        match self {
            DenyAdvisoryIgnoreIdentity::Id(s) => DenyAdvisoryIgnoreIdentity::Id(s.clone()),
        }
    }
}

impl DenyAdvisoryIgnoreIdentity {
    /// An advisory id, which must not be empty.
    pub fn new(value: &str) -> (r: Result<Self, DenyTomlValueError>)
        ensures
            value@.len() == 0 <==> r is Err,
            r matches Ok(t) ==> t@ == value@,
            r matches Err(e) ==> is_empty_error(e, "text"@),
    {
        match DenyNonEmptyString::new(value) {
            Ok(t) => Ok(DenyAdvisoryIgnoreIdentity::Id(t)),
            Err(e) => Err(e),
        }
    }

    /// The advisory id.
    pub fn as_str(&self) -> (r: &str)
        ensures
            r@ == self@,
    {
        match self {
            DenyAdvisoryIgnoreIdentity::Id(s) => s.as_str(),
        }
    }
}

/// An entry of `advisories.ignore`: an advisory id and an optional reason.
#[derive(Debug, PartialEq, Eq)]
pub struct DenyAdvisoryIgnoreSpec {
    identity: DenyAdvisoryIgnoreIdentity,
    reason: Option<DenyNonEmptyString>,
}

impl View for DenyAdvisoryIgnoreSpec {
    type V = (Seq<char>, Option<Seq<char>>);

    closed spec fn view(&self) -> (Seq<char>, Option<Seq<char>>) {
        (self.identity@, opt_view(self.reason))
    }
}

impl Clone for DenyAdvisoryIgnoreSpec {
    fn clone(&self) -> (r: Self)
        ensures
            r == *self,
    {
        DenyAdvisoryIgnoreSpec { identity: self.identity.clone(), reason: clone_opt(&self.reason) }
    }
}

impl DenyAdvisoryIgnoreSpec {
    /// An ignore entry without a reason.
    pub fn new(value: &str) -> (r: Result<Self, DenyTomlValueError>)
        ensures
            value@.len() == 0 <==> r is Err,
            r matches Ok(t) ==> t@ == (value@, None::<Seq<char>>),
            r matches Err(e) ==> is_empty_error(e, "text"@),
    {
        match DenyAdvisoryIgnoreIdentity::new(value) {
            Ok(identity) => Ok(DenyAdvisoryIgnoreSpec { identity, reason: None }),
            Err(e) => Err(e),
        }
    }

    /// An ignore entry with a reason; both texts must not be empty.
    pub fn with_reason(value: &str, reason: &str) -> (r: Result<Self, DenyTomlValueError>)
        ensures
            (value@.len() == 0 || reason@.len() == 0) <==> r is Err,
            r matches Ok(t) ==> t@ == (value@, Some(reason@)),
            r matches Err(e) ==> is_empty_error(e, "text"@),
    {
        let identity = match DenyAdvisoryIgnoreIdentity::new(value) {
            Ok(i) => i,
            Err(e) => return Err(e),
        };
        let reason = match DenyNonEmptyString::new(reason) {
            Ok(r) => r,
            Err(e) => return Err(e),
        };
        Ok(DenyAdvisoryIgnoreSpec { identity, reason: Some(reason) })
    }

    /// The advisory id.
    pub fn as_str(&self) -> (r: &str)
        ensures
            r@ == self@.0,
    {
        self.identity.as_str()
    }

    /// The reason, if any.
    pub fn reason(&self) -> (r: Option<&str>)
        ensures
            opt_str_view(r) == self@.1,
    {
        opt_str(&self.reason)
    }
}

/// An entry of `licenses.exceptions`: a package and the license it may use.
#[derive(Debug, PartialEq, Eq)]
pub struct DenyLicenseException {
    package: DenyPackageSpec,
    license: DenyNonEmptyString,
}

impl View for DenyLicenseException {
    type V = (Seq<char>, Seq<char>);

    closed spec fn view(&self) -> (Seq<char>, Seq<char>) {
        (self.package@, self.license@)
    }
}

impl Clone for DenyLicenseException {
    fn clone(&self) -> (r: Self)
        ensures
            r == *self,
    {
        DenyLicenseException { package: self.package.clone(), license: self.license.clone() }
    }
}

impl DenyLicenseException {
    /// An exception; package and license must not be empty, package checked first.
    pub fn new(package: &str, license: &str) -> (r: Result<Self, DenyTomlValueError>)
        ensures
            (package@.len() == 0 || license@.len() == 0) <==> r is Err,
            r matches Ok(t) ==> t@ == (package@, license@),
            r matches Err(e) ==> if package@.len() == 0 {
                is_empty_error(e, "package"@)
            } else {
                is_empty_error(e, "text"@)
            },
    {
        let package = match DenyPackageSpec::new(package) {
            Ok(p) => p,
            Err(e) => return Err(e),
        };
        let license = match DenyNonEmptyString::new(license) {
            Ok(l) => l,
            Err(e) => return Err(e),
        };
        Ok(DenyLicenseException { package, license })
    }

    /// The package.
    pub fn as_str(&self) -> (r: &str)
        ensures
            r@ == self@.0,
    {
        self.package.as_str()
    }

    /// The allowed license.
    pub fn license(&self) -> (r: &str)
        ensures
            r@ == self@.1,
    {
        self.license.as_str()
    }
}

/// A license file named by a clarification: its path and hash.
#[derive(Debug, PartialEq, Eq)]
pub struct DenyLicenseFile {
    path: DenyNonEmptyString,
    hash: DenyNonEmptyString,
}

impl View for DenyLicenseFile {
    type V = (Seq<char>, Seq<char>);

    closed spec fn view(&self) -> (Seq<char>, Seq<char>) {
        (self.path@, self.hash@)
    }
}

impl Clone for DenyLicenseFile {
    fn clone(&self) -> (r: Self)
        ensures
            r == *self,
    {
        DenyLicenseFile { path: self.path.clone(), hash: self.hash.clone() }
    }
}

impl DenyLicenseFile {
    /// A license file; path and hash must not be empty.
    pub fn new(path: &str, hash: &str) -> (r: Result<Self, DenyTomlValueError>)
        ensures
            (path@.len() == 0 || hash@.len() == 0) <==> r is Err,
            r matches Ok(t) ==> t@ == (path@, hash@),
            r matches Err(e) ==> is_empty_error(e, "text"@),
    {
        let path = match DenyNonEmptyString::new(path) {
            Ok(p) => p,
            Err(e) => return Err(e),
        };
        let hash = match DenyNonEmptyString::new(hash) {
            Ok(h) => h,
            Err(e) => return Err(e),
        };
        Ok(DenyLicenseFile { path, hash })
    }

    /// The path.
    pub fn path(&self) -> (r: &str)
        ensures
            r@ == self@.0,
    {
        self.path.as_str()
    }

    /// The hash.
    pub fn hash(&self) -> (r: &str)
        ensures
            r@ == self@.1,
    {
        self.hash.as_str()
    }
}

/// An entry of `licenses.clarify`.
#[derive(Debug, PartialEq, Eq)]
pub struct DenyLicenseClarification {
    package: DenyPackageSpec,
    version: Option<DenyNonEmptyString>,
    expression: DenyNonEmptyString,
    license_files: Vec<DenyLicenseFile>,
}

impl DenyLicenseClarification {
    /// The package.
    pub closed spec fn spec_package(&self) -> Seq<char> {
        self.package@
    }

    /// The version, if any.
    pub closed spec fn spec_version(&self) -> Option<Seq<char>> {
        opt_view(self.version)
    }

    /// The license expression.
    pub closed spec fn spec_expression(&self) -> Seq<char> {
        self.expression@
    }

    /// The license files.
    pub closed spec fn spec_license_files(&self) -> Seq<DenyLicenseFile> {
        self.license_files@
    }

    /// A clarification without version or license files; package and
    /// expression must not be empty, package checked first.
    pub fn new(package: &str, expression: &str) -> (r: Result<Self, DenyTomlValueError>)
        ensures
            (package@.len() == 0 || expression@.len() == 0) <==> r is Err,
            r matches Ok(t) ==> t.spec_package() == package@ && t.spec_version() is None
                && t.spec_expression() == expression@ && t.spec_license_files().len() == 0
                && t@ == (package@, None::<Seq<char>>, expression@, Seq::<(Seq<char>, Seq<char>)>::empty()),
            r matches Err(e) ==> if package@.len() == 0 {
                is_empty_error(e, "package"@)
            } else {
                is_empty_error(e, "text"@)
            },
    {
        let package = match DenyPackageSpec::new(package) {
            Ok(p) => p,
            Err(e) => return Err(e),
        };
        let expression = match DenyNonEmptyString::new(expression) {
            Ok(x) => x,
            Err(e) => return Err(e),
        };
        let t = DenyLicenseClarification { package, version: None, expression, license_files: Vec::new() };
        assert(file_views(t.license_files@) =~= Seq::<(Seq<char>, Seq<char>)>::empty());
        Ok(t)
    }

    /// The package.
    pub fn as_str(&self) -> (r: &str)
        ensures
            r@ == self.spec_package(),
            r@ == self@.0,
    {
        self.package.as_str()
    }

    /// The version, if any.
    pub fn version(&self) -> (r: Option<&str>)
        ensures
            opt_str_view(r) == self.spec_version(),
            opt_str_view(r) == self@.1,
    {
        opt_str(&self.version)
    }

    /// The license expression.
    pub fn expression(&self) -> (r: &str)
        ensures
            r@ == self.spec_expression(),
            r@ == self@.2,
    {
        self.expression.as_str()
    }

    /// The license files.
    pub fn license_files(&self) -> (r: &[DenyLicenseFile])
        ensures
            r@ == self.spec_license_files(),
            file_views(r@) == self@.3,
    {
        self.license_files.as_slice()
    }
}

/// An entry of `bans.allow` or `bans.skip`: a package and an optional reason.
#[derive(Debug, PartialEq, Eq)]
pub struct DenyPackageReasonSpec {
    package: DenyPackageSpec,
    reason: Option<DenyNonEmptyString>,
}

impl View for DenyPackageReasonSpec {
    type V = (Seq<char>, Option<Seq<char>>);

    closed spec fn view(&self) -> (Seq<char>, Option<Seq<char>>) {
        (self.package@, opt_view(self.reason))
    }
}

impl Clone for DenyPackageReasonSpec {
    fn clone(&self) -> (r: Self)
        ensures
            r == *self,
    {
        DenyPackageReasonSpec { package: self.package.clone(), reason: clone_opt(&self.reason) }
    }
}

impl DenyPackageReasonSpec {
    /// An entry without a reason.
    pub fn new(package: &str) -> (r: Result<Self, DenyTomlValueError>)
        ensures
            package@.len() == 0 <==> r is Err,
            r matches Ok(t) ==> t@ == (package@, None::<Seq<char>>),
            r matches Err(e) ==> is_empty_error(e, "package"@),
    {
        match DenyPackageSpec::new(package) {
            Ok(p) => Ok(DenyPackageReasonSpec { package: p, reason: None }),
            Err(e) => Err(e),
        }
    }

    /// An entry with a reason; package checked first.
    pub fn with_reason(package: &str, reason: &str) -> (r: Result<Self, DenyTomlValueError>)
        ensures
            (package@.len() == 0 || reason@.len() == 0) <==> r is Err,
            r matches Ok(t) ==> t@ == (package@, Some(reason@)),
            r matches Err(e) ==> if package@.len() == 0 {
                is_empty_error(e, "package"@)
            } else {
                is_empty_error(e, "text"@)
            },
    {
        let package = match DenyPackageSpec::new(package) {
            Ok(p) => p,
            Err(e) => return Err(e),
        };
        let reason = match DenyNonEmptyString::new(reason) {
            Ok(r) => r,
            Err(e) => return Err(e),
        };
        Ok(DenyPackageReasonSpec { package, reason: Some(reason) })
    }

    /// The package.
    pub fn as_str(&self) -> (r: &str)
        ensures
            r@ == self@.0,
    {
        self.package.as_str()
    }

    /// The reason, if any.
    pub fn reason(&self) -> (r: Option<&str>)
        ensures
            opt_str_view(r) == self@.1,
    {
        opt_str(&self.reason)
    }
}

/// An entry of `bans.deny`: a package, an optional reason and its wrappers.
#[derive(Debug, PartialEq, Eq)]
pub struct DenyBanSpec {
    package: DenyPackageSpec,
    reason: Option<DenyNonEmptyString>,
    wrappers: Vec<DenyPackageSpec>,
}

impl DenyBanSpec {
    /// The package.
    pub closed spec fn spec_package(&self) -> Seq<char> {
        self.package@
    }

    /// The reason, if any.
    pub closed spec fn spec_reason(&self) -> Option<Seq<char>> {
        opt_view(self.reason)
    }

    /// The wrapper crates.
    pub closed spec fn spec_wrappers(&self) -> Seq<DenyPackageSpec> {
        self.wrappers@
    }

    /// A ban without reason or wrappers.
    pub fn new(package: &str) -> (r: Result<Self, DenyTomlValueError>)
        ensures
            package@.len() == 0 <==> r is Err,
            r matches Ok(t) ==> t.spec_package() == package@ && t.spec_reason() is None
                && t.spec_wrappers().len() == 0
                && t@ == (package@, None::<Seq<char>>, Seq::<Seq<char>>::empty()),
            r matches Err(e) ==> is_empty_error(e, "package"@),
    {
        match DenyPackageSpec::new(package) {
            Ok(p) => {
                let t = DenyBanSpec { package: p, reason: None, wrappers: Vec::new() };
                assert(package_views(t.wrappers@) =~= Seq::<Seq<char>>::empty());
                Ok(t)
            },
            Err(e) => Err(e),
        }
    }

    /// The package.
    pub fn as_str(&self) -> (r: &str)
        ensures
            r@ == self.spec_package(),
            r@ == self@.0,
    {
        self.package.as_str()
    }

    /// The reason, if any.
    pub fn reason(&self) -> (r: Option<&str>)
        ensures
            opt_str_view(r) == self.spec_reason(),
            opt_str_view(r) == self@.1,
    {
        opt_str(&self.reason)
    }

    /// The wrapper crates.
    pub fn wrappers(&self) -> (r: &[DenyPackageSpec])
        ensures
            r@ == self.spec_wrappers(),
            package_views(r@) == self@.2,
    {
        self.wrappers.as_slice()
    }
}

/// An entry of `bans.skip-tree`: a package, an optional depth and reason.
#[derive(Debug, PartialEq, Eq)]
pub struct DenySkipTreeSpec {
    package: DenyPackageSpec,
    depth: Option<u64>,
    reason: Option<DenyNonEmptyString>,
}

impl View for DenySkipTreeSpec {
    type V = (Seq<char>, Option<u64>, Option<Seq<char>>);

    closed spec fn view(&self) -> (Seq<char>, Option<u64>, Option<Seq<char>>) {
        (self.package@, self.depth, opt_view(self.reason))
    }
}

impl Clone for DenySkipTreeSpec {
    fn clone(&self) -> (r: Self)
        ensures
            r == *self,
    {
        DenySkipTreeSpec { package: self.package.clone(), depth: self.depth, reason: clone_opt(&self.reason) }
    }
}

impl DenySkipTreeSpec {
    /// A skip-tree entry without depth or reason.
    pub fn new(package: &str) -> (r: Result<Self, DenyTomlValueError>)
        ensures
            package@.len() == 0 <==> r is Err,
            r matches Ok(t) ==> t@ == (package@, None::<u64>, None::<Seq<char>>),
            r matches Err(e) ==> is_empty_error(e, "package"@),
    {
        match DenyPackageSpec::new(package) {
            Ok(p) => Ok(DenySkipTreeSpec { package: p, depth: None, reason: None }),
            Err(e) => Err(e),
        }
    }

    /// The package.
    pub fn as_str(&self) -> (r: &str)
        ensures
            r@ == self@.0,
    {
        self.package.as_str()
    }

    /// The depth, if any.
    pub fn depth(&self) -> (r: Option<u64>)
        ensures
            r == self@.1,
    {
        self.depth
    }

    /// The reason, if any.
    pub fn reason(&self) -> (r: Option<&str>)
        ensures
            opt_str_view(r) == self@.2,
    {
        opt_str(&self.reason)
    }
}

/// An entry of `bans.build.globs`: a glob and an optional reason.
#[derive(Debug, PartialEq, Eq)]
pub struct DenyBuildGlobSpec {
    glob: DenyNonEmptyString,
    reason: Option<DenyNonEmptyString>,
}

impl View for DenyBuildGlobSpec {
    type V = (Seq<char>, Option<Seq<char>>);

    closed spec fn view(&self) -> (Seq<char>, Option<Seq<char>>) {
        (self.glob@, opt_view(self.reason))
    }
}

impl Clone for DenyBuildGlobSpec {
    fn clone(&self) -> (r: Self)
        ensures
            r == *self,
    {
        DenyBuildGlobSpec { glob: self.glob.clone(), reason: clone_opt(&self.reason) }
    }
}

impl DenyBuildGlobSpec {
    /// A glob without a reason.
    pub fn new(glob: &str) -> (r: Result<Self, DenyTomlValueError>)
        ensures
            glob@.len() == 0 <==> r is Err,
            r matches Ok(t) ==> t@ == (glob@, None::<Seq<char>>),
            r matches Err(e) ==> is_empty_error(e, "text"@),
    {
        match DenyNonEmptyString::new(glob) {
            Ok(g) => Ok(DenyBuildGlobSpec { glob: g, reason: None }),
            Err(e) => Err(e),
        }
    }

    /// A glob with a reason.
    pub fn with_reason(glob: &str, reason: &str) -> (r: Result<Self, DenyTomlValueError>)
        ensures
            (glob@.len() == 0 || reason@.len() == 0) <==> r is Err,
            r matches Ok(t) ==> t@ == (glob@, Some(reason@)),
            r matches Err(e) ==> is_empty_error(e, "text"@),
    {
        let glob = match DenyNonEmptyString::new(glob) {
            Ok(g) => g,
            Err(e) => return Err(e),
        };
        let reason = match DenyNonEmptyString::new(reason) {
            Ok(r) => r,
            Err(e) => return Err(e),
        };
        Ok(DenyBuildGlobSpec { glob, reason: Some(reason) })
    }

    /// The glob.
    pub fn as_str(&self) -> (r: &str)
        ensures
            r@ == self@.0,
    {
        self.glob.as_str()
    }

    /// The reason, if any.
    pub fn reason(&self) -> (r: Option<&str>)
        ensures
            opt_str_view(r) == self@.1,
    {
        opt_str(&self.reason)
    }
}

/// The texts of a list of features.
pub open spec fn feature_views(fs: Seq<DenyNonEmptyString>) -> Seq<Seq<char>> {
    fs.map_values(|f: DenyNonEmptyString| f@)
}

/// Whether `x` is the smallest feature that both `allowed` and `forbidden`
/// name.
#[verifier::opaque]
pub open spec fn smallest_overlap(x: Seq<char>, allowed: Seq<Seq<char>>, forbidden: Seq<Seq<char>>) -> bool {
    &&& allowed.contains(x)
    &&& forbidden.contains(x)
    &&& forall|g: Seq<char>| allowed.contains(g) && forbidden.contains(g) ==> g == x || chars_lt(x, g)
}

/// The position of the first feature of `allowed` that `forbidden` also names.
pub open spec fn spec_first_overlap(allowed: Seq<Seq<char>>, forbidden: Seq<Seq<char>>) -> Option<int> {
    if exists|i: int| 0 <= i < allowed.len() && forbidden.contains(allowed[i]) {
        Some(choose|i: int| 0 <= i < allowed.len() && forbidden.contains(allowed[i])
            && forall|j: int| 0 <= j < i ==> !forbidden.contains(allowed[j]))
    } else {
        None
    }
}

/// The position of the first allowed feature that is also forbidden.
pub fn first_overlap(allowed: &Vec<DenyNonEmptyString>, forbidden: &Vec<DenyNonEmptyString>) -> (r: Option<usize>)
    ensures
        r matches Some(k) ==> k < allowed@.len()
            && spec_first_overlap(feature_views(allowed@), feature_views(forbidden@)) == Some(k as int),
        r is None ==> spec_first_overlap(feature_views(allowed@), feature_views(forbidden@)) is None,
{
    let ghost av = feature_views(allowed@);
    let ghost fv = feature_views(forbidden@);
    let mut i: usize = 0;
    while i < allowed.len()
        invariant
            i <= allowed.len(),
            av == feature_views(allowed@),
            fv == feature_views(forbidden@),
            forall|j: int| 0 <= j < i ==> !fv.contains(av[j]),
        decreases allowed.len() - i,
    {
        if contains_feature(forbidden, &allowed[i]) {
            proof {
                assert(av[i as int] == allowed@[i as int]@);
                assert(0 <= i < av.len() && fv.contains(av[i as int]));
                let k = choose|k: int| 0 <= k < av.len() && fv.contains(av[k])
                    && forall|j: int| 0 <= j < k ==> !fv.contains(av[j]);
                assert(k == i as int) by {
                    if k < i {
                    } else if k > i {
                        assert(!fv.contains(av[i as int]));
                    }
                }
            }
            return Some(i);
        }
        i = i + 1;
    }
    None
}

fn contains_feature(fs: &Vec<DenyNonEmptyString>, f: &DenyNonEmptyString) -> (r: bool)
    ensures
        r == feature_views(fs@).contains(f@),
{
    let mut i: usize = 0;
    while i < fs.len()
        invariant
            i <= fs.len(),
            forall|j: int| 0 <= j < i ==> fs@[j]@ != f@,
        decreases fs.len() - i,
    {
        if str_eq(fs[i].as_str(), f.as_str()) {
            assert(feature_views(fs@)[i as int] == f@);
            return true;
        }
        i = i + 1;
    }
    assert(!feature_views(fs@).contains(f@)) by {
        if feature_views(fs@).contains(f@) {
            let k = choose|k: int| 0 <= k < feature_views(fs@).len() && feature_views(fs@)[k] == f@;
            assert(fs@[k]@ == f@);
        }
    }
    false
}

/// An entry of `bans.features`: a package with its allowed and forbidden
/// features; no feature may be both.
#[derive(Debug, PartialEq, Eq)]
pub struct DenyFeatureBanSpec {
    package: DenyPackageSpec,
    allowed_features: Vec<DenyNonEmptyString>,
    forbidden_features: Vec<DenyNonEmptyString>,
}

impl Clone for DenyFeatureBanSpec {
    fn clone(&self) -> (r: Self)
        ensures
            r.spec_package() == self.spec_package(),
            r.spec_allowed() == self.spec_allowed(),
            r.spec_forbidden() == self.spec_forbidden(),
            r@ == self@,
    {
        DenyFeatureBanSpec {
            package: self.package.clone(),
            allowed_features: clone_features(&self.allowed_features),
            forbidden_features: clone_features(&self.forbidden_features),
        }
    }
}

fn clone_features(fs: &Vec<DenyNonEmptyString>) -> (r: Vec<DenyNonEmptyString>)
    ensures
        r@ == fs@,
{
    let mut out: Vec<DenyNonEmptyString> = Vec::new();
    let mut i: usize = 0;
    while i < fs.len()
        invariant
            i <= fs.len(),
            out@ == fs@.subrange(0, i as int),
        decreases fs.len() - i,
    {
        out.push(fs[i].clone());
        i = i + 1;
        assert(out@ =~= fs@.subrange(0, i as int));
    }
    assert(out@ =~= fs@);
    out
}

impl DenyFeatureBanSpec {
    /// The package.
    pub closed spec fn spec_package(&self) -> Seq<char> {
        self.package@
    }

    /// The allowed features.
    pub closed spec fn spec_allowed(&self) -> Seq<Seq<char>> {
        feature_views(self.allowed_features@)
    }

    /// The forbidden features.
    pub closed spec fn spec_forbidden(&self) -> Seq<Seq<char>> {
        feature_views(self.forbidden_features@)
    }

    /// A feature ban. An empty package is refused first; then the smallest
    /// allowed feature that is also forbidden is reported. The features are
    /// kept as sets: sorted, without repeats.
    pub fn new(
        package: &str,
        allowed_features: Vec<DenyNonEmptyString>,
        forbidden_features: Vec<DenyNonEmptyString>,
    ) -> (r: Result<Self, DenyTomlValueError>)
        ensures
            package@.len() == 0 ==> (r matches Err(e) && is_empty_error(e, "package"@)),
            package@.len() != 0 ==> {
                let a = sorted_distinct(feature_views(allowed_features@));
                let f = sorted_distinct(feature_views(forbidden_features@));
                match spec_first_overlap(a, f) {
                    Some(i) => (0 <= i < a.len())
                        && smallest_overlap(a[i], feature_views(allowed_features@), feature_views(forbidden_features@))
                        && (r matches Err(e) && e matches DenyTomlValueError::OverlappingFeatures { package: p, feature: x }
                        && p@ == package@ && x@ == a[i]),
                    None => r matches Ok(t) && t.spec_package() == package@
                        && t.spec_allowed() == a
                        && t.spec_forbidden() == f
                        && t@ == (package@, a, f),
                }
            },
    {
        let package_spec = match DenyPackageSpec::new(package) {
            Ok(p) => p,
            Err(e) => return Err(e),
        };
        let ghost a0 = feature_views(allowed_features@);
        let ghost f0 = feature_views(forbidden_features@);
        let sa = crate::deny_entries::sorted_features(&allowed_features);
        let sf = crate::deny_entries::sorted_features(&forbidden_features);
        proof {
            crate::laws::lemma_sorted_distinct(a0);
            crate::laws::lemma_sorted_distinct(f0);
        }
        let ghost av = feature_views(sa@);
        let ghost fv = feature_views(sf@);
        let mut i: usize = 0;
        while i < sa.len()
            invariant
                i <= sa.len(),
                package@.len() != 0,
                a0 == feature_views(allowed_features@),
                f0 == feature_views(forbidden_features@),
                av == sorted_distinct(a0),
                fv == sorted_distinct(f0),
                strictly_sorted(av),
                forall|y: Seq<char>| av.contains(y) <==> a0.contains(y),
                forall|y: Seq<char>| fv.contains(y) <==> f0.contains(y),
                av == feature_views(sa@),
                fv == feature_views(sf@),
                forall|j: int| 0 <= j < i ==> !fv.contains(av[j]),
            decreases sa.len() - i,
        {
            if contains_feature(&sf, &sa[i]) {
                proof {
                    assert(av[i as int] == sa@[i as int]@);
                    assert(0 <= i < av.len() && fv.contains(av[i as int]));
                    let k = choose|k: int| 0 <= k < av.len() && fv.contains(av[k])
                        && forall|j: int| 0 <= j < k ==> !fv.contains(av[j]);
                    assert(k == i as int) by {
                        if k < i {
                        } else if k > i {
                            assert(!fv.contains(av[i as int]));
                        }
                    }
                    let x = av[i as int];
                    reveal(smallest_overlap);
                    assert forall|g: Seq<char>| a0.contains(g) && f0.contains(g) implies g == x || chars_lt(x, g) by {
                        assert(av.contains(g));
                        let j = choose|j: int| 0 <= j < av.len() && av[j] == g;
                        if j < i {
                            assert(fv.contains(av[j]));
                        } else if j > i {
                            assert(chars_lt(av[i as int], av[j]));
                        }
                    }
                    assert(exists|m: int| 0 <= m < av.len() && fv.contains(av[m]));
                    assert(spec_first_overlap(av, fv) == Some(i as int));
                    assert(spec_first_overlap(sorted_distinct(a0), sorted_distinct(f0)) == Some(i as int));
                }
                return Err(DenyTomlValueError::OverlappingFeatures {
                    package: owned(package),
                    feature: owned(sa[i].as_str()),
                });
            }
            i = i + 1;
        }
        assert(spec_first_overlap(av, fv) is None);
        Ok(DenyFeatureBanSpec { package: package_spec, allowed_features: sa, forbidden_features: sf })
    }

    /// The package.
    pub fn as_str(&self) -> (r: &str)
        ensures
            r@ == self.spec_package(),
            r@ == self@.0,
    {
        self.package.as_str()
    }

    /// The allowed features.
    pub fn allowed_features(&self) -> (r: &Vec<DenyNonEmptyString>)
        ensures
            feature_views(r@) == self.spec_allowed(),
            feature_views(r@) == self@.1,
    {
        &self.allowed_features
    }

    /// The forbidden features.
    pub fn forbidden_features(&self) -> (r: &Vec<DenyNonEmptyString>)
        ensures
            feature_views(r@) == self.spec_forbidden(),
            feature_views(r@) == self@.2,
    {
        &self.forbidden_features
    }
}


/// The texts of package names.
pub open spec fn package_views(ps: Seq<DenyPackageSpec>) -> Seq<Seq<char>> {
    ps.map_values(|p: DenyPackageSpec| p@)
}

/// The (path, hash) texts of license files.
pub open spec fn file_views(fs: Seq<DenyLicenseFile>) -> Seq<(Seq<char>, Seq<char>)> {
    fs.map_values(|f: DenyLicenseFile| f@)
}

impl View for DenyLicenseClarification {
    type V = (Seq<char>, Option<Seq<char>>, Seq<char>, Seq<(Seq<char>, Seq<char>)>);

    closed spec fn view(&self) -> Self::V {
        (self.package@, opt_view(self.version), self.expression@, file_views(self.license_files@))
    }
}

impl View for DenyBanSpec {
    type V = (Seq<char>, Option<Seq<char>>, Seq<Seq<char>>);

    closed spec fn view(&self) -> Self::V {
        (self.package@, opt_view(self.reason), package_views(self.wrappers@))
    }
}

impl View for DenyFeatureBanSpec {
    type V = (Seq<char>, Seq<Seq<char>>, Seq<Seq<char>>);

    closed spec fn view(&self) -> Self::V {
        (self.package@, feature_views(self.allowed_features@), feature_views(self.forbidden_features@))
    }
}

fn clone_files(fs: &Vec<DenyLicenseFile>) -> (r: Vec<DenyLicenseFile>)
    ensures
        r@ == fs@,
{
    let mut out: Vec<DenyLicenseFile> = Vec::new();
    let mut i: usize = 0;
    while i < fs.len()
        invariant
            i <= fs.len(),
            out@ == fs@.subrange(0, i as int),
        decreases fs.len() - i,
    {
        out.push(fs[i].clone());
        i = i + 1;
        assert(out@ =~= fs@.subrange(0, i as int));
    }
    assert(out@ =~= fs@);
    out
}

fn clone_packages(ps: &Vec<DenyPackageSpec>) -> (r: Vec<DenyPackageSpec>)
    ensures
        r@ == ps@,
{
    let mut out: Vec<DenyPackageSpec> = Vec::new();
    let mut i: usize = 0;
    while i < ps.len()
        invariant
            i <= ps.len(),
            out@ == ps@.subrange(0, i as int),
        decreases ps.len() - i,
    {
        out.push(ps[i].clone());
        i = i + 1;
        assert(out@ =~= ps@.subrange(0, i as int));
    }
    assert(out@ =~= ps@);
    out
}

impl Clone for DenyLicenseClarification {
    fn clone(&self) -> (r: Self)
        ensures
            r@ == self@,
    {
        DenyLicenseClarification {
            package: self.package.clone(),
            version: clone_opt(&self.version),
            expression: self.expression.clone(),
            license_files: clone_files(&self.license_files),
        }
    }
}

impl Clone for DenyBanSpec {
    fn clone(&self) -> (r: Self)
        ensures
            r@ == self@,
    {
        DenyBanSpec {
            package: self.package.clone(),
            reason: clone_opt(&self.reason),
            wrappers: clone_packages(&self.wrappers),
        }
    }
}

fn same_opt_text(a: &Option<DenyNonEmptyString>, b: &Option<DenyNonEmptyString>) -> (r: bool)
    ensures
        r == (opt_view(*a) == opt_view(*b)),
{
    match (a, b) {
        (Some(x), Some(y)) => str_eq(x.as_str(), y.as_str()),
        (None, None) => true,
        _ => false,
    }
}

fn same_features(a: &Vec<DenyNonEmptyString>, b: &Vec<DenyNonEmptyString>) -> (r: bool)
    ensures
        r == (feature_views(a@) == feature_views(b@)),
{
    if a.len() != b.len() {
        assert(feature_views(a@).len() != feature_views(b@).len());
        return false;
    }
    let mut i: usize = 0;
    while i < a.len()
        invariant
            a.len() == b.len(),
            i <= a.len(),
            forall|k: int| 0 <= k < i ==> a@[k]@ == b@[k]@,
        decreases a.len() - i,
    {
        if !str_eq(a[i].as_str(), b[i].as_str()) {
            assert(feature_views(a@)[i as int] != feature_views(b@)[i as int]);
            return false;
        }
        i = i + 1;
    }
    assert(feature_views(a@) =~= feature_views(b@));
    true
}

fn same_packages(a: &Vec<DenyPackageSpec>, b: &Vec<DenyPackageSpec>) -> (r: bool)
    ensures
        r == (package_views(a@) == package_views(b@)),
{
    if a.len() != b.len() {
        assert(package_views(a@).len() != package_views(b@).len());
        return false;
    }
    let mut i: usize = 0;
    while i < a.len()
        invariant
            a.len() == b.len(),
            i <= a.len(),
            forall|k: int| 0 <= k < i ==> a@[k]@ == b@[k]@,
        decreases a.len() - i,
    {
        if !str_eq(a[i].as_str(), b[i].as_str()) {
            assert(package_views(a@)[i as int] != package_views(b@)[i as int]);
            return false;
        }
        i = i + 1;
    }
    assert(package_views(a@) =~= package_views(b@));
    true
}

fn same_files(a: &Vec<DenyLicenseFile>, b: &Vec<DenyLicenseFile>) -> (r: bool)
    ensures
        r == (file_views(a@) == file_views(b@)),
{
    if a.len() != b.len() {
        assert(file_views(a@).len() != file_views(b@).len());
        return false;
    }
    let mut i: usize = 0;
    while i < a.len()
        invariant
            a.len() == b.len(),
            i <= a.len(),
            forall|k: int| 0 <= k < i ==> a@[k]@ == b@[k]@,
        decreases a.len() - i,
    {
        if !str_eq(a[i].path(), b[i].path()) || !str_eq(a[i].hash(), b[i].hash()) {
            assert(file_views(a@)[i as int] != file_views(b@)[i as int]);
            return false;
        }
        i = i + 1;
    }
    assert(file_views(a@) =~= file_views(b@));
    true
}

impl FileItem for DenyGraphTargetSpec {
    open spec fn spec_identity(&self) -> Seq<char> {
        self@
    }

    fn identity(&self) -> (r: String) {
        owned(self.as_str())
    }

    fn same_item(&self, other: &Self) -> (r: bool) {
        str_eq(self.as_str(), other.as_str())
    }

    fn duplicate(&self) -> (r: Self) {
        self.clone()
    }
}

impl FileItem for DenyAdvisoryIgnoreSpec {
    open spec fn spec_identity(&self) -> Seq<char> {
        self@.0
    }

    fn identity(&self) -> (r: String) {
        owned(self.as_str())
    }

    fn same_item(&self, other: &Self) -> (r: bool) {
        str_eq(self.as_str(), other.as_str()) && same_opt_text(&self.reason, &other.reason)
    }

    fn duplicate(&self) -> (r: Self) {
        self.clone()
    }
}

impl FileItem for DenyLicenseException {
    open spec fn spec_identity(&self) -> Seq<char> {
        self@.0
    }

    fn identity(&self) -> (r: String) {
        owned(self.as_str())
    }

    fn same_item(&self, other: &Self) -> (r: bool) {
        str_eq(self.as_str(), other.as_str()) && str_eq(self.license(), other.license())
    }

    fn duplicate(&self) -> (r: Self) {
        self.clone()
    }
}

impl FileItem for DenyLicenseClarification {
    /// The package, followed by `@` and the version when there is one.
    open spec fn spec_identity(&self) -> Seq<char> {
        match self@.1 {
            Some(v) => self@.0 + "@"@ + v,
            None => self@.0,
        }
    }

    fn identity(&self) -> (r: String) {
        match &self.version {
            Some(v) => join3(self.package.as_str(), "@", v.as_str()),
            None => owned(self.package.as_str()),
        }
    }

    fn same_item(&self, other: &Self) -> (r: bool) {
        str_eq(self.package.as_str(), other.package.as_str())
            && same_opt_text(&self.version, &other.version)
            && str_eq(self.expression.as_str(), other.expression.as_str())
            && same_files(&self.license_files, &other.license_files)
    }

    fn duplicate(&self) -> (r: Self) {
        self.clone()
    }
}

impl FileItem for DenyPackageReasonSpec {
    open spec fn spec_identity(&self) -> Seq<char> {
        self@.0
    }

    fn identity(&self) -> (r: String) {
        owned(self.as_str())
    }

    fn same_item(&self, other: &Self) -> (r: bool) {
        str_eq(self.as_str(), other.as_str()) && same_opt_text(&self.reason, &other.reason)
    }

    fn duplicate(&self) -> (r: Self) {
        self.clone()
    }
}

impl FileItem for DenyBanSpec {
    open spec fn spec_identity(&self) -> Seq<char> {
        self@.0
    }

    fn identity(&self) -> (r: String) {
        owned(self.package.as_str())
    }

    fn same_item(&self, other: &Self) -> (r: bool) {
        str_eq(self.package.as_str(), other.package.as_str())
            && same_opt_text(&self.reason, &other.reason)
            && same_packages(&self.wrappers, &other.wrappers)
    }

    fn duplicate(&self) -> (r: Self) {
        self.clone()
    }
}

impl FileItem for DenyFeatureBanSpec {
    open spec fn spec_identity(&self) -> Seq<char> {
        self@.0
    }

    fn identity(&self) -> (r: String) {
        owned(self.package.as_str())
    }

    fn same_item(&self, other: &Self) -> (r: bool) {
        str_eq(self.package.as_str(), other.package.as_str())
            && same_features(&self.allowed_features, &other.allowed_features)
            && same_features(&self.forbidden_features, &other.forbidden_features)
    }

    fn duplicate(&self) -> (r: Self) {
        self.clone()
    }
}

impl FileItem for DenySkipTreeSpec {
    open spec fn spec_identity(&self) -> Seq<char> {
        self@.0
    }

    fn identity(&self) -> (r: String) {
        owned(self.as_str())
    }

    fn same_item(&self, other: &Self) -> (r: bool) {
        str_eq(self.as_str(), other.as_str()) && self.depth == other.depth
            && same_opt_text(&self.reason, &other.reason)
    }

    fn duplicate(&self) -> (r: Self) {
        self.clone()
    }
}

impl FileItem for DenyBuildGlobSpec {
    open spec fn spec_identity(&self) -> Seq<char> {
        self@.0
    }

    fn identity(&self) -> (r: String) {
        owned(self.as_str())
    }

    fn same_item(&self, other: &Self) -> (r: bool) {
        str_eq(self.as_str(), other.as_str()) && same_opt_text(&self.reason, &other.reason)
    }

    fn duplicate(&self) -> (r: Self) {
        self.clone()
    }
}

} // verus!
