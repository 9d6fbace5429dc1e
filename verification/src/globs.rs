//! Path globs, compiled and matched by `globset`.

use vstd::prelude::*;
use globset::{GlobBuilder, GlobSetBuilder};

verus! {

/// What compiling a glob with the given options reports: `None` when
/// `GlobBuilder::build` parses it and `GlobSetBuilder::build` compiles the
/// set that holds it alone, otherwise the text of the first error. Both
/// steps depend on the glob and the two options only (the regex size limits
/// are fixed in `globset`).
pub uninterp spec fn glob_compile_error(glob: Seq<char>, literal_separator: bool, backslash_escape: bool) -> Option<Seq<char>>;

/// Whether `GlobSet::is_match` finds `path` matched by the set holding
/// `glob` alone, built with the given options, for a path that holds no
/// `\`. `Candidate::new` rewrites only `\` (and only off Unix), so for
/// such a path the answer depends on the glob, the options and the path.
pub uninterp spec fn glob_path_match(glob: Seq<char>, literal_separator: bool, backslash_escape: bool, path: Seq<char>) -> bool;

/// Whether `row` holds, for each path of `paths` without `\`, whether
/// `glob` matches it.
pub open spec fn plain_matches(glob: Seq<char>, literal_separator: bool, backslash_escape: bool, paths: Seq<Seq<char>>, row: Seq<bool>) -> bool {
    forall|c: int| 0 <= c < row.len() && c < paths.len() && !paths[c].contains('\\')
        ==> #[trigger] row[c] == glob_path_match(glob, literal_separator, backslash_escape, paths[c])
}

/// Builds `glob` with `globset::GlobBuilder`, `literal_separator` and
/// `backslash_escape` set as given, then a `GlobSet` that holds it, and
/// returns the text of the error when either step fails (a glob that does
/// not parse, or one whose regex is over `globset`'s size limit). The
/// contract names the outcome and claims nothing more.
#[verifier::external_body]
pub fn glob_error(glob: &str, literal_separator: bool, backslash_escape: bool) -> (r: Option<String>)
    ensures
        match r {
            Some(e) => glob_compile_error(glob@, literal_separator, backslash_escape) == Some(e@),
            None => glob_compile_error(glob@, literal_separator, backslash_escape) is None,
        },
{
    let compiled = match GlobBuilder::new(glob).literal_separator(literal_separator).backslash_escape(backslash_escape).build() {
        Ok(g) => g,
        Err(err) => return Some(err.to_string()),
    };
    match GlobSetBuilder::new().add(compiled).build() {
        Ok(_) => None,
        Err(err) => Some(err.to_string()),
    }
}

/// Whether `path` matches `glob`, built as `glob_error` builds it, by
/// `GlobSet::is_match`. Only a glob that compiles is accepted, so neither
/// build fails. The match goes through `Candidate::new`, which rewrites `\`
/// to `/` off Unix: for a path without `\` the answer is the named one; for
/// one with `\` it also depends on the platform and is left unsaid.
#[verifier::external_body]
pub fn glob_is_match(glob: &str, literal_separator: bool, backslash_escape: bool, path: &str) -> (r: bool)
    requires
        glob_compile_error(glob@, literal_separator, backslash_escape) is None,
    ensures
        !path@.contains('\\') ==> r == glob_path_match(glob@, literal_separator, backslash_escape, path@),
{
    let compiled = GlobBuilder::new(glob).literal_separator(literal_separator).backslash_escape(backslash_escape).build();
    let set = GlobSetBuilder::new().add(compiled.expect("a glob that parses")).build();
    set.expect("a glob set that compiles").is_match(path)
}

} // verus!
