//! How each kind of `deny.toml` array item is read from an entry, written
//! back, matched against a requirement and shown in findings.
//!
//! A package may be named by `crate`, or by the older `name`; an entry that
//! still uses `name` is not canonical and is rewritten with `crate`.

use vstd::prelude::*;
use crate::deny_items::{
    DenyAdvisoryIgnoreSpec, DenyBanSpec, DenyBuildGlobSpec, DenyGraphTargetSpec, DenyLicenseClarification,
    DenyLicenseException, DenyPackageReasonSpec, DenySkipTreeSpec, DenyFeatureBanSpec, opt_str_view,
};
use crate::deny_items::{feature_views, file_views, spec_first_overlap};
use crate::deny_text::DenyNonEmptyString;
use crate::lists::sorted_distinct;
use crate::text_order::string_views;
use crate::toolchain_lists::canonical_of;
use crate::toml_entries::{EntryField, entry_core, field_of, first_key, lemma_first_key, lookup, pairs_field, write_fields, write_keys};
use crate::items::FileItem;
use crate::text::{join3, owned};
use crate::toml_entries::{
    EntryCore, EntryWrite, FieldView, FieldWrite, TomlEntry, all_write_keys, entry_has_key,
    entry_str_field, entry_str_field_or, entry_write_view, has_key, str_field, str_field_or, write_keys_distinct,
};

verus! {

/// An item of a `deny.toml` array setting, as its entries read and write.
pub trait DenyArrayItem: FileItem {
    /// Whether the setting is an array of tables rather than an array.
    spec fn spec_tables() -> bool;

    /// What reading an entry gives: the item's view, or the error's text.
    spec fn spec_parse(e: EntryCore) -> Result<Self::V, Seq<char>>;

    /// The identity of an item, by its view.
    spec fn spec_id(v: Self::V) -> Seq<char>;

    /// Whether a current item satisfies a required one.
    spec fn spec_matches(current: Self::V, required: Self::V) -> bool;

    /// Whether an entry has the canonical form.
    spec fn spec_canonical(e: EntryCore) -> bool;

    /// What writing an item leaves as its entry.
    spec fn spec_written(v: Self::V) -> EntryCore;

    /// The text an item is shown as.
    spec fn spec_shown(v: Self::V) -> Seq<char>;

    proof fn lemma_id(&self)
        ensures
            self.spec_identity() == Self::spec_id(self@);

    /// Whether an item's texts are what its type guarantees: not empty, a
    /// clarification without version, a feature ban without a feature both
    /// allowed and denied.
    spec fn spec_valid(v: Self::V) -> bool;

    /// What reads as an item is valid.
    proof fn lemma_parsed_valid(e: EntryCore)
        requires
            Self::spec_parse(e) is Ok,
        ensures
            Self::spec_valid(Self::spec_parse(e)->Ok_0);

    /// Satisfying a requirement carries over.
    proof fn lemma_matches_transitive(a: Self::V, b: Self::V, c: Self::V)
        requires
            Self::spec_matches(a, b),
            Self::spec_matches(b, c),
        ensures
            Self::spec_matches(a, c);

    /// A valid item written reads back as an item of its identity that
    /// satisfies it, in canonical form.
    proof fn lemma_written_reads_back(v: Self::V)
        requires
            Self::spec_valid(v),
        ensures
            Self::spec_parse(Self::spec_written(v)) is Ok,
            Self::spec_matches(Self::spec_parse(Self::spec_written(v))->Ok_0, v),
            Self::spec_id(Self::spec_parse(Self::spec_written(v))->Ok_0) == Self::spec_id(v),
            Self::spec_canonical(Self::spec_written(v));

    fn tables() -> (r: bool)
        ensures
            r == Self::spec_tables();

    fn parse_entry(e: &TomlEntry) -> (r: Result<Self, String>)
        ensures
            match r {
                Ok(t) => Self::spec_parse(entry_core(e@)) == Ok::<Self::V, Seq<char>>(t@),
                Err(m) => Self::spec_parse(entry_core(e@)) == Err::<Self::V, Seq<char>>(m@),
            };

    fn matches(current: &Self, required: &Self) -> (r: bool)
        ensures
            r == Self::spec_matches(current@, required@);

    fn canonical(e: &TomlEntry) -> (r: bool)
        ensures
            r == Self::spec_canonical(entry_core(e@));

    fn written(&self) -> (r: EntryWrite)
        ensures
            entry_write_view(r) == Self::spec_written(self@),
            write_keys_distinct(r),
            Self::spec_tables() ==> r is Table;

    fn shown(&self) -> (r: String)
        ensures
            r@ == Self::spec_shown(self@);
}

/// The key texts an entry may hold are told apart.
pub proof fn lemma_key_texts()
    ensures
        "crate"@ != "name"@, "reason"@ != "name"@, "allow"@ != "name"@, "depth"@ != "name"@,
        "id"@ != "reason"@, "crate"@ != "reason"@, "crate"@ != "allow"@, "glob"@ != "reason"@,
        "crate"@ != "depth"@, "depth"@ != "reason"@, "crate"@ != "expression"@, "crate"@ != "deny"@,
        "allow"@ != "deny"@, "expression"@ != "license-files"@, "crate"@ != "license-files"@,
        "license-files"@ != "name"@, "expression"@ != "name"@, "deny"@ != "name"@,
{
    reveal_strlit("crate");
    reveal_strlit("name");
    reveal_strlit("reason");
    reveal_strlit("allow");
    reveal_strlit("depth");
    reveal_strlit("id");
    reveal_strlit("glob");
    reveal_strlit("expression");
    reveal_strlit("deny");
    reveal_strlit("license-files");
    assert("crate"@.len() != "name"@.len());
    assert("reason"@.len() != "name"@.len());
    assert("allow"@.len() != "name"@.len());
    assert("depth"@.len() != "name"@.len());
    assert("id"@.len() != "reason"@.len());
    assert("crate"@.len() != "reason"@.len());
    assert("crate"@[0] != "allow"@[0]);
    assert("glob"@.len() != "reason"@.len());
    assert("crate"@[0] != "depth"@[0]);
    assert("depth"@.len() != "reason"@.len());
    assert("crate"@.len() != "expression"@.len());
    assert("crate"@.len() != "deny"@.len());
    assert("allow"@.len() != "deny"@.len());
    assert("expression"@.len() != "license-files"@.len());
    assert("crate"@.len() != "license-files"@.len());
    assert("license-files"@.len() != "name"@.len());
    assert("expression"@.len() != "name"@.len());
    assert("deny"@[0] != "name"@[0]);
}

/// A table entry with the keys `keys` has no `name` key when none of them is.
pub proof fn lemma_no_name(keys: Seq<Seq<char>>)
    requires
        forall|i: int| 0 <= i < keys.len() ==> keys[i] != "name"@,
    ensures
        !keys.contains("name"@),
{
}

/// The first key of each of two different keys.
pub proof fn lemma_two_keys(a: Seq<char>, b: Seq<char>)
    requires
        a != b,
    ensures
        first_key(seq![a, b], a) == Some(0int),
        first_key(seq![a, b], b) == Some(1int),
{
    lemma_first_key(seq![a, b], a, 0);
    lemma_first_key(seq![a, b], b, 1);
}

/// The text of the error for an empty `field`.
pub open spec fn empty_message(field: Seq<char>) -> Seq<char> {
    field + " must not be empty"@
}

/// The package an inline table or table names: its `crate`, or its `name`
/// when it has no `crate`.
pub open spec fn package_of(e: EntryCore) -> Option<Seq<char>> {
    str_field_or(e, "crate"@, "name"@)
}

/// Whether an entry avoids the older `name` key.
pub open spec fn without_name(e: EntryCore) -> bool {
    !has_key(e, "name"@)
}

/// `key=value`, followed by ` reason=` and the reason when there is one.
pub open spec fn shown_reason(key: Seq<char>, value: Seq<char>, reason: Option<Seq<char>>) -> Seq<char> {
    match reason {
        Some(r) => key + "="@ + value + " reason="@ + r,
        None => key + "="@ + value,
    }
}

/// A string field read back.
pub open spec fn str_view(s: Seq<char>) -> FieldView {
    (0, s, 0, seq![])
}

/// Whether a current optional text satisfies a required one: any does when
/// none is required.
pub open spec fn opt_satisfies(current: Option<Seq<char>>, required: Option<Seq<char>>) -> bool {
    required is None || current == required
}

fn show_reason(key: &str, value: &str, reason: Option<&str>) -> (r: String)
    ensures
        r@ == shown_reason(key@, value@, opt_str_view(reason)),
{
    let mut out = join3(key, "=", value);
    match reason {
        Some(x) => {
            out.append(" reason=");
            out.append(x);
        },
        None => {},
    }
    out
}

fn opt_satisfied(current: Option<&str>, required: Option<&str>) -> (r: bool)
    ensures
        r == opt_satisfies(opt_str_view(current), opt_str_view(required)),
{
    match (current, required) {
        (_, None) => true,
        (Some(c), Some(q)) => crate::text::str_eq(c, q),
        (None, Some(_)) => false,
    }
}

fn str_write(key: &str, value: &str) -> (r: (String, FieldWrite))
    ensures
        r.0@ == key@,
        crate::toml_entries::field_write_view(r.1) == str_view(value@),
{
    (owned(key), FieldWrite::Str(owned(value)))
}

/// A table of string fields `k1 = v1` and, when given, `k2 = v2`.
fn str_table(k1: &str, v1: &str, second: Option<(&str, &str)>) -> (r: EntryWrite)
    requires
        second matches Some(p) ==> k1@ != p.0@,
    ensures
        entry_write_view(r) == match second {
            Some(p) => (1int, Seq::<char>::empty(), seq![k1@, p.0@], seq![str_view(v1@), str_view(p.1@)]),
            None => (1int, Seq::<char>::empty(), seq![k1@], seq![str_view(v1@)]),
        },
        write_keys_distinct(r),
        r is Table,
{
    let mut fields: Vec<(String, FieldWrite)> = Vec::new();
    fields.push(str_write(k1, v1));
    match second {
        Some((k2, v2)) => fields.push(str_write(k2, v2)),
        None => {},
    }
    let r = EntryWrite::Table { fields, pairs: None };
    proof {
        let ks = all_write_keys(r);
        match second {
            Some(p) => {
                assert(ks =~= seq![k1@, p.0@]);
            },
            None => {
                assert(ks =~= seq![k1@]);
            },
        }
        assert(crate::toml_entries::write_fields(fields@) =~= match second {
            Some(p) => seq![str_view(v1@), str_view(p.1@)],
            None => seq![str_view(v1@)],
        });
    }
    r
}

impl DenyArrayItem for DenyGraphTargetSpec {
    open spec fn spec_tables() -> bool {
        false
    }

    open spec fn spec_parse(e: EntryCore) -> Result<Seq<char>, Seq<char>> {
        if e.0 == 0 {
            if e.1.len() == 0 { Err(empty_message("text"@)) } else { Ok(e.1) }
        } else {
            Err("graph target must be a string"@)
        }
    }

    open spec fn spec_id(v: Seq<char>) -> Seq<char> {
        v
    }

    open spec fn spec_matches(current: Seq<char>, required: Seq<char>) -> bool {
        current == required
    }

    open spec fn spec_canonical(e: EntryCore) -> bool {
        true
    }

    open spec fn spec_written(v: Seq<char>) -> EntryCore {
        (0, v, seq![], seq![])
    }

    open spec fn spec_shown(v: Seq<char>) -> Seq<char> {
        v
    }

    proof fn lemma_id(&self) {
    }

    open spec fn spec_valid(v: Seq<char>) -> bool {
        v.len() > 0
    }

    proof fn lemma_parsed_valid(e: EntryCore) {
    }

    proof fn lemma_matches_transitive(a: Seq<char>, b: Seq<char>, c: Seq<char>) {
    }

    proof fn lemma_written_reads_back(v: Seq<char>) {
    }

    fn tables() -> (r: bool) {
        false
    }

    fn parse_entry(e: &TomlEntry) -> (r: Result<Self, String>) {
        match e {
            TomlEntry::Str { value, .. } => match DenyGraphTargetSpec::new(value.as_str()) {
                Ok(t) => Ok(t),
                Err(err) => Err(err.message()),
            },
            _ => Err(owned("graph target must be a string")),
        }
    }

    fn matches(current: &Self, required: &Self) -> (r: bool) {
        crate::text::str_eq(current.as_str(), required.as_str())
    }

    fn canonical(e: &TomlEntry) -> (r: bool) {
        true
    }

    fn written(&self) -> (r: EntryWrite) {
        let r = EntryWrite::Str(owned(self.as_str()));
        assert(all_write_keys(r) =~= Seq::<Seq<char>>::empty());
        r
    }

    fn shown(&self) -> (r: String) {
        owned(self.as_str())
    }
}

impl DenyArrayItem for DenyAdvisoryIgnoreSpec {
    open spec fn spec_tables() -> bool {
        false
    }

    open spec fn spec_parse(e: EntryCore) -> Result<(Seq<char>, Option<Seq<char>>), Seq<char>> {
        if e.0 == 0 {
            if e.1.len() == 0 { Err(empty_message("text"@)) } else { Ok((e.1, None)) }
        } else if e.0 == 1 {
            match str_field(e, "id"@) {
                None => Err("advisory ignore table requires id"@),
                Some(id) => match str_field(e, "reason"@) {
                    None => if id.len() == 0 { Err(empty_message("text"@)) } else { Ok((id, None)) },
                    Some(r) => if id.len() == 0 || r.len() == 0 {
                        Err(empty_message("text"@))
                    } else {
                        Ok((id, Some(r)))
                    },
                },
            }
        } else {
            Err("advisory ignore must be a string or inline table"@)
        }
    }

    open spec fn spec_id(v: (Seq<char>, Option<Seq<char>>)) -> Seq<char> {
        v.0
    }

    open spec fn spec_matches(current: (Seq<char>, Option<Seq<char>>), required: (Seq<char>, Option<Seq<char>>)) -> bool {
        current.0 == required.0 && opt_satisfies(current.1, required.1)
    }

    open spec fn spec_canonical(e: EntryCore) -> bool {
        true
    }

    open spec fn spec_written(v: (Seq<char>, Option<Seq<char>>)) -> EntryCore {
        match v.1 {
            Some(r) => (1, seq![], seq!["id"@, "reason"@], seq![str_view(v.0), str_view(r)]),
            None => (0, v.0, seq![], seq![]),
        }
    }

    open spec fn spec_shown(v: (Seq<char>, Option<Seq<char>>)) -> Seq<char> {
        shown_reason("id"@, v.0, v.1)
    }

    proof fn lemma_id(&self) {
    }

    open spec fn spec_valid(v: (Seq<char>, Option<Seq<char>>)) -> bool {
        v.0.len() > 0 && (v.1 matches Some(r) ==> r.len() > 0)
    }

    proof fn lemma_parsed_valid(e: EntryCore) {
    }

    proof fn lemma_matches_transitive(a: (Seq<char>, Option<Seq<char>>), b: (Seq<char>, Option<Seq<char>>), c: (Seq<char>, Option<Seq<char>>)) {
    }

    proof fn lemma_written_reads_back(v: (Seq<char>, Option<Seq<char>>)) {
        lemma_key_texts();
        lemma_two_keys("id"@, "reason"@);
    }

    fn tables() -> (r: bool) {
        false
    }

    fn parse_entry(e: &TomlEntry) -> (r: Result<Self, String>) {
        match e {
            TomlEntry::Str { value, .. } => match DenyAdvisoryIgnoreSpec::new(value.as_str()) {
                Ok(t) => Ok(t),
                Err(err) => Err(err.message()),
            },
            TomlEntry::Table { .. } => {
                let id = match entry_str_field(e, "id") {
                    Some(id) => id,
                    None => return Err(owned("advisory ignore table requires id")),
                };
                let made = match entry_str_field(e, "reason") {
                    Some(reason) => DenyAdvisoryIgnoreSpec::with_reason(id.as_str(), reason.as_str()),
                    None => DenyAdvisoryIgnoreSpec::new(id.as_str()),
                };
                match made {
                    Ok(t) => Ok(t),
                    Err(err) => Err(err.message()),
                }
            },
            _ => Err(owned("advisory ignore must be a string or inline table")),
        }
    }

    fn matches(current: &Self, required: &Self) -> (r: bool) {
        crate::text::str_eq(current.as_str(), required.as_str()) && opt_satisfied(current.reason(), required.reason())
    }

    fn canonical(e: &TomlEntry) -> (r: bool) {
        true
    }

    fn written(&self) -> (r: EntryWrite) {
        match self.reason() {
            Some(reason) => {
                proof {
                    reveal_strlit("id");
                    reveal_strlit("reason");
                    assert("id"@.len() != "reason"@.len() || "id"@[0] != "reason"@[0]);
                }
                str_table("id", self.as_str(), Some(("reason", reason)))
            },
            None => {
                let r = EntryWrite::Str(owned(self.as_str()));
                assert(all_write_keys(r) =~= Seq::<Seq<char>>::empty());
                r
            },
        }
    }

    fn shown(&self) -> (r: String) {
        show_reason("id", self.as_str(), self.reason())
    }
}

/// What reading a package entry with an optional reason gives.
pub open spec fn package_reason_parse(e: EntryCore) -> Result<(Seq<char>, Option<Seq<char>>), Seq<char>> {
    if e.0 == 0 {
        if e.1.len() == 0 { Err(empty_message("package"@)) } else { Ok((e.1, None)) }
    } else if e.0 == 1 {
        match package_of(e) {
            None => Err("package table requires crate"@),
            Some(p) => match str_field(e, "reason"@) {
                None => if p.len() == 0 { Err(empty_message("package"@)) } else { Ok((p, None)) },
                Some(r) => if p.len() == 0 {
                    Err(empty_message("package"@))
                } else if r.len() == 0 {
                    Err(empty_message("text"@))
                } else {
                    Ok((p, Some(r)))
                },
            },
        }
    } else {
        Err("package entry must be a string or inline table"@)
    }
}

impl DenyArrayItem for DenyPackageReasonSpec {
    open spec fn spec_tables() -> bool {
        false
    }

    open spec fn spec_parse(e: EntryCore) -> Result<(Seq<char>, Option<Seq<char>>), Seq<char>> {
        package_reason_parse(e)
    }

    open spec fn spec_id(v: (Seq<char>, Option<Seq<char>>)) -> Seq<char> {
        v.0
    }

    open spec fn spec_matches(current: (Seq<char>, Option<Seq<char>>), required: (Seq<char>, Option<Seq<char>>)) -> bool {
        current.0 == required.0 && opt_satisfies(current.1, required.1)
    }

    open spec fn spec_canonical(e: EntryCore) -> bool {
        without_name(e)
    }

    open spec fn spec_written(v: (Seq<char>, Option<Seq<char>>)) -> EntryCore {
        match v.1 {
            Some(r) => (1, seq![], seq!["crate"@, "reason"@], seq![str_view(v.0), str_view(r)]),
            None => (0, v.0, seq![], seq![]),
        }
    }

    open spec fn spec_shown(v: (Seq<char>, Option<Seq<char>>)) -> Seq<char> {
        shown_reason("crate"@, v.0, v.1)
    }

    proof fn lemma_id(&self) {
    }

    open spec fn spec_valid(v: (Seq<char>, Option<Seq<char>>)) -> bool {
        v.0.len() > 0 && (v.1 matches Some(r) ==> r.len() > 0)
    }

    proof fn lemma_parsed_valid(e: EntryCore) {
    }

    proof fn lemma_matches_transitive(a: (Seq<char>, Option<Seq<char>>), b: (Seq<char>, Option<Seq<char>>), c: (Seq<char>, Option<Seq<char>>)) {
    }

    proof fn lemma_written_reads_back(v: (Seq<char>, Option<Seq<char>>)) {
        lemma_key_texts();
        lemma_two_keys("crate"@, "reason"@);
        lemma_no_name(seq!["crate"@, "reason"@]);
    }

    fn tables() -> (r: bool) {
        false
    }

    fn parse_entry(e: &TomlEntry) -> (r: Result<Self, String>) {
        match e {
            TomlEntry::Str { value, .. } => match DenyPackageReasonSpec::new(value.as_str()) {
                Ok(t) => Ok(t),
                Err(err) => Err(err.message()),
            },
            TomlEntry::Table { .. } => {
                let package = match entry_str_field_or(e, "crate", "name") {
                    Some(p) => p,
                    None => return Err(owned("package table requires crate")),
                };
                let made = match entry_str_field(e, "reason") {
                    Some(reason) => DenyPackageReasonSpec::with_reason(package.as_str(), reason.as_str()),
                    None => DenyPackageReasonSpec::new(package.as_str()),
                };
                match made {
                    Ok(t) => Ok(t),
                    Err(err) => Err(err.message()),
                }
            },
            _ => Err(owned("package entry must be a string or inline table")),
        }
    }

    fn matches(current: &Self, required: &Self) -> (r: bool) {
        crate::text::str_eq(current.as_str(), required.as_str()) && opt_satisfied(current.reason(), required.reason())
    }

    fn canonical(e: &TomlEntry) -> (r: bool) {
        !entry_has_key(e, "name")
    }

    fn written(&self) -> (r: EntryWrite) {
        match self.reason() {
            Some(reason) => {
                proof {
                    reveal_strlit("crate");
                    reveal_strlit("reason");
                    assert("crate"@.len() != "reason"@.len() || "crate"@[0] != "reason"@[0]);
                }
                str_table("crate", self.as_str(), Some(("reason", reason)))
            },
            None => {
                let r = EntryWrite::Str(owned(self.as_str()));
                assert(all_write_keys(r) =~= Seq::<Seq<char>>::empty());
                r
            },
        }
    }

    fn shown(&self) -> (r: String) {
        show_reason("crate", self.as_str(), self.reason())
    }
}

impl DenyArrayItem for DenyLicenseException {
    open spec fn spec_tables() -> bool {
        false
    }

    open spec fn spec_parse(e: EntryCore) -> Result<(Seq<char>, Seq<char>), Seq<char>> {
        if e.0 == 1 {
            match package_of(e) {
                None => Err("package table requires crate"@),
                Some(p) => match str_field_or(e, "allow"@, "license"@) {
                    None => Err("license exception requires allow"@),
                    Some(l) => if p.len() == 0 {
                        Err(empty_message("package"@))
                    } else if l.len() == 0 {
                        Err(empty_message("text"@))
                    } else {
                        Ok((p, l))
                    },
                },
            }
        } else {
            Err("license exception must be an inline table"@)
        }
    }

    open spec fn spec_id(v: (Seq<char>, Seq<char>)) -> Seq<char> {
        v.0
    }

    open spec fn spec_matches(current: (Seq<char>, Seq<char>), required: (Seq<char>, Seq<char>)) -> bool {
        current == required
    }

    open spec fn spec_canonical(e: EntryCore) -> bool {
        without_name(e)
    }

    open spec fn spec_written(v: (Seq<char>, Seq<char>)) -> EntryCore {
        (1, seq![], seq!["crate"@, "allow"@], seq![str_view(v.0), str_view(v.1)])
    }

    open spec fn spec_shown(v: (Seq<char>, Seq<char>)) -> Seq<char> {
        "crate="@ + v.0 + " allow="@ + v.1
    }

    proof fn lemma_id(&self) {
    }

    open spec fn spec_valid(v: (Seq<char>, Seq<char>)) -> bool {
        v.0.len() > 0 && v.1.len() > 0
    }

    proof fn lemma_parsed_valid(e: EntryCore) {
    }

    proof fn lemma_matches_transitive(a: (Seq<char>, Seq<char>), b: (Seq<char>, Seq<char>), c: (Seq<char>, Seq<char>)) {
    }

    proof fn lemma_written_reads_back(v: (Seq<char>, Seq<char>)) {
        lemma_key_texts();
        lemma_two_keys("crate"@, "allow"@);
        lemma_no_name(seq!["crate"@, "allow"@]);
    }

    fn tables() -> (r: bool) {
        false
    }

    fn parse_entry(e: &TomlEntry) -> (r: Result<Self, String>) {
        match e {
            TomlEntry::Table { .. } => {
                let package = match entry_str_field_or(e, "crate", "name") {
                    Some(p) => p,
                    None => return Err(owned("package table requires crate")),
                };
                let license = match entry_str_field_or(e, "allow", "license") {
                    Some(l) => l,
                    None => return Err(owned("license exception requires allow")),
                };
                match DenyLicenseException::new(package.as_str(), license.as_str()) {
                    Ok(t) => Ok(t),
                    Err(err) => Err(err.message()),
                }
            },
            _ => Err(owned("license exception must be an inline table")),
        }
    }

    fn matches(current: &Self, required: &Self) -> (r: bool) {
        crate::text::str_eq(current.as_str(), required.as_str()) && crate::text::str_eq(current.license(), required.license())
    }

    fn canonical(e: &TomlEntry) -> (r: bool) {
        !entry_has_key(e, "name")
    }

    fn written(&self) -> (r: EntryWrite) {
        proof {
            reveal_strlit("crate");
            reveal_strlit("allow");
            assert("crate"@[1] != "allow"@[1]);
        }
        str_table("crate", self.as_str(), Some(("allow", self.license())))
    }

    fn shown(&self) -> (r: String) {
        let mut out = join3("crate=", self.as_str(), " allow=");
        out.append(self.license());
        out
    }
}

/// What reading a package entry gives, a reason being ignored.
pub open spec fn bare_package_parse(e: EntryCore, other: Seq<char>) -> Result<Seq<char>, Seq<char>> {
    if e.0 == 0 {
        if e.1.len() == 0 { Err(empty_message("package"@)) } else { Ok(e.1) }
    } else if e.0 == 1 {
        match package_of(e) {
            None => Err("package table requires crate"@),
            Some(p) => if p.len() == 0 { Err(empty_message("package"@)) } else { Ok(p) },
        }
    } else {
        Err(other)
    }
}

/// The package a string or inline table entry names; the error's text
/// otherwise.
fn bare_package(e: &TomlEntry, other: &str) -> (r: Result<String, String>)
    ensures
        match r {
            Ok(p) => bare_package_parse(entry_core(e@), other@) == Ok::<Seq<char>, Seq<char>>(p@) && p@.len() > 0,
            Err(m) => bare_package_parse(entry_core(e@), other@) == Err::<Seq<char>, Seq<char>>(m@),
        },
{
    let package = match e {
        TomlEntry::Str { value, .. } => value.clone(),
        TomlEntry::Table { .. } => match entry_str_field_or(e, "crate", "name") {
            Some(p) => p,
            None => return Err(owned("package table requires crate")),
        },
        _ => return Err(owned(other)),
    };
    if crate::text::is_empty_str(package.as_str()) {
        proof {
            reveal_strlit("package");
            reveal_strlit(" must not be empty");
        }
        let mut m = owned("package");
        m.append(" must not be empty");
        Err(m)
    } else {
        Ok(package)
    }
}

impl DenyArrayItem for DenyBanSpec {
    open spec fn spec_tables() -> bool {
        false
    }

    open spec fn spec_parse(e: EntryCore) -> Result<(Seq<char>, Option<Seq<char>>, Seq<Seq<char>>), Seq<char>> {
        match bare_package_parse(e, "ban entry must be a string or inline table"@) {
            Ok(p) => Ok((p, None, seq![])),
            Err(m) => Err(m),
        }
    }

    open spec fn spec_id(v: (Seq<char>, Option<Seq<char>>, Seq<Seq<char>>)) -> Seq<char> {
        v.0
    }

    open spec fn spec_matches(current: (Seq<char>, Option<Seq<char>>, Seq<Seq<char>>), required: (Seq<char>, Option<Seq<char>>, Seq<Seq<char>>)) -> bool {
        current.0 == required.0
    }

    open spec fn spec_canonical(e: EntryCore) -> bool {
        without_name(e)
    }

    open spec fn spec_written(v: (Seq<char>, Option<Seq<char>>, Seq<Seq<char>>)) -> EntryCore {
        if v.1 is None && v.2.len() == 0 {
            (0, v.0, seq![], seq![])
        } else {
            match v.1 {
                Some(r) => (1, seq![], seq!["crate"@, "reason"@], seq![str_view(v.0), str_view(r)]),
                None => (1, seq![], seq!["crate"@], seq![str_view(v.0)]),
            }
        }
    }

    open spec fn spec_shown(v: (Seq<char>, Option<Seq<char>>, Seq<Seq<char>>)) -> Seq<char> {
        shown_reason("crate"@, v.0, v.1)
    }

    proof fn lemma_id(&self) {
    }

    open spec fn spec_valid(v: (Seq<char>, Option<Seq<char>>, Seq<Seq<char>>)) -> bool {
        v.0.len() > 0
    }

    proof fn lemma_parsed_valid(e: EntryCore) {
    }

    proof fn lemma_matches_transitive(a: (Seq<char>, Option<Seq<char>>, Seq<Seq<char>>), b: (Seq<char>, Option<Seq<char>>, Seq<Seq<char>>), c: (Seq<char>, Option<Seq<char>>, Seq<Seq<char>>)) {
    }

    proof fn lemma_written_reads_back(v: (Seq<char>, Option<Seq<char>>, Seq<Seq<char>>)) {
        lemma_key_texts();
        lemma_two_keys("crate"@, "reason"@);
        lemma_no_name(seq!["crate"@, "reason"@]);
        lemma_first_key(seq!["crate"@], "crate"@, 0);
        lemma_no_name(seq!["crate"@]);
    }

    fn tables() -> (r: bool) {
        false
    }

    fn parse_entry(e: &TomlEntry) -> (r: Result<Self, String>) {
        match bare_package(e, "ban entry must be a string or inline table") {
            Ok(p) => match DenyBanSpec::new(p.as_str()) {
                Ok(t) => Ok(t),
                Err(err) => Err(err.message()),
            },
            Err(m) => Err(m),
        }
    }

    fn matches(current: &Self, required: &Self) -> (r: bool) {
        crate::text::str_eq(current.as_str(), required.as_str())
    }

    fn canonical(e: &TomlEntry) -> (r: bool) {
        !entry_has_key(e, "name")
    }

    fn written(&self) -> (r: EntryWrite) {
        proof {
            reveal_strlit("crate");
            reveal_strlit("reason");
            assert("crate"@.len() != "reason"@.len());
        }
        let reason = self.reason();
        if reason.is_none() && self.wrappers().len() == 0 {
            let r = EntryWrite::Str(owned(self.as_str()));
            assert(all_write_keys(r) =~= Seq::<Seq<char>>::empty());
            r
        } else {
            match reason {
                Some(x) => str_table("crate", self.as_str(), Some(("reason", x))),
                None => str_table("crate", self.as_str(), None),
            }
        }
    }

    fn shown(&self) -> (r: String) {
        show_reason("crate", self.as_str(), self.reason())
    }
}

impl DenyArrayItem for DenySkipTreeSpec {
    open spec fn spec_tables() -> bool {
        false
    }

    open spec fn spec_parse(e: EntryCore) -> Result<(Seq<char>, Option<u64>, Option<Seq<char>>), Seq<char>> {
        match bare_package_parse(e, "skip-tree entry must be a string or inline table"@) {
            Ok(p) => Ok((p, None, None)),
            Err(m) => Err(m),
        }
    }

    open spec fn spec_id(v: (Seq<char>, Option<u64>, Option<Seq<char>>)) -> Seq<char> {
        v.0
    }

    open spec fn spec_matches(current: (Seq<char>, Option<u64>, Option<Seq<char>>), required: (Seq<char>, Option<u64>, Option<Seq<char>>)) -> bool {
        current.0 == required.0
    }

    open spec fn spec_canonical(e: EntryCore) -> bool {
        without_name(e)
    }

    open spec fn spec_written(v: (Seq<char>, Option<u64>, Option<Seq<char>>)) -> EntryCore {
        let depth: Seq<(Seq<char>, FieldView)> = match v.1 {
            Some(d) => if d <= i64::MAX { seq![("depth"@, (1int, Seq::<char>::empty(), d as i64, Seq::<Option<Seq<char>>>::empty()))] } else { seq![] },
            None => seq![],
        };
        let reason: Seq<(Seq<char>, FieldView)> = match v.2 {
            Some(r) => seq![("reason"@, str_view(r))],
            None => seq![],
        };
        let all = seq![("crate"@, str_view(v.0))] + depth + reason;
        (1, seq![], all.map_values(|x: (Seq<char>, FieldView)| x.0), all.map_values(|x: (Seq<char>, FieldView)| x.1))
    }

    open spec fn spec_shown(v: (Seq<char>, Option<u64>, Option<Seq<char>>)) -> Seq<char> {
        shown_reason("crate"@, v.0, v.2)
    }

    proof fn lemma_id(&self) {
    }

    open spec fn spec_valid(v: (Seq<char>, Option<u64>, Option<Seq<char>>)) -> bool {
        v.0.len() > 0
    }

    proof fn lemma_parsed_valid(e: EntryCore) {
    }

    proof fn lemma_matches_transitive(a: (Seq<char>, Option<u64>, Option<Seq<char>>), b: (Seq<char>, Option<u64>, Option<Seq<char>>), c: (Seq<char>, Option<u64>, Option<Seq<char>>)) {
    }

    proof fn lemma_written_reads_back(v: (Seq<char>, Option<u64>, Option<Seq<char>>)) {
        lemma_key_texts();
        let c = Self::spec_written(v);
        let keys = c.2;
        assert(keys[0] == "crate"@);
        assert forall|i: int| 0 <= i < keys.len() implies keys[i] != "name"@ by {
            assert(keys[i] == "crate"@ || keys[i] == "depth"@ || keys[i] == "reason"@);
        }
        lemma_first_key(keys, "crate"@, 0);
        lemma_no_name(keys);
    }

    fn tables() -> (r: bool) {
        false
    }

    fn parse_entry(e: &TomlEntry) -> (r: Result<Self, String>) {
        match bare_package(e, "skip-tree entry must be a string or inline table") {
            Ok(p) => match DenySkipTreeSpec::new(p.as_str()) {
                Ok(t) => Ok(t),
                Err(err) => Err(err.message()),
            },
            Err(m) => Err(m),
        }
    }

    fn matches(current: &Self, required: &Self) -> (r: bool) {
        crate::text::str_eq(current.as_str(), required.as_str())
    }

    fn canonical(e: &TomlEntry) -> (r: bool) {
        !entry_has_key(e, "name")
    }

    fn written(&self) -> (r: EntryWrite) {
        proof {
            reveal_strlit("crate");
            reveal_strlit("depth");
            reveal_strlit("reason");
        }
        let ghost v = self@;
        let mut fields: Vec<(String, FieldWrite)> = Vec::new();
        fields.push(str_write("crate", self.as_str()));
        let ghost mut all: Seq<(Seq<char>, FieldView)> = seq![("crate"@, str_view(v.0))];
        match self.depth() {
            Some(d) => {
                if d <= 0x7fff_ffff_ffff_ffffu64 {
                    fields.push((owned("depth"), FieldWrite::Int(d as i64)));
                    proof {
                        all = all + seq![("depth"@, (1int, Seq::<char>::empty(), d as i64, Seq::<Option<Seq<char>>>::empty()))];
                    }
                }
            },
            None => {},
        }
        match self.reason() {
            Some(x) => {
                fields.push(str_write("reason", x));
                proof {
                    all = all + seq![("reason"@, str_view(x@))];
                }
            },
            None => {},
        }
        let r = EntryWrite::Table { fields, pairs: None };
        proof {
            let depth: Seq<(Seq<char>, FieldView)> = match v.1 {
                Some(d) => if d <= i64::MAX { seq![("depth"@, (1int, Seq::<char>::empty(), d as i64, Seq::<Option<Seq<char>>>::empty()))] } else { seq![] },
                None => seq![],
            };
            let reason: Seq<(Seq<char>, FieldView)> = match v.2 {
                Some(x) => seq![("reason"@, str_view(x))],
                None => seq![],
            };
            assert(all =~= seq![("crate"@, str_view(v.0))] + depth + reason);
            assert(crate::toml_entries::write_keys(fields@) =~= all.map_values(|x: (Seq<char>, FieldView)| x.0));
            assert(crate::toml_entries::write_fields(fields@) =~= all.map_values(|x: (Seq<char>, FieldView)| x.1));
            let ks = all_write_keys(r);
            assert forall|i: int, j: int| 0 <= i < j < ks.len() implies ks[i] != ks[j] by {
                assert(ks[i].len() != ks[j].len() || ks[i][0] != ks[j][0]);
            }
        }
        r
    }

    fn shown(&self) -> (r: String) {
        show_reason("crate", self.as_str(), self.reason())
    }
}

impl DenyArrayItem for DenyBuildGlobSpec {
    open spec fn spec_tables() -> bool {
        false
    }

    open spec fn spec_parse(e: EntryCore) -> Result<(Seq<char>, Option<Seq<char>>), Seq<char>> {
        if e.0 == 0 {
            if e.1.len() == 0 { Err(empty_message("text"@)) } else { Ok((e.1, None)) }
        } else if e.0 == 1 {
            match str_field(e, "glob"@) {
                None => Err("build glob table requires glob"@),
                Some(g) => match str_field(e, "reason"@) {
                    None => if g.len() == 0 { Err(empty_message("text"@)) } else { Ok((g, None)) },
                    Some(r) => if g.len() == 0 || r.len() == 0 {
                        Err(empty_message("text"@))
                    } else {
                        Ok((g, Some(r)))
                    },
                },
            }
        } else {
            Err("build glob must be a string or inline table"@)
        }
    }

    open spec fn spec_id(v: (Seq<char>, Option<Seq<char>>)) -> Seq<char> {
        v.0
    }

    open spec fn spec_matches(current: (Seq<char>, Option<Seq<char>>), required: (Seq<char>, Option<Seq<char>>)) -> bool {
        current.0 == required.0 && opt_satisfies(current.1, required.1)
    }

    open spec fn spec_canonical(e: EntryCore) -> bool {
        true
    }

    open spec fn spec_written(v: (Seq<char>, Option<Seq<char>>)) -> EntryCore {
        match v.1 {
            Some(r) => (1, seq![], seq!["glob"@, "reason"@], seq![str_view(v.0), str_view(r)]),
            None => (0, v.0, seq![], seq![]),
        }
    }

    open spec fn spec_shown(v: (Seq<char>, Option<Seq<char>>)) -> Seq<char> {
        shown_reason("glob"@, v.0, v.1)
    }

    proof fn lemma_id(&self) {
    }

    open spec fn spec_valid(v: (Seq<char>, Option<Seq<char>>)) -> bool {
        v.0.len() > 0 && (v.1 matches Some(r) ==> r.len() > 0)
    }

    proof fn lemma_parsed_valid(e: EntryCore) {
    }

    proof fn lemma_matches_transitive(a: (Seq<char>, Option<Seq<char>>), b: (Seq<char>, Option<Seq<char>>), c: (Seq<char>, Option<Seq<char>>)) {
    }

    proof fn lemma_written_reads_back(v: (Seq<char>, Option<Seq<char>>)) {
        lemma_key_texts();
        lemma_two_keys("glob"@, "reason"@);
    }

    fn tables() -> (r: bool) {
        false
    }

    fn parse_entry(e: &TomlEntry) -> (r: Result<Self, String>) {
        match e {
            TomlEntry::Str { value, .. } => match DenyBuildGlobSpec::new(value.as_str()) {
                Ok(t) => Ok(t),
                Err(err) => Err(err.message()),
            },
            TomlEntry::Table { .. } => {
                let glob = match entry_str_field(e, "glob") {
                    Some(g) => g,
                    None => return Err(owned("build glob table requires glob")),
                };
                let made = match entry_str_field(e, "reason") {
                    Some(reason) => DenyBuildGlobSpec::with_reason(glob.as_str(), reason.as_str()),
                    None => DenyBuildGlobSpec::new(glob.as_str()),
                };
                match made {
                    Ok(t) => Ok(t),
                    Err(err) => Err(err.message()),
                }
            },
            _ => Err(owned("build glob must be a string or inline table")),
        }
    }

    fn matches(current: &Self, required: &Self) -> (r: bool) {
        crate::text::str_eq(current.as_str(), required.as_str()) && opt_satisfied(current.reason(), required.reason())
    }

    fn canonical(e: &TomlEntry) -> (r: bool) {
        true
    }

    fn written(&self) -> (r: EntryWrite) {
        match self.reason() {
            Some(reason) => {
                proof {
                    reveal_strlit("glob");
                    reveal_strlit("reason");
                    assert("glob"@.len() != "reason"@.len() || "glob"@[0] != "reason"@[0]);
                }
                str_table("glob", self.as_str(), Some(("reason", reason)))
            },
            None => {
                let r = EntryWrite::Str(owned(self.as_str()));
                assert(all_write_keys(r) =~= Seq::<Seq<char>>::empty());
                r
            },
        }
    }

    fn shown(&self) -> (r: String) {
        show_reason("glob", self.as_str(), self.reason())
    }
}

impl DenyArrayItem for DenyLicenseClarification {
    open spec fn spec_tables() -> bool {
        true
    }

    open spec fn spec_parse(e: EntryCore) -> Result<(Seq<char>, Option<Seq<char>>, Seq<char>, Seq<(Seq<char>, Seq<char>)>), Seq<char>> {
        if e.0 != 1 {
            Err("license clarification must be a table"@)
        } else {
            match package_of(e) {
                None => Err("license clarification requires crate"@),
                Some(p) => match str_field(e, "expression"@) {
                    None => Err("license clarification requires expression"@),
                    Some(x) => if p.len() == 0 {
                        Err(empty_message("package"@))
                    } else if x.len() == 0 {
                        Err(empty_message("text"@))
                    } else {
                        Ok((p, None, x, seq![]))
                    },
                },
            }
        }
    }

    open spec fn spec_id(v: (Seq<char>, Option<Seq<char>>, Seq<char>, Seq<(Seq<char>, Seq<char>)>)) -> Seq<char> {
        match v.1 {
            Some(ver) => v.0 + "@"@ + ver,
            None => v.0,
        }
    }

    open spec fn spec_matches(
        current: (Seq<char>, Option<Seq<char>>, Seq<char>, Seq<(Seq<char>, Seq<char>)>),
        required: (Seq<char>, Option<Seq<char>>, Seq<char>, Seq<(Seq<char>, Seq<char>)>),
    ) -> bool {
        current.0 == required.0 && current.2 == required.2 && opt_satisfies(current.1, required.1)
    }

    open spec fn spec_canonical(e: EntryCore) -> bool {
        true
    }

    open spec fn spec_written(v: (Seq<char>, Option<Seq<char>>, Seq<char>, Seq<(Seq<char>, Seq<char>)>)) -> EntryCore {
        let version: Seq<(Seq<char>, FieldView)> = match v.1 {
            Some(ver) => seq![("version"@, str_view(ver))],
            None => seq![],
        };
        let files: Seq<(Seq<char>, FieldView)> = if v.3.len() > 0 {
            seq![("license-files"@, pairs_field(v.3.len()))]
        } else {
            seq![]
        };
        let all = seq![("crate"@, str_view(v.0))] + version + seq![("expression"@, str_view(v.2))] + files;
        (1, seq![], all.map_values(|x: (Seq<char>, FieldView)| x.0), all.map_values(|x: (Seq<char>, FieldView)| x.1))
    }

    open spec fn spec_shown(v: (Seq<char>, Option<Seq<char>>, Seq<char>, Seq<(Seq<char>, Seq<char>)>)) -> Seq<char> {
        "crate="@ + v.0 + " expression="@ + v.2
    }

    proof fn lemma_id(&self) {
    }

    open spec fn spec_valid(v: (Seq<char>, Option<Seq<char>>, Seq<char>, Seq<(Seq<char>, Seq<char>)>)) -> bool {
        v.0.len() > 0 && v.1 is None && v.2.len() > 0
    }

    proof fn lemma_parsed_valid(e: EntryCore) {
    }

    proof fn lemma_matches_transitive(
        a: (Seq<char>, Option<Seq<char>>, Seq<char>, Seq<(Seq<char>, Seq<char>)>),
        b: (Seq<char>, Option<Seq<char>>, Seq<char>, Seq<(Seq<char>, Seq<char>)>),
        c: (Seq<char>, Option<Seq<char>>, Seq<char>, Seq<(Seq<char>, Seq<char>)>),
    ) {
    }

    proof fn lemma_written_reads_back(v: (Seq<char>, Option<Seq<char>>, Seq<char>, Seq<(Seq<char>, Seq<char>)>)) {
        lemma_key_texts();
        let c = Self::spec_written(v);
        let keys = c.2;
        assert(keys[0] == "crate"@);
        assert(keys[1] == "expression"@);
        assert forall|i: int| 0 <= i < keys.len() implies keys[i] != "name"@ by {
            assert(keys[i] == "crate"@ || keys[i] == "expression"@ || keys[i] == "license-files"@);
        }
        lemma_first_key(keys, "crate"@, 0);
        lemma_first_key(keys, "expression"@, 1);
    }

    fn tables() -> (r: bool) {
        true
    }

    fn parse_entry(e: &TomlEntry) -> (r: Result<Self, String>) {
        match e {
            TomlEntry::Table { .. } => {
                let package = match entry_str_field_or(e, "crate", "name") {
                    Some(p) => p,
                    None => return Err(owned("license clarification requires crate")),
                };
                let expression = match entry_str_field(e, "expression") {
                    Some(x) => x,
                    None => return Err(owned("license clarification requires expression")),
                };
                match DenyLicenseClarification::new(package.as_str(), expression.as_str()) {
                    Ok(t) => Ok(t),
                    Err(err) => Err(err.message()),
                }
            },
            _ => Err(owned("license clarification must be a table")),
        }
    }

    fn matches(current: &Self, required: &Self) -> (r: bool) {
        crate::text::str_eq(current.as_str(), required.as_str())
            && crate::text::str_eq(current.expression(), required.expression())
            && opt_satisfied(current.version(), required.version())
    }

    fn canonical(e: &TomlEntry) -> (r: bool) {
        true
    }

    fn written(&self) -> (r: EntryWrite) {
        proof {
            reveal_strlit("crate");
            reveal_strlit("version");
            reveal_strlit("expression");
            reveal_strlit("license-files");
        }
        let ghost v = self@;
        let mut fields: Vec<(String, FieldWrite)> = Vec::new();
        fields.push(str_write("crate", self.as_str()));
        let ghost mut all: Seq<(Seq<char>, FieldView)> = seq![("crate"@, str_view(v.0))];
        match self.version() {
            Some(ver) => {
                fields.push(str_write("version", ver));
                proof {
                    all = all + seq![("version"@, str_view(ver@))];
                }
            },
            None => {},
        }
        fields.push(str_write("expression", self.expression()));
        proof {
            all = all + seq![("expression"@, str_view(v.2))];
        }
        let files = self.license_files();
        let pairs = if files.len() > 0 {
            let mut ps: Vec<(String, String, String, String)> = Vec::new();
            let mut i: usize = 0;
            while i < files.len()
                invariant
                    i <= files@.len(),
                    ps@.len() == i,
                decreases files@.len() - i,
            {
                ps.push((owned("path"), owned(files[i].path()), owned("hash"), owned(files[i].hash())));
                i = i + 1;
            }
            proof {
                all = all + seq![("license-files"@, pairs_field(v.3.len()))];
                assert(file_views(files@).len() == files@.len());
            }
            Some((owned("license-files"), ps))
        } else {
            None
        };
        let ghost pv = pairs;
        let r = EntryWrite::Table { fields, pairs };
        proof {
            let version: Seq<(Seq<char>, FieldView)> = match v.1 {
                Some(ver) => seq![("version"@, str_view(ver))],
                None => seq![],
            };
            let fs: Seq<(Seq<char>, FieldView)> = if v.3.len() > 0 {
                seq![("license-files"@, pairs_field(v.3.len()))]
            } else {
                seq![]
            };
            assert(file_views(files@).len() == files@.len());
            assert(all =~= seq![("crate"@, str_view(v.0))] + version + seq![("expression"@, str_view(v.2))] + fs);
            let ks = all_write_keys(r);
            assert(ks =~= all.map_values(|x: (Seq<char>, FieldView)| x.0));
            assert forall|i: int, j: int| 0 <= i < j < ks.len() implies ks[i] != ks[j] by {
                assert(ks[i].len() != ks[j].len() || ks[i][0] != ks[j][0]);
            }
            match pv {
                Some(p) => {
                    assert(write_fields(fields@).push(pairs_field(p.1@.len())) =~= all.map_values(|x: (Seq<char>, FieldView)| x.1));
                },
                None => {
                    assert(write_fields(fields@) =~= all.map_values(|x: (Seq<char>, FieldView)| x.1));
                },
            }
        }
        r
    }

    fn shown(&self) -> (r: String) {
        let mut out = join3("crate=", self.as_str(), " expression=");
        out.append(self.expression());
        out
    }
}

/// Texts as string elements.
pub open spec fn some_texts(xs: Seq<Seq<char>>) -> Seq<Option<Seq<char>>> {
    xs.map_values(|x: Seq<char>| Some(x))
}

/// Non-empty texts, each as a string element, read back as themselves.
pub proof fn lemma_feature_elements_of(xs: Seq<Seq<char>>)
    requires
        forall|i: int| 0 <= i < xs.len() ==> xs[i].len() > 0,
    ensures
        feature_elements(some_texts(xs)) == Ok::<Seq<Seq<char>>, Seq<char>>(xs),
    decreases xs.len(),
{
    if xs.len() > 0 {
        let m = some_texts(xs);
        assert(m.drop_first() =~= some_texts(xs.drop_first()));
        assert forall|i: int| 0 <= i < xs.drop_first().len() implies xs.drop_first()[i].len() > 0 by {
            assert(xs.drop_first()[i] == xs[i + 1]);
        }
        lemma_feature_elements_of(xs.drop_first());
        assert(m[0] == Some(xs[0]));
        assert(feature_elements(m.drop_first()) == Ok::<Seq<Seq<char>>, Seq<char>>(xs.drop_first()));
        assert(m.len() > 0 && xs[0].len() > 0);
        assert(feature_elements(m) == Ok::<Seq<Seq<char>>, Seq<char>>(seq![xs[0]] + xs.drop_first()));
        assert(seq![xs[0]] + xs.drop_first() =~= xs);
    } else {
        assert(some_texts(xs) =~= Seq::<Option<Seq<char>>>::empty());
        assert(xs =~= Seq::<Seq<char>>::empty());
    }
}

/// The texts a feature list reads as are not empty.
pub proof fn lemma_feature_elements_non_empty(xs: Seq<Option<Seq<char>>>)
    requires
        feature_elements(xs) is Ok,
    ensures
        forall|i: int| 0 <= i < feature_elements(xs)->Ok_0.len() ==> feature_elements(xs)->Ok_0[i].len() > 0,
    decreases xs.len(),
{
    if xs.len() > 0 {
        lemma_feature_elements_non_empty(xs.drop_first());
        let rest = feature_elements(xs.drop_first())->Ok_0;
        let t = xs[0]->Some_0;
        assert forall|i: int| 0 <= i < (seq![t] + rest).len() implies (seq![t] + rest)[i].len() > 0 by {
            if i > 0 {
                assert((seq![t] + rest)[i] == rest[i - 1]);
            }
        }
    }
}

/// A strictly sorted list is its own sorted, distinct list.
pub proof fn lemma_sorted_is_own(s: Seq<Seq<char>>)
    requires
        crate::text_order::strictly_sorted(s),
    ensures
        sorted_distinct(s) == s,
{
    crate::laws::lemma_sorted_distinct(s);
    crate::text_order::lemma_sorted_same_set_equal(sorted_distinct(s), s);
}

/// What reading the elements of a feature list gives: their texts, or the
/// error of the first that is not a string or is empty.
pub open spec fn feature_elements(xs: Seq<Option<Seq<char>>>) -> Result<Seq<Seq<char>>, Seq<char>>
    decreases xs.len(),
{
    if xs.len() == 0 {
        Ok(seq![])
    } else {
        match xs[0] {
            None => Err("feature list values must be strings"@),
            Some(t) => if t.len() == 0 {
                Err(empty_message("text"@))
            } else {
                match feature_elements(xs.drop_first()) {
                    Ok(rest) => Ok(seq![t] + rest),
                    Err(m) => Err(m),
                }
            },
        }
    }
}

/// What reading a feature list field gives: none when it is absent.
pub open spec fn feature_list(f: Option<FieldView>) -> Result<Seq<Seq<char>>, Seq<char>> {
    match f {
        None => Ok(seq![]),
        Some(f) => if f.0 != 2 { Err("feature list must be an array"@) } else { feature_elements(f.3) },
    }
}

/// Whether two lists hold the same texts.
pub open spec fn same_texts(a: Seq<Seq<char>>, b: Seq<Seq<char>>) -> bool {
    forall|x: Seq<char>| a.contains(x) <==> b.contains(x)
}

/// The array field of sorted, distinct texts.
pub open spec fn texts_field(vs: Seq<Seq<char>>) -> FieldView {
    (2, seq![], 0, some_texts(sorted_distinct(vs)))
}

/// Reads a feature list field into non-empty texts.
#[verifier::rlimit(30)]
fn read_feature_list(e: &TomlEntry, key: &str) -> (r: Result<Vec<String>, String>)
    ensures
        match r {
            Ok(vs) => feature_list(field_of(entry_core(e@), key@)) == Ok::<Seq<Seq<char>>, Seq<char>>(string_views(vs@))
                && forall|i: int| 0 <= i < vs@.len() ==> vs@[i]@.len() > 0,
            Err(m) => feature_list(field_of(entry_core(e@), key@)) == Err::<Seq<Seq<char>>, Seq<char>>(m@),
        },
{
    let xs = match lookup(e, key) {
        None => {
            let out: Vec<String> = Vec::new();
            assert(string_views(out@) =~= Seq::<Seq<char>>::empty());
            return Ok(out);
        },
        Some(EntryField::Array(xs)) => xs,
        Some(_) => return Err(owned("feature list must be an array")),
    };
    let ghost xv = crate::toml_entries::opt_views(xs@);
    let mut out: Vec<String> = Vec::new();
    let mut i: usize = 0;
    proof {
        assert(xv.subrange(0, xv.len() as int) =~= xv);
        match feature_elements(xv) {
            Ok(rest) => {
                assert(string_views(out@) + rest =~= rest);
            },
            Err(m) => {},
        }
    }
    while i < xs.len()
        invariant
            i <= xs@.len(),
            xv == crate::toml_entries::opt_views(xs@),
            feature_list(field_of(entry_core(e@), key@)) == feature_elements(xv),
            feature_elements(xv) == match feature_elements(xv.subrange(i as int, xv.len() as int)) {
                Ok(rest) => Ok::<Seq<Seq<char>>, Seq<char>>(string_views(out@) + rest),
                Err(m) => Err(m),
            },
            forall|k: int| 0 <= k < out@.len() ==> out@[k]@.len() > 0,
        decreases xs@.len() - i,
    {
        let ghost tail = xv.subrange(i as int, xv.len() as int);
        assert(tail.drop_first() =~= xv.subrange(i + 1, xv.len() as int));
        assert(tail[0] == xv[i as int]);
        match &xs[i] {
            None => {
                return Err(owned("feature list values must be strings"));
            },
            Some(t) => {
                if crate::text::is_empty_str(t.as_str()) {
                    proof {
                        reveal_strlit("text");
                        reveal_strlit(" must not be empty");
                    }
                    let mut m = owned("text");
                    m.append(" must not be empty");
                    return Err(m);
                }
                let ghost before = out@;
                out.push(t.clone());
                proof {
                    assert(string_views(out@) =~= string_views(before).push(t@));
                    match feature_elements(xv.subrange(i + 1, xv.len() as int)) {
                        Ok(rest) => {
                            assert(string_views(before) + (seq![t@] + rest) =~= string_views(out@) + rest);
                        },
                        Err(m) => {},
                    }
                }
            },
        }
        i = i + 1;
    }
    assert(xv.subrange(xs@.len() as int, xv.len() as int) =~= Seq::<Option<Seq<char>>>::empty());
    assert(string_views(out@) + Seq::<Seq<char>>::empty() =~= string_views(out@));
    Ok(out)
}

/// Wraps non-empty texts.
fn non_empty_texts(vs: &Vec<String>) -> (r: Vec<DenyNonEmptyString>)
    requires
        forall|i: int| 0 <= i < vs@.len() ==> vs@[i]@.len() > 0,
    ensures
        feature_views(r@) == string_views(vs@),
{
    let mut out: Vec<DenyNonEmptyString> = Vec::new();
    let mut i: usize = 0;
    while i < vs.len()
        invariant
            i <= vs@.len(),
            forall|k: int| 0 <= k < vs@.len() ==> vs@[k]@.len() > 0,
            feature_views(out@) == string_views(vs@.subrange(0, i as int)),
        decreases vs@.len() - i,
    {
        match DenyNonEmptyString::new(vs[i].as_str()) {
            Ok(t) => {
                let ghost before = out@;
                out.push(t);
                assert(feature_views(out@) =~= feature_views(before).push(t@));
                assert(string_views(vs@.subrange(0, i + 1)) =~= string_views(vs@.subrange(0, i as int)).push(vs@[i as int]@));
            },
            Err(_) => {
                assert(false);
            },
        }
        i = i + 1;
    }
    assert(vs@.subrange(0, vs@.len() as int) =~= vs@);
    out
}

/// Non-empty texts, sorted and without repeats.
fn sorted_non_empty(vs: &Vec<String>) -> (r: Vec<DenyNonEmptyString>)
    requires
        forall|i: int| 0 <= i < vs@.len() ==> vs@[i]@.len() > 0,
    ensures
        feature_views(r@) == sorted_distinct(string_views(vs@)),
{
    let sa = crate::text_order::sort_dedup(vs);
    proof {
        let t = sorted_distinct(string_views(vs@));
        assert(crate::text_order::strictly_sorted(t) && forall|x: Seq<char>| t.contains(x) <==> string_views(vs@).contains(x));
        crate::text_order::lemma_sorted_same_set_equal(string_views(sa@), t);
        assert forall|i: int| 0 <= i < sa@.len() implies sa@[i]@.len() > 0 by {
            assert(string_views(sa@)[i] == sa@[i]@);
            assert(string_views(sa@).contains(sa@[i]@));
            assert(string_views(vs@).contains(sa@[i]@));
            let k = choose|k: int| 0 <= k < string_views(vs@).len() && string_views(vs@)[k] == sa@[i]@;
            assert(vs@[k]@ == sa@[i]@);
        }
    }
    non_empty_texts(&sa)
}

/// Sorting a sorted list without repeats again leaves it as it is.
pub proof fn lemma_sorted_distinct_idempotent(x: Seq<Seq<char>>)
    ensures
        sorted_distinct(sorted_distinct(x)) == sorted_distinct(x),
{
    crate::laws::lemma_sorted_distinct(x);
    crate::laws::lemma_sorted_distinct(sorted_distinct(x));
    crate::text_order::lemma_sorted_same_set_equal(sorted_distinct(sorted_distinct(x)), sorted_distinct(x));
}

/// The features sorted without repeats.
pub fn sorted_features(fs: &Vec<DenyNonEmptyString>) -> (r: Vec<DenyNonEmptyString>)
    ensures
        feature_views(r@) == sorted_distinct(feature_views(fs@)),
{
    let texts = feature_texts(fs);
    sorted_non_empty(&texts)
}

/// The texts of features.
fn feature_texts(fs: &Vec<DenyNonEmptyString>) -> (r: Vec<String>)
    ensures
        string_views(r@) == feature_views(fs@),
        forall|i: int| 0 <= i < r@.len() ==> r@[i]@.len() > 0,
{
    let mut out: Vec<String> = Vec::new();
    let mut i: usize = 0;
    while i < fs.len()
        invariant
            i <= fs@.len(),
            string_views(out@) == feature_views(fs@.subrange(0, i as int)),
            forall|k: int| 0 <= k < out@.len() ==> out@[k]@.len() > 0,
        decreases fs@.len() - i,
    {
        let ghost before = out@;
        out.push(owned(fs[i].as_str()));
        assert(string_views(out@) =~= string_views(before).push(fs@[i as int]@));
        assert(feature_views(fs@.subrange(0, i + 1)) =~= feature_views(fs@.subrange(0, i as int)).push(fs@[i as int]@));
        i = i + 1;
    }
    assert(fs@.subrange(0, fs@.len() as int) =~= fs@);
    out
}

/// Whether `vs` holds `x`.
fn texts_contain(vs: &Vec<String>, x: &str) -> (r: bool)
    ensures
        r == string_views(vs@).contains(x@),
{
    let mut i: usize = 0;
    while i < vs.len()
        invariant
            i <= vs@.len(),
            forall|k: int| 0 <= k < i ==> vs@[k]@ != x@,
        decreases vs@.len() - i,
    {
        if crate::text::str_eq(vs[i].as_str(), x) {
            assert(string_views(vs@)[i as int] == x@);
            return true;
        }
        i = i + 1;
    }
    assert(!string_views(vs@).contains(x@)) by {
        if string_views(vs@).contains(x@) {
            let k = choose|k: int| 0 <= k < string_views(vs@).len() && string_views(vs@)[k] == x@;
            assert(vs@[k]@ == x@);
        }
    }
    false
}

/// Whether every text of `a` is in `b`.
fn texts_within(a: &Vec<String>, b: &Vec<String>) -> (r: bool)
    ensures
        r == forall|x: Seq<char>| string_views(a@).contains(x) ==> string_views(b@).contains(x),
{
    let mut i: usize = 0;
    while i < a.len()
        invariant
            i <= a@.len(),
            forall|k: int| 0 <= k < i ==> string_views(b@).contains(#[trigger] string_views(a@)[k]),
        decreases a@.len() - i,
    {
        if !texts_contain(b, a[i].as_str()) {
            assert(string_views(a@).contains(a@[i as int]@)) by {
                assert(string_views(a@)[i as int] == a@[i as int]@);
            }
            return false;
        }
        assert(string_views(a@)[i as int] == a@[i as int]@);
        i = i + 1;
    }
    assert forall|x: Seq<char>| string_views(a@).contains(x) implies string_views(b@).contains(x) by {
        let k = choose|k: int| 0 <= k < string_views(a@).len() && string_views(a@)[k] == x;
    }
    true
}

/// Whether two lists hold the same texts.
fn same_text_set(a: &Vec<String>, b: &Vec<String>) -> (r: bool)
    ensures
        r == same_texts(string_views(a@), string_views(b@)),
{
    texts_within(a, b) && texts_within(b, a)
}

/// What making a feature ban of a package and its (sorted) feature lists
/// gives: an empty package refused, then the first allowed feature that is
/// also denied.
pub open spec fn feature_ban_made(p: Seq<char>, sa: Seq<Seq<char>>, sd: Seq<Seq<char>>) -> Result<(Seq<char>, Seq<Seq<char>>, Seq<Seq<char>>), Seq<char>> {
    if p.len() == 0 {
        Err(empty_message("package"@))
    } else {
        match spec_first_overlap(sa, sd) {
            Some(i) => Err(p + " allows and denies feature "@ + sa[i]),
            None => Ok((p, sa, sd)),
        }
    }
}

/// What making a feature ban of a package and its feature lists gives: the
/// lists sorted without repeats, then as `feature_ban_made`.
pub open spec fn feature_ban_result(p: Seq<char>, a: Seq<Seq<char>>, d: Seq<Seq<char>>) -> Result<(Seq<char>, Seq<Seq<char>>, Seq<Seq<char>>), Seq<char>> {
    feature_ban_made(p, sorted_distinct(a), sorted_distinct(d))
}

/// Makes a feature ban of a package and its feature lists.
#[verifier::rlimit(40)]
fn feature_ban_of(package: &str, fa: Vec<DenyNonEmptyString>, fd: Vec<DenyNonEmptyString>) -> (r: Result<DenyFeatureBanSpec, String>)
    requires
        feature_views(fa@) == sorted_distinct(feature_views(fa@)),
        feature_views(fd@) == sorted_distinct(feature_views(fd@)),
    ensures
        match r {
            Ok(t) => feature_ban_made(package@, feature_views(fa@), feature_views(fd@)) == Ok::<(Seq<char>, Seq<Seq<char>>, Seq<Seq<char>>), Seq<char>>(t@),
            Err(m) => feature_ban_made(package@, feature_views(fa@), feature_views(fd@)) == Err::<(Seq<char>, Seq<Seq<char>>, Seq<Seq<char>>), Seq<char>>(m@),
        },
{
    let ghost av = feature_views(fa@);
    let ghost dv = feature_views(fd@);
    let ghost fav = fa@;
    assert(sorted_distinct(av) == av);
    assert(sorted_distinct(dv) == dv);
    match DenyFeatureBanSpec::new(package, fa, fd) {
        Ok(t) => {
            assert(package@.len() != 0);
            assert(spec_first_overlap(av, dv) is None);
            assert(t@ == (package@, av, dv));
            assert(feature_ban_made(package@, av, dv) == Ok::<(Seq<char>, Seq<Seq<char>>, Seq<Seq<char>>), Seq<char>>(t@));
            Ok(t)
        },
        Err(err) => {
            proof {
                if package@.len() != 0 {
                    match spec_first_overlap(av, dv) {
                        Some(i) => {
                            assert(0 <= i < av.len());
                            assert(av[i] == fav[i]@);
                        },
                        None => {},
                    }
                }
            }
            Err(err.message())
        },
    }
}

impl DenyArrayItem for DenyFeatureBanSpec {
    open spec fn spec_tables() -> bool {
        true
    }

    open spec fn spec_parse(e: EntryCore) -> Result<(Seq<char>, Seq<Seq<char>>, Seq<Seq<char>>), Seq<char>> {
        if e.0 != 1 {
            Err("feature ban must be a table"@)
        } else {
            match package_of(e) {
                None => Err("feature ban requires crate"@),
                Some(p) => match feature_list(field_of(e, "allow"@)) {
                    Err(m) => Err(m),
                    Ok(a) => match feature_list(field_of(e, "deny"@)) {
                        Err(m) => Err(m),
                        Ok(d) => feature_ban_result(p, a, d),
                    },
                },
            }
        }
    }

    open spec fn spec_id(v: (Seq<char>, Seq<Seq<char>>, Seq<Seq<char>>)) -> Seq<char> {
        v.0
    }

    open spec fn spec_matches(current: (Seq<char>, Seq<Seq<char>>, Seq<Seq<char>>), required: (Seq<char>, Seq<Seq<char>>, Seq<Seq<char>>)) -> bool {
        current.0 == required.0 && same_texts(current.1, required.1) && same_texts(current.2, required.2)
    }

    open spec fn spec_canonical(e: EntryCore) -> bool {
        true
    }

    open spec fn spec_written(v: (Seq<char>, Seq<Seq<char>>, Seq<Seq<char>>)) -> EntryCore {
        (1, seq![], seq!["crate"@, "allow"@, "deny"@], seq![str_view(v.0), texts_field(v.1), texts_field(v.2)])
    }

    open spec fn spec_shown(v: (Seq<char>, Seq<Seq<char>>, Seq<Seq<char>>)) -> Seq<char> {
        "crate="@ + v.0
    }

    proof fn lemma_id(&self) {
    }

    open spec fn spec_valid(v: (Seq<char>, Seq<Seq<char>>, Seq<Seq<char>>)) -> bool {
        &&& v.0.len() > 0
        &&& forall|i: int| 0 <= i < v.1.len() ==> v.1[i].len() > 0
        &&& forall|i: int| 0 <= i < v.2.len() ==> v.2[i].len() > 0
        &&& forall|x: Seq<char>| v.1.contains(x) ==> !v.2.contains(x)
    }

    proof fn lemma_parsed_valid(e: EntryCore) {
        let p = package_of(e)->Some_0;
        let a = feature_list(field_of(e, "allow"@))->Ok_0;
        let d = feature_list(field_of(e, "deny"@))->Ok_0;
        if field_of(e, "allow"@) is Some {
            lemma_feature_elements_non_empty(field_of(e, "allow"@)->Some_0.3);
        }
        if field_of(e, "deny"@) is Some {
            lemma_feature_elements_non_empty(field_of(e, "deny"@)->Some_0.3);
        }
        crate::laws::lemma_sorted_distinct(a);
        crate::laws::lemma_sorted_distinct(d);
        let sa = sorted_distinct(a);
        let sd = sorted_distinct(d);
        assert forall|i: int| 0 <= i < sa.len() implies sa[i].len() > 0 by {
            assert(sa.contains(sa[i]));
            let k = choose|k: int| 0 <= k < a.len() && a[k] == sa[i];
        }
        assert forall|i: int| 0 <= i < sd.len() implies sd[i].len() > 0 by {
            assert(sd.contains(sd[i]));
            let k = choose|k: int| 0 <= k < d.len() && d[k] == sd[i];
        }
        assert forall|x: Seq<char>| sa.contains(x) implies !sd.contains(x) by {
            let k = choose|k: int| 0 <= k < sa.len() && sa[k] == x;
            assert(!(0 <= k < sa.len() && sd.contains(sa[k])));
        }
    }

    proof fn lemma_matches_transitive(a: (Seq<char>, Seq<Seq<char>>, Seq<Seq<char>>), b: (Seq<char>, Seq<Seq<char>>, Seq<Seq<char>>), c: (Seq<char>, Seq<Seq<char>>, Seq<Seq<char>>)) {
    }

    proof fn lemma_written_reads_back(v: (Seq<char>, Seq<Seq<char>>, Seq<Seq<char>>)) {
        lemma_key_texts();
        let keys = seq!["crate"@, "allow"@, "deny"@];
        lemma_first_key(keys, "crate"@, 0);
        lemma_first_key(keys, "allow"@, 1);
        lemma_first_key(keys, "deny"@, 2);
        crate::laws::lemma_sorted_distinct(v.1);
        crate::laws::lemma_sorted_distinct(v.2);
        let sa = sorted_distinct(v.1);
        let sd = sorted_distinct(v.2);
        assert forall|i: int| 0 <= i < sa.len() implies sa[i].len() > 0 by {
            assert(sa.contains(sa[i]));
            let k = choose|k: int| 0 <= k < v.1.len() && v.1[k] == sa[i];
        }
        assert forall|i: int| 0 <= i < sd.len() implies sd[i].len() > 0 by {
            assert(sd.contains(sd[i]));
            let k = choose|k: int| 0 <= k < v.2.len() && v.2[k] == sd[i];
        }
        lemma_feature_elements_of(sa);
        lemma_feature_elements_of(sd);
        lemma_sorted_is_own(sa);
        lemma_sorted_is_own(sd);
        assert(!(exists|i: int| 0 <= i < sa.len() && sd.contains(sa[i]))) by {
            if exists|i: int| 0 <= i < sa.len() && sd.contains(sa[i]) {
                let i = choose|i: int| 0 <= i < sa.len() && sd.contains(sa[i]);
                assert(sa.contains(sa[i]));
                assert(v.1.contains(sa[i]));
            }
        }
        let e = Self::spec_written(v);
        assert(field_of(e, "allow"@) == Some(texts_field(v.1)));
        assert(field_of(e, "deny"@) == Some(texts_field(v.2)));
        assert(feature_list(field_of(e, "allow"@)) == Ok::<Seq<Seq<char>>, Seq<char>>(sa));
        assert(feature_list(field_of(e, "deny"@)) == Ok::<Seq<Seq<char>>, Seq<char>>(sd));
    }

    fn tables() -> (r: bool) {
        true
    }

    fn parse_entry(e: &TomlEntry) -> (r: Result<Self, String>) {
        match e {
            TomlEntry::Table { .. } => {
                let package = match entry_str_field_or(e, "crate", "name") {
                    Some(p) => p,
                    None => return Err(owned("feature ban requires crate")),
                };
                let allowed = match read_feature_list(e, "allow") {
                    Ok(a) => a,
                    Err(m) => return Err(m),
                };
                let denied = match read_feature_list(e, "deny") {
                    Ok(d) => d,
                    Err(m) => return Err(m),
                };
                let fa = sorted_non_empty(&allowed);
                let fd = sorted_non_empty(&denied);
                proof {
                    lemma_sorted_distinct_idempotent(string_views(allowed@));
                    lemma_sorted_distinct_idempotent(string_views(denied@));
                }
                feature_ban_of(package.as_str(), fa, fd)
            },
            _ => Err(owned("feature ban must be a table")),
        }
    }

    fn matches(current: &Self, required: &Self) -> (r: bool) {
        let ca = feature_texts(current.allowed_features());
        let ra = feature_texts(required.allowed_features());
        let cd = feature_texts(current.forbidden_features());
        let rd = feature_texts(required.forbidden_features());
        crate::text::str_eq(current.as_str(), required.as_str()) && same_text_set(&ca, &ra) && same_text_set(&cd, &rd)
    }

    fn canonical(e: &TomlEntry) -> (r: bool) {
        true
    }

    fn written(&self) -> (r: EntryWrite) {
        proof {
            reveal_strlit("crate");
            reveal_strlit("allow");
            reveal_strlit("deny");
        }
        let allowed = canonical_of(&feature_texts(self.allowed_features()));
        let denied = canonical_of(&feature_texts(self.forbidden_features()));
        let mut fields: Vec<(String, FieldWrite)> = Vec::new();
        fields.push(str_write("crate", self.as_str()));
        let ghost sa = string_views(allowed@);
        let ghost sd = string_views(denied@);
        fields.push((owned("allow"), FieldWrite::Strs(allowed)));
        fields.push((owned("deny"), FieldWrite::Strs(denied)));
        let r = EntryWrite::Table { fields, pairs: None };
        proof {
            let ks = all_write_keys(r);
            assert(ks =~= seq!["crate"@, "allow"@, "deny"@]);
            assert forall|i: int, j: int| 0 <= i < j < ks.len() implies ks[i] != ks[j] by {
                assert(ks[i].len() != ks[j].len() || ks[i][1] != ks[j][1]);
            }
            assert(fields@[1].1->Strs_0@.map_values(|x: String| Some(x@)) =~= some_texts(sa));
            assert(fields@[2].1->Strs_0@.map_values(|x: String| Some(x@)) =~= some_texts(sd));
            assert(write_fields(fields@) =~= seq![str_view(self@.0), texts_field(self@.1), texts_field(self@.2)]);
        }
        r
    }

    fn shown(&self) -> (r: String) {
        crate::text::join2("crate=", self.as_str())
    }
}

} // verus!
