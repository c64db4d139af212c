//! Semantic versions, parsed and ordered by the `semver` crate.
use vstd::prelude::*;

verus! {

/// `semver::Version`, held opaque: only `semver` reads it.
#[verifier::external_type_specification]
#[verifier::external_body]
pub struct ExVersion(semver::Version);

/// `semver::Error`, the reason a text is not a semantic version.
#[verifier::external_type_specification]
#[verifier::external_body]
pub struct ExSemverError(semver::Error);

/// Whether `semver::Version::parse` accepts the text.
pub uninterp spec fn semver_valid(s: Seq<char>) -> bool;

/// Whether the version parsed from `a` is greater than the one parsed from
/// `b` in the `Ord` of `semver::Version`: major, minor, patch, pre-release,
/// then build metadata.
pub uninterp spec fn semver_newer(a: Seq<char>, b: Seq<char>) -> bool;

/// A semantic version together with the text it was parsed from. Only
/// [`parse_version`] makes one, so `value` is always what `text` parses to.
pub struct ParsedVersion {
    text: String,
    value: semver::Version,
}

impl ParsedVersion {
    /// The text this version was parsed from.
    pub closed spec fn source(&self) -> Seq<char> {
        self.text@
    }
}

/// Relies on `semver::Version::parse`: it succeeds exactly on valid semantic
/// versions, and its result depends on the text alone.
#[verifier::external_body]
pub(crate) fn parse_version(text: &str) -> (r: Result<ParsedVersion, semver::Error>)
    ensures
        r is Ok <==> semver_valid(text@),
        r is Ok ==> r->Ok_0.source() == text@,
{
    match semver::Version::parse(text) {
        Ok(value) => Ok(ParsedVersion { text: text.to_string(), value }),
        Err(e) => Err(e),
    }
}

/// Relies on the `Ord` of `semver::Version` (major, minor, patch, then
/// pre-release and build metadata).
#[verifier::external_body]
pub(crate) fn is_newer(a: &ParsedVersion, b: &ParsedVersion) -> (r: bool)
    ensures
        r == semver_newer(a.source(), b.source()),
{
    a.value > b.value
}

/// Relies on `Display` of `semver::Error`, for the message shown to the user.
#[verifier::external_body]
pub(crate) fn version_error_text(e: &semver::Error) -> String {
    e.to_string()
}

} // verus!
