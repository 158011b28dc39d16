use vstd::prelude::*;

use crate::numtext::{decimal, push_decimal};

verus! {

#[verifier::external_type_specification]
#[verifier::external_body]
pub struct ExSemverVersion(semver::Version);

#[verifier::external_type_specification]
#[verifier::external_body]
pub struct ExSemverVersionReq(semver::VersionReq);

/// Whether `semver::Version::parse` accepts the text.
pub uninterp spec fn semver_version_parses(text: Seq<char>) -> bool;

/// Whether `semver::VersionReq::parse` accepts the text.
pub uninterp spec fn semver_req_parses(text: Seq<char>) -> bool;

/// What `semver::VersionReq::matches` answers for the requirement parsed from
/// the first text and the version parsed from the second.
pub uninterp spec fn semver_req_matches(requirement: Seq<char>, version: Seq<char>) -> bool;

/// The text `major.minor.patch` of a release without pre-release or build
/// metadata.
pub open spec fn release_text(major: nat, minor: nat, patch: nat) -> Seq<char> {
    decimal(major) + seq!['.'] + decimal(minor) + seq!['.'] + decimal(patch)
}

/// A semantic version, together with the text it stands for.
#[derive(Debug)]
pub struct ReleaseVersion {
    /// The text; matching reads the version from it.
    text: String,
    /// The value semver gives for the text, shown by `Debug`.
    inner: semver::Version,
}

/// A semantic version requirement, together with the text it was read from.
#[derive(Debug)]
pub struct VersionRequirement {
    /// The text; matching reads the requirement from it.
    text: String,
    /// The value semver gives for the text, shown by `Debug`.
    inner: semver::VersionReq,
}

impl ReleaseVersion {
    /// The text of a version always reads back as a semantic version.
    #[verifier::type_invariant]
    spec fn text_parses(self) -> bool {
        semver_version_parses(self.text@)
    }
}

impl VersionRequirement {
    /// The text of a requirement always reads back as a requirement.
    #[verifier::type_invariant]
    spec fn text_parses(self) -> bool {
        semver_req_parses(self.text@)
    }
}

impl View for ReleaseVersion {
    type V = Seq<char>;

    closed spec fn view(&self) -> Seq<char> {
        self.text@
    }
}

impl View for VersionRequirement {
    type V = Seq<char>;

    closed spec fn view(&self) -> Seq<char> {
        self.text@
    }
}

/// Calls `semver::Version::parse`, which is deterministic in its text.
/// Claimed: it succeeds exactly when `semver_version_parses` holds of the text.
#[verifier::external_body]
fn semver_parse_version(text: &str) -> (r: Option<semver::Version>)
    ensures
        r is Some <==> semver_version_parses(text@),
{
    semver::Version::parse(text).ok()
}

/// Calls `semver::VersionReq::parse`, which is deterministic in its text.
/// Claimed: it succeeds exactly when `semver_req_parses` holds of the text.
#[verifier::external_body]
fn semver_parse_req(text: &str) -> (r: Option<semver::VersionReq>)
    ensures
        r is Some <==> semver_req_parses(text@),
{
    semver::VersionReq::parse(text).ok()
}

/// Calls `semver::Version::new`, which builds the release `major.minor.patch`
/// with empty pre-release and build metadata, and keeps it with `text`, its
/// rendering. Claimed: `semver::Version::parse` accepts that text (three
/// decimal numbers without leading zeros, separated by dots) and gives the
/// same release (semver's `Version::from_str` ends in `Version::new` for it).
#[verifier::external_body]
fn release_from_numbers(major: u64, minor: u64, patch: u64, text: String) -> (r: ReleaseVersion)
    requires
        text@ == release_text(major as nat, minor as nat, patch as nat),
    ensures
        r@ == text@,
        semver_version_parses(r@),
{
    ReleaseVersion { text, inner: semver::Version::new(major, minor, patch) }
}

/// Calls `<semver::VersionReq as Clone>::clone`; nothing is claimed of the
/// opaque result (it is the derived clone, an equal requirement).
#[verifier::external_body]
fn semver_clone_req(req: &semver::VersionReq) -> semver::VersionReq {
    req.clone()
}

/// Calls `semver::VersionReq::matches` on the requirement and the version
/// that `semver::VersionReq::parse` and `semver::Version::parse` read from the
/// arguments' texts. Both parses succeed (the types' invariants), so the
/// fallback arm is never taken. Claimed: the answer is `semver_req_matches` of
/// the two texts; parsing and matching depend on the texts alone.
#[verifier::external_body]
fn semver_matches(req: &VersionRequirement, version: &ReleaseVersion) -> (r: bool)
    ensures
        r == semver_req_matches(req@, version@),
{
    match (semver::VersionReq::parse(&req.text), semver::Version::parse(&version.text)) {
        (Ok(q), Ok(v)) => q.matches(&v),
        _ => false,
    }
}

impl ReleaseVersion {
    /// Reads a semantic version from its text; `None` where the text is not one.
    pub fn parse(text: &str) -> (r: Option<ReleaseVersion>)
        ensures
            r is Some <==> semver_version_parses(text@),
            r matches Some(v) ==> v@ == text@,
    {
        match semver_parse_version(text) {
            Some(inner) => Some(ReleaseVersion { text: text.to_owned(), inner }),
            None => None,
        }
    }

    /// The release `major.minor.patch` with no pre-release or build metadata.
    pub fn new(major: u64, minor: u64, patch: u64) -> (r: ReleaseVersion)
        ensures
            r@ == release_text(major as nat, minor as nat, patch as nat),
    {
        let mut text = String::new();
        push_decimal(&mut text, major);
        text.append(".");
        push_decimal(&mut text, minor);
        text.append(".");
        push_decimal(&mut text, patch);
        proof {
            reveal_strlit(".");
            assert(text@ =~= release_text(major as nat, minor as nat, patch as nat));
        }
        release_from_numbers(major, minor, patch, text)
    }

    /// The text of the version, which reads back as a semantic version.
    pub fn as_str(&self) -> (r: &str)
        ensures
            r@ == self@,
            semver_version_parses(r@),
    {
        proof {
            use_type_invariant(self);
        }
        self.text.as_str()
    }
}

impl VersionRequirement {
    /// Reads a version requirement from its text; `None` where the text is not
    /// one.
    pub fn parse(text: &str) -> (r: Option<VersionRequirement>)
        ensures
            r is Some <==> semver_req_parses(text@),
            r matches Some(q) ==> q@ == text@,
    {
        match semver_parse_req(text) {
            Some(inner) => Some(VersionRequirement { text: text.to_owned(), inner }),
            None => None,
        }
    }

    /// Whether `version` satisfies the requirement.
    pub fn matches(&self, version: &ReleaseVersion) -> (r: bool)
        ensures
            r == semver_req_matches(self@, version@),
    {
        semver_matches(self, version)
    }

    /// The text of the requirement, which reads back as a requirement.
    pub fn as_str(&self) -> (r: &str)
        ensures
            r@ == self@,
            semver_req_parses(r@),
    {
        proof {
            use_type_invariant(self);
        }
        self.text.as_str()
    }
}

impl Clone for VersionRequirement {
    fn clone(&self) -> (r: VersionRequirement)
        ensures
            r@ == self@,
    {
        proof {
            use_type_invariant(self);
        }
        VersionRequirement { text: self.text.clone(), inner: semver_clone_req(&self.inner) }
    }
}

} // verus!
