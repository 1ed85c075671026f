//! Firmware-version gating: a device's reported semantic version is held
//! against a device-variant-specific required range before its real
//! capability surface is exposed.

use vstd::prelude::*;

use crate::HookError;

verus! {

/// Whether `version` satisfies the requirement `req`, both in their
/// string forms; absent when either fails to parse.  The outcome is a
/// function of the two strings alone.
pub uninterp spec fn req_match_of(req: Seq<char>, version: Seq<char>) -> Option<bool>;

/// Relies on `semver::VersionReq::parse`, `semver::Version::parse` and
/// `semver::VersionReq::matches`: deterministic in the two strings.
#[verifier::external_body]
fn version_req_matches(req: &str, version: &str) -> (r: Option<bool>)
    ensures
        r == req_match_of(req@, version@),
{
    match (semver::VersionReq::parse(req), semver::Version::parse(version)) {
        (Ok(rq), Ok(v)) => Some(rq.matches(&v)),
        _ => None,
    }
}

/// Whether `a` is a strictly newer version than `b`; absent when either
/// fails to parse.  The outcome is a function of the two strings alone.
pub uninterp spec fn version_gt_of(a: Seq<char>, b: Seq<char>) -> Option<bool>;

/// Relies on `semver::Version::parse` and the `Ord` impl of
/// `semver::Version`: deterministic in the two strings.
#[verifier::external_body]
pub(crate) fn version_gt(a: &str, b: &str) -> (r: Option<bool>)
    ensures
        r == version_gt_of(a@, b@),
{
    match (semver::Version::parse(a), semver::Version::parse(b)) {
        (Ok(va), Ok(vb)) => Some(va > vb),
        _ => None,
    }
}

/// When a reported version passes a required range: no version was
/// reported (the permissive default), or both strings parse and the
/// version satisfies the range.
pub open spec fn version_acceptable(version: Option<String>, req: Seq<char>) -> bool {
    match version {
        None => true,
        Some(v) => req_match_of(req, v@) == Some(true),
    }
}

/// The description a rejected version carries.
pub open spec fn mismatch_description(version: Seq<char>, req: Seq<char>) -> Seq<char> {
    "Invalid version: "@ + version + ", expected: "@ + req
}

/// Hold a reported firmware version against a required range.  A device
/// that reports no version passes; one whose version is outside the
/// range — or not a parseable semantic version — is rejected with a
/// description naming both sides.
pub fn require_version(version: &Option<String>, req: &str) -> (r: Result<(), HookError>)
    ensures
        version_acceptable(*version, req@) <==> r is Ok,
        !version_acceptable(*version, req@) ==> (r matches Err(e)
            && e matches HookError::VersionMismatch(d)
            && d@ == mismatch_description(version->Some_0@, req@)),
{
    match version {
        None => Ok(()),
        Some(v) => {
            match version_req_matches(req, v.as_str()) {
                Some(true) => Ok(()),
                _ => {
                    let mut d = String::from_str("Invalid version: ");
                    d.append(v.as_str());
                    d.append(", expected: ");
                    d.append(req);
                    proof {
                        assert(d@ == mismatch_description(v@, req@));
                    }
                    Err(HookError::VersionMismatch(d))
                },
            }
        },
    }
}

/// A rejected version's description is never empty.
pub proof fn lemma_mismatch_description_nonempty(version: Seq<char>, req: Seq<char>)
    ensures
        mismatch_description(version, req).len() > 0,
{
    reveal_strlit("Invalid version: ");
    reveal_strlit(", expected: ");
}

} // verus!
