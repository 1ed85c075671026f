//! Release-feed handling: deciding which published releases a device
//! variant may upgrade to, and picking the most recent of them.
//!
//! Fetching the feed itself is network work done outside the library;
//! the decisions over the fetched entries are made here.

use vstd::prelude::*;

use crate::version::req_match_of;
use crate::version::version_gt;
use crate::version::version_gt_of;

verus! {

/// One entry of a release feed, as published.
#[derive(Debug)]
pub struct LightReleaseResponse {
    pub name: String,
    pub tag_name: String,
    pub published_at: String,
    pub html_url: String,
}

impl Clone for LightReleaseResponse {
    /// An exact copy of the entry.
    fn clone(&self) -> (r: LightReleaseResponse)
        ensures r == *self,
    {
        LightReleaseResponse {
            name: self.name.clone(),
            tag_name: self.tag_name.clone(),
            published_at: self.published_at.clone(),
            html_url: self.html_url.clone(),
        }
    }
}

/// The instant a timestamp string denotes, in milliseconds, if it is a
/// well-formed timestamp.  A function of the string alone.
pub uninterp spec fn rfc3339_instant_of(s: Seq<char>) -> Option<i64>;

/// Relies on `chrono::DateTime::parse_from_rfc3339` and
/// `DateTime::timestamp_millis`: deterministic in the string.
#[verifier::external_body]
pub(crate) fn parse_rfc3339(s: &str) -> (r: Option<i64>)
    ensures
        r == rfc3339_instant_of(s@),
{
    chrono::DateTime::parse_from_rfc3339(s).ok().map(|d| d.timestamp_millis())
}

/// The text a numbered capture group of a pattern matches in a text, if
/// the pattern compiles and matches.  A function of the three alone.
pub uninterp spec fn capture_group_of(pattern: Seq<char>, text: Seq<char>, index: int)
    -> Option<Seq<char>>;

/// Relies on `regex::Regex::new`, `Regex::captures` and `Captures::get`:
/// deterministic in the pattern, the text and the group index.
#[verifier::external_body]
pub(crate) fn capture_group(pattern: &str, text: &str, index: usize) -> (r: Option<String>)
    ensures
        r is Some <==> capture_group_of(pattern@, text@, index as int) is Some,
        r matches Some(s) ==> capture_group_of(pattern@, text@, index as int) == Some(s@),
{
    let re = regex::Regex::new(pattern).ok()?;
    let caps = re.captures(text)?;
    let m = caps.get(index)?;
    Some(m.as_str().to_owned())
}

/// The pattern that takes a release tag apart into its product prefix
/// and its version part.
pub fn release_tag_pattern() -> (r: &'static str)
    ensures r@ == "^([a-zA-Z0-9_]+)-v?(.+)$"@,
{
    "^([a-zA-Z0-9_]+)-v?(.+)$"
}

/// Which device variant a release feed is being read for, with the
/// firmware version currently on the device.
#[derive(Debug)]
pub enum ReleaseFilter {
    /// Accept every entry.
    Any,
    /// Distance-sensor releases: the tag past its first character is
    /// the version; it must be newer than the current one and inside
    /// the supported range.
    LaserCan { current: String },
    /// Power-module releases: tags carry a product prefix; the tag must
    /// name the product, and its version part must be newer than the
    /// current one and inside the supported range.
    Mitocandria { current: String },
}

/// Whether one release tag is acceptable under a filter.
pub open spec fn spec_accepts(f: ReleaseFilter, tag: Seq<char>) -> bool {
    match f {
        ReleaseFilter::Any => true,
        ReleaseFilter::LaserCan { current } => {
            &&& tag.len() >= 1
            &&& version_gt_of(tag.skip(1), current@) == Some(true)
            &&& req_match_of(">= 2024.2.0, < 2024.3.0"@, tag.skip(1)) == Some(true)
        },
        ReleaseFilter::Mitocandria { current } => {
            &&& tag.len() >= 11
            &&& tag.take(11) == "mitocandria"@
            &&& (match capture_group_of("^([a-zA-Z0-9_]+)-v?(.+)$"@, tag, 2) {
                Some(v) => version_gt_of(v, current@) == Some(true)
                    && req_match_of(">= 2025.0.0, < 2025.1.0"@, v) == Some(true),
                None => false,
            })
        },
    }
}

/// Decide whether one release tag is acceptable under a filter.
pub fn release_acceptable(f: &ReleaseFilter, tag: &String) -> (r: bool)
    ensures
        r == spec_accepts(*f, tag@),
{
    match f {
        ReleaseFilter::Any => true,
        ReleaseFilter::LaserCan { current } => {
            let n = tag.as_str().unicode_len();
            if n < 1 {
                return false;
            }
            let vers = tag.as_str().substring_char(1, n);
            let newer = match version_gt(vers, current.as_str()) {
                Some(true) => true,
                _ => false,
            };
            if !newer {
                return false;
            }
            let owned = vers.to_owned();
            match crate::lasercan::validate_version(&Some(owned)) {
                Ok(()) => true,
                Err(_) => false,
            }
        },
        ReleaseFilter::Mitocandria { current } => {
            let n = tag.as_str().unicode_len();
            if n < 11 {
                return false;
            }
            let prefix = tag.as_str().substring_char(0, 11);
            let is_product = {
                let expected = "mitocandria";
                proof {
                    reveal_strlit("mitocandria");
                }
                prefix.to_owned() == expected.to_owned()
            };
            if !is_product {
                return false;
            }
            match capture_group(release_tag_pattern(), tag.as_str(), 2) {
                Some(v) => {
                    let newer = match version_gt(v.as_str(), current.as_str()) {
                        Some(true) => true,
                        _ => false,
                    };
                    if !newer {
                        false
                    } else {
                        match crate::mitocandria::validate_version(&Some(v)) {
                            Ok(()) => true,
                            Err(_) => false,
                        }
                    }
                },
                None => false,
            }
        },
    }
}

/// The running best choice while scanning a feed in order: the entry,
/// and the instant it was published.
pub open spec fn fold_best(
    rs: Seq<LightReleaseResponse>,
    f: ReleaseFilter,
    acc: Option<(LightReleaseResponse, i64)>,
) -> Option<(LightReleaseResponse, i64)>
    decreases rs.len(),
{
    if rs.len() == 0 {
        acc
    } else {
        let r0 = rs[0];
        let acc2 = if spec_accepts(f, r0.tag_name@) {
            match rfc3339_instant_of(r0.published_at@) {
                Some(dt) => match acc {
                    None => Some((r0, dt)),
                    Some((b, bd)) => if bd < dt { Some((r0, dt)) } else { acc },
                },
                None => acc,
            }
        } else {
            acc
        };
        fold_best(rs.skip(1), f, acc2)
    }
}

/// Pick the most recently published acceptable release, if any: entries
/// failing the filter or carrying no well-formed timestamp are passed
/// over, and of equally timed entries the earliest listed wins.
pub fn most_recent_update_available(releases: &Vec<LightReleaseResponse>, f: &ReleaseFilter)
    -> (r: Option<LightReleaseResponse>)
    ensures
        r == (match fold_best(releases@, *f, None) {
            Some((b, _)) => Some(b),
            None => None::<LightReleaseResponse>,
        }),
{
    let ghost rs = releases@;
    let mut best: Option<(LightReleaseResponse, i64)> = None;
    let mut i: usize = 0;
    proof {
        assert(rs.skip(0) =~= rs);
    }
    while i < releases.len()
        invariant
            releases@ == rs,
            i <= rs.len(),
            fold_best(rs, *f, None) == fold_best(rs.skip(i as int), *f,
                match best {
                    Some((b, bd)) => Some((b, bd)),
                    None => None::<(LightReleaseResponse, i64)>,
                }),
        decreases rs.len() - i,
    {
        proof {
            assert(rs.skip(i as int)[0] == rs[i as int]);
            assert(rs.skip(i as int).skip(1) =~= rs.skip(i + 1));
        }
        let entry = &releases[i];
        if release_acceptable(f, &entry.tag_name) {
            match parse_rfc3339(entry.published_at.as_str()) {
                Some(dt) => {
                    let replace = match &best {
                        None => true,
                        Some((_, bd)) => *bd < dt,
                    };
                    if replace {
                        best = Some((entry.clone(), dt));
                    }
                },
                None => {},
            }
        }
        i += 1;
    }
    proof {
        assert(rs.skip(rs.len() as int) =~= Seq::<LightReleaseResponse>::empty());
    }
    match best {
        Some((b, _)) => Some(b),
        None => None,
    }
}

/// What checking a device for new firmware needs before the feed can
/// be consulted: the device must have reported a version.  The caller
/// fetches the feed and selects with that version's filter.
pub fn current_version_for_update_check(info: &crate::devices::DeviceInfo)
    -> (r: Result<String, crate::HookError>)
    ensures
        info.firmware_version matches Some(v) ==> (r matches Ok(c) && c == v),
        info.firmware_version is None ==> (r matches Err(e) && e is NoVersion),
{
    match &info.firmware_version {
        Some(v) => Ok(v.clone()),
        None => Err(crate::HookError::NoVersion),
    }
}

} // verus!
