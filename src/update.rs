//! The update check: the remote release descriptor and whether it names a
//! release newer than the running one.
use vstd::prelude::*;
use crate::error::UpdateError;
use crate::json::{json_string_member, string_member};
use crate::version::{TTDashVersion, is_newer, parse_version, parsed_version, version_order};
use std::cmp::Ordering;

verus! {

/// A release that could be installed: its version, the checksum of its
/// artifact (lowercase hex MD5) and where to download the artifact.
#[derive(Debug)]
pub struct TTDashUpgradeTarget {
    pub version: TTDashVersion,
    pub md5sum: String,
    pub url: String,
}

/// The text of an optional string.
pub open spec fn opt_view(o: Option<String>) -> Option<Seq<char>> {
    match o {
        Some(s) => Some(s@),
        None => None,
    }
}

/// The release that descriptor members name: all three present and the
/// version well formed.
pub open spec fn descriptor_target(
    version: Option<Seq<char>>,
    md5sum: Option<Seq<char>>,
    url: Option<Seq<char>>,
) -> Option<(TTDashVersion, Seq<char>, Seq<char>)> {
    match (version, md5sum, url) {
        (Some(v), Some(m), Some(u)) => match parsed_version(v) {
            Some(ver) => Some((ver, m, u)),
            None => None,
        },
        _ => None,
    }
}

/// What a descriptor's text names, member by member.
pub open spec fn descriptor_of(doc: Seq<char>) -> Option<(TTDashVersion, Seq<char>, Seq<char>)> {
    descriptor_target(
        json_string_member(doc, "version"@),
        json_string_member(doc, "md5sum"@),
        json_string_member(doc, "url"@),
    )
}

/// `r` is the outcome of reading `named` as a release: that release, or a
/// `DescriptorParseError` where there is none.
pub open spec fn target_result(
    r: Result<TTDashUpgradeTarget, UpdateError>,
    named: Option<(TTDashVersion, Seq<char>, Seq<char>)>,
) -> bool {
    match r {
        Ok(t) => named == Some((t.version, t.md5sum@, t.url@)),
        Err(e) => named is None && e is DescriptorParseError,
    }
}

impl TTDashUpgradeTarget {
    pub fn new(version: TTDashVersion, md5sum: String, url: String) -> (r: TTDashUpgradeTarget)
        ensures
            r.version == version,
            r.md5sum == md5sum,
            r.url == url,
    {
        TTDashUpgradeTarget { version, md5sum, url }
    }
}

fn descriptor_error(message: &str) -> (r: UpdateError)
    ensures
        r is DescriptorParseError,
{
    UpdateError::DescriptorParseError(String::from_str(message))
}

/// The release named by a descriptor's `version`, `md5sum` and `url` members.
pub fn target_from_members(
    version: Option<String>,
    md5sum: Option<String>,
    url: Option<String>,
) -> (r: Result<TTDashUpgradeTarget, UpdateError>)
    ensures
        target_result(r, descriptor_target(opt_view(version), opt_view(md5sum), opt_view(url))),
{
    match (version, md5sum, url) {
        (Some(version), Some(md5sum), Some(url)) => match parse_version(version.as_str()) {
            Ok(v) => Ok(TTDashUpgradeTarget { version: v, md5sum, url }),
            Err(_) => Err(descriptor_error("malformed version in release descriptor")),
        },
        (None, _, _) => Err(descriptor_error("release descriptor has no string member version")),
        (_, None, _) => Err(descriptor_error("release descriptor has no string member md5sum")),
        (_, _, None) => Err(descriptor_error("release descriptor has no string member url")),
    }
}

/// Reads the release descriptor `{"version": "M.m", "md5sum": "<hex>",
/// "url": "<url>"}`.
pub fn available_target(body: &str) -> (r: Result<TTDashUpgradeTarget, UpdateError>)
    ensures
        target_result(r, descriptor_of(body@)),
{
    let version = string_member(body, "version");
    let md5sum = string_member(body, "md5sum");
    let url = string_member(body, "url");
    target_from_members(version, md5sum, url)
}

/// Where the release descriptor of a track is published.
pub fn descriptor_url(track: &str) -> (r: String)
    ensures
        r@ == "http://linode.mrjon.es/ttdash-"@ + track@ + ".version"@,
{
    let mut url = String::from_str("http://linode.mrjon.es/ttdash-");
    url.append(track);
    url.append(".version");
    url
}

/// The running program's version, from the version text it was built with;
/// `NotConfigured` when it was built without one.
pub fn local_version(configured: Option<&str>) -> (r: Result<TTDashVersion, UpdateError>)
    ensures
        configured is None ==> r matches Err(UpdateError::NotConfigured),
        configured is Some ==> (r is Ok <==> parsed_version(configured->0@) is Some),
        r is Ok ==> configured is Some && r->Ok_0 == parsed_version(configured->0@)->0,
        configured is Some && r is Err ==> (r->Err_0 matches UpdateError::MalformedVersion(m)
            && m@ == configured->0@),
{
    match configured {
        Some(text) => parse_version(text),
        None => Err(UpdateError::NotConfigured),
    }
}

/// Whether the program can update itself: it was built with a well-formed
/// version.
pub fn updater_configured(configured: Option<&str>) -> (r: bool)
    ensures
        r == (configured is Some && parsed_version(configured->0@) is Some),
{
    local_version(configured).is_ok()
}

/// The release offered for installation by a check with this local version
/// and this outcome of fetching the descriptor.
pub open spec fn offered_update(
    local: Option<TTDashVersion>,
    fetched: Result<TTDashUpgradeTarget, UpdateError>,
) -> Option<TTDashUpgradeTarget> {
    if local is Some && fetched is Ok && is_newer(fetched->Ok_0.version, local->0) {
        Some(fetched->Ok_0)
    } else {
        None
    }
}

/// An update is offered only when the local version is known and the remote
/// one is strictly greater: never without a local version, never for an
/// equal or an older remote version, and never when the fetch failed.
pub proof fn lemma_update_only_if_newer(
    local: Option<TTDashVersion>,
    fetched: Result<TTDashUpgradeTarget, UpdateError>,
)
    ensures
        local is None ==> offered_update(local, fetched) is None,
        fetched is Err ==> offered_update(local, fetched) is None,
        local is Some && fetched is Ok && fetched->Ok_0.version == local->0 ==> offered_update(
            local,
            fetched,
        ) is None,
        local is Some && fetched is Ok && version_order(fetched->Ok_0.version, local->0)
            == Ordering::Less ==> offered_update(local, fetched) is None,
        offered_update(local, fetched) is Some <==> (local is Some && fetched is Ok && (
        fetched->Ok_0.version.major > local->0.major || (fetched->Ok_0.version.major
            == local->0.major && fetched->Ok_0.version.minor > local->0.minor))),
        offered_update(local, fetched) is Some ==> offered_update(local, fetched)->0
            == fetched->Ok_0,
{
}

/// The release to install, if any: only when the local version is known, the
/// descriptor was fetched and read, and it names a strictly newer version.
pub fn binary_update_available(
    local: Option<TTDashVersion>,
    fetched: Result<TTDashUpgradeTarget, UpdateError>,
) -> (r: Option<TTDashUpgradeTarget>)
    ensures
        r == offered_update(local, fetched),
{
    match (local, fetched) {
        (Some(local), Ok(target)) => {
            match target.version.compare(&local) {
                std::cmp::Ordering::Greater => Some(target),
                _ => None,
            }
        },
        _ => None,
    }
}

} // verus!
