//! Deciding, from the latest published release, whether an update exists and
//! which file installs it.

use vstd::prelude::*;
use vstd::string::*;

use crate::version::{comparison_outcome, is_version_newer};

verus! {

/// A file attached to a release.
pub struct GitHubReleaseAsset {
    pub name: String,
    pub browser_download_url: String,
}

/// A published release.
pub struct GitHubRelease {
    pub tag_name: String,
    pub name: String,
    pub body: Option<String>,
    pub html_url: String,
    pub assets: Vec<GitHubReleaseAsset>,
}

/// What an update check found.
pub struct UpdateCheckResult {
    pub current_version: String,
    pub latest_version: String,
    pub download_url: String,
    pub is_newer: bool,
    pub changelog: Option<String>,
    pub release_url: String,
    pub release_name: String,
    pub asset_name: String,
}

/// Whether `s` begins with `prefix`.
pub open spec fn has_prefix(s: Seq<char>, prefix: Seq<char>) -> bool {
    prefix.len() <= s.len() && s.subrange(0, prefix.len() as int) == prefix
}

/// Whether `s` ends with `suffix`.
pub open spec fn has_suffix(s: Seq<char>, suffix: Seq<char>) -> bool {
    suffix.len() <= s.len() && s.subrange(s.len() - suffix.len(), s.len() as int) == suffix
}

/// Whether a release file of this name is the program's installer.
pub open spec fn is_installer(name: Seq<char>) -> bool {
    has_prefix(name, "r6_op_rando"@) && has_suffix(name, ".exe"@)
}

/// `i` is the position of the first installer among `assets`.
pub open spec fn first_installer(assets: Seq<GitHubReleaseAsset>, i: int) -> bool {
    &&& 0 <= i < assets.len()
    &&& is_installer(assets[i].name@)
    &&& forall|j: int| 0 <= j < i ==> !is_installer(#[trigger] assets[j].name@)
}

/// Whether any of `assets` is an installer.
pub open spec fn has_installer(assets: Seq<GitHubReleaseAsset>) -> bool {
    exists|i: int| 0 <= i < assets.len() && is_installer(#[trigger] assets[i].name@)
}

/// Whether the text `s` begins with `prefix`.
fn text_has_prefix(s: &str, prefix: &str) -> (r: bool)
    ensures
        r == has_prefix(s@, prefix@),
{
    let n = s.unicode_len();
    let p = prefix.unicode_len();
    if p > n {
        return false;
    }
    let head = String::from_str(s.substring_char(0, p));
    head == String::from_str(prefix)
}

/// Whether the text `s` ends with `suffix`.
fn text_has_suffix(s: &str, suffix: &str) -> (r: bool)
    ensures
        r == has_suffix(s@, suffix@),
{
    let n = s.unicode_len();
    let p = suffix.unicode_len();
    if p > n {
        return false;
    }
    let tail = String::from_str(s.substring_char(n - p, n));
    tail == String::from_str(suffix)
}

/// Whether the text `name` names the program's installer.
pub fn is_installer_name(name: &str) -> (r: bool)
    ensures
        r == is_installer(name@),
{
    text_has_prefix(name, "r6_op_rando") && text_has_suffix(name, ".exe")
}

/// The message for a release without an installer.
pub open spec fn missing_installer_message(tag: Seq<char>) -> Seq<char> {
    "Could not find a matching .exe asset in release "@ + tag
}

/// The message for versions that cannot be compared.
pub open spec fn incomparable_message(current: Seq<char>, latest: Seq<char>) -> Seq<char> {
    "Cannot compare versions. Current: v"@ + current + ", Latest: "@ + latest
        + " - Please ensure GitHub release uses semantic versioning (e.g., v1.2.0)"@
}

/// Judges `release` against the running version `current_version`: it must
/// carry an installer, the first of which is offered, and both versions must
/// read as `X.Y.Z`.
pub fn evaluate_release(current_version: &str, release: GitHubRelease) -> (r: Result<
    UpdateCheckResult,
    String,
>)
    ensures
        !has_installer(release.assets@) ==> (r matches Err(e) && e@ == missing_installer_message(
            release.tag_name@,
        )),
        has_installer(release.assets@) && comparison_outcome(
            current_version@,
            release.tag_name@,
        ) is Err ==> (r matches Err(e) && e@ == incomparable_message(
            current_version@,
            release.tag_name@,
        )),
        r is Ok ==> has_installer(release.assets@) && comparison_outcome(
            current_version@,
            release.tag_name@,
        ) is Ok,
        r matches Ok(u) ==> exists|i: int|
            first_installer(release.assets@, i) && u.download_url
                == release.assets@[i].browser_download_url && u.asset_name
                == release.assets@[i].name,
        r matches Ok(u) ==> {
            &&& u.current_version@ == current_version@
            &&& u.latest_version == release.tag_name
            &&& comparison_outcome(current_version@, release.tag_name@) == Ok::<bool, Seq<char>>(
                u.is_newer,
            )
            &&& u.changelog == release.body
            &&& u.release_url == release.html_url
            &&& u.release_name == release.name
        },
{
    let mut i: usize = 0;
    while i < release.assets.len()
        invariant
            i <= release.assets@.len(),
            forall|j: int| 0 <= j < i ==> !is_installer(#[trigger] release.assets@[j].name@),
        ensures
            i < release.assets@.len() ==> is_installer(release.assets@[i as int].name@),
            forall|j: int| 0 <= j < i ==> !is_installer(#[trigger] release.assets@[j].name@),
        decreases release.assets@.len() - i,
    {
        if is_installer_name(release.assets[i].name.as_str()) {
            break;
        }
        i = i + 1;
    }
    if i == release.assets.len() {
        let mut m = String::from_str("Could not find a matching .exe asset in release ");
        m.append(release.tag_name.as_str());
        return Err(m);
    }
    assert(first_installer(release.assets@, i as int));
    let newer = match is_version_newer(current_version, release.tag_name.as_str()) {
        Ok(b) => b,
        Err(_) => {
            let mut m = String::from_str("Cannot compare versions. Current: v");
            m.append(current_version);
            m.append(", Latest: ");
            m.append(release.tag_name.as_str());
            m.append(" - Please ensure GitHub release uses semantic versioning (e.g., v1.2.0)");
            return Err(m);
        },
    };
    let download_url = release.assets[i].browser_download_url.clone();
    let asset_name = release.assets[i].name.clone();
    Ok(UpdateCheckResult {
        current_version: String::from_str(current_version),
        latest_version: release.tag_name,
        download_url,
        is_newer: newer,
        changelog: release.body,
        release_url: release.html_url,
        release_name: release.name,
        asset_name,
    })
}

} // verus!
