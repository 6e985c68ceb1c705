//! The update check: what a published release means for the running
//! version.

use crate::scan::trim_leading_span;
use crate::scan::without_leading;
use crate::scan::Span;
use crate::text::to_chars;
use vstd::prelude::*;
use vstd::string::StrSliceExecFns;

verus! {

/// What the update check found.
#[derive(Debug)]
pub struct UpdateInfo {
    pub is_success: bool,
    pub message: String,
    pub has_update: bool,
    pub latest_version: Option<String>,
    pub download_url: Option<String>,
    pub changelog: Option<String>,
}

/// The finding as specifications see it.
pub struct UpdateInfoView {
    pub is_success: bool,
    pub message: Seq<char>,
    pub has_update: bool,
    pub latest_version: Option<Seq<char>>,
    pub download_url: Option<Seq<char>>,
    pub changelog: Option<Seq<char>>,
}

/// The text of an optional string.
pub open spec fn optional_text(text: Option<String>) -> Option<Seq<char>> {
    match text {
        Some(t) => Some(t@),
        None => None,
    }
}

impl View for UpdateInfo {
    type V = UpdateInfoView;

    open spec fn view(&self) -> UpdateInfoView {
        UpdateInfoView {
            is_success: self.is_success,
            message: self.message@,
            has_update: self.has_update,
            latest_version: optional_text(self.latest_version),
            download_url: optional_text(self.download_url),
            changelog: optional_text(self.changelog),
        }
    }
}

/// Whether a text is a semantic version.
pub uninterp spec fn semver_valid(text: Seq<char>) -> bool;

/// Whether the version `left` is greater than the version `right` in the
/// order that the `semver` crate gives to versions, which looks at the build
/// metadata as well. Both texts are semantic versions.
pub uninterp spec fn semver_greater(left: Seq<char>, right: Seq<char>) -> bool;

/// Calls `semver::Version::parse` and says whether the text was taken for a
/// version.
#[verifier::external_body]
fn is_semver(text: &str) -> (r: bool)
    ensures
        r == semver_valid(text@),
{
    semver::Version::parse(text).is_ok()
}

/// Compares two versions with the `>` of `semver::Version`, after reading
/// both texts with `semver::Version::parse`. It is called on texts that
/// parse only.
#[verifier::external_body]
fn semver_is_greater(left: &str, right: &str) -> (r: bool)
    requires
        semver_valid(left@),
        semver_valid(right@),
    ensures
        r == semver_greater(left@, right@),
{
    match (semver::Version::parse(left), semver::Version::parse(right)) {
        (Ok(l), Ok(r)) => l > r,
        _ => false,
    }
}

/// The version that a release tag names: the tag without the letters `v` at
/// its start.
pub open spec fn tagged_version(tag_name: Seq<char>) -> Seq<char> {
    without_leading(tag_name, 'v')
}

/// Whether the release is newer than the running version; nothing where one
/// of the two is no semantic version.
pub open spec fn release_is_newer(current_version: Seq<char>, remote_version: Seq<char>) -> Option<
    bool,
> {
    if semver_valid(current_version) && semver_valid(remote_version) {
        Some(semver_greater(remote_version, current_version))
    } else {
        None
    }
}

/// The finding for a release, given whether it is newer. A newer release is
/// reported with its page and its notes; a release that is not newer with
/// its version alone; versions that cannot be compared as a failure.
pub open spec fn update_finding(
    newer: Option<bool>,
    remote_version: Seq<char>,
    html_url: Seq<char>,
    body: Option<Seq<char>>,
) -> UpdateInfoView {
    match newer {
        Some(true) => UpdateInfoView {
            is_success: true,
            message: "检查更新成功"@,
            has_update: true,
            latest_version: Some(remote_version),
            download_url: Some(html_url),
            changelog: body,
        },
        Some(false) => UpdateInfoView {
            is_success: true,
            message: "当前已是最新版本"@,
            has_update: false,
            latest_version: Some(remote_version),
            download_url: None,
            changelog: None,
        },
        None => UpdateInfoView {
            is_success: false,
            message: "版本号解析失败"@,
            has_update: false,
            latest_version: None,
            download_url: None,
            changelog: None,
        },
    }
}

/// The finding of a check that failed before a release could be read.
pub fn failed_update(message: String) -> (r: UpdateInfo)
    ensures
        r@ == (UpdateInfoView {
            is_success: false,
            message: message@,
            has_update: false,
            latest_version: None,
            download_url: None,
            changelog: None,
        }),
{
    UpdateInfo {
        is_success: false,
        message,
        has_update: false,
        latest_version: None,
        download_url: None,
        changelog: None,
    }
}

/// The version that a release tag names.
pub fn version_of_tag(tag_name: &str) -> (r: String)
    ensures
        r@ == tagged_version(tag_name@),
{
    let chars = to_chars(tag_name);
    let whole = Span { start: 0, end: chars.len() };
    assert(whole.of(chars@) =~= tag_name@);
    let bare = trim_leading_span(&chars, whole, 'v');
    tag_name.substring_char(bare.start, bare.end).to_owned()
}

/// Compares the release with the running version.
pub fn compare_versions(current_version: &str, remote_version: &str) -> (r: Option<bool>)
    ensures
        r == release_is_newer(current_version@, remote_version@),
{
    if is_semver(current_version) && is_semver(remote_version) {
        Some(semver_is_greater(remote_version, current_version))
    } else {
        None
    }
}

/// The finding for a release, given whether it is newer.
pub fn update_info_for(
    newer: Option<bool>,
    remote_version: &str,
    html_url: &str,
    body: Option<String>,
) -> (r: UpdateInfo)
    ensures
        r@ == update_finding(newer, remote_version@, html_url@, optional_text(body)),
{
    match newer {
        Some(true) => UpdateInfo {
            is_success: true,
            message: "检查更新成功".to_owned(),
            has_update: true,
            latest_version: Some(remote_version.to_owned()),
            download_url: Some(html_url.to_owned()),
            changelog: body,
        },
        Some(false) => UpdateInfo {
            is_success: true,
            message: "当前已是最新版本".to_owned(),
            has_update: false,
            latest_version: Some(remote_version.to_owned()),
            download_url: None,
            changelog: None,
        },
        None => UpdateInfo {
            is_success: false,
            message: "版本号解析失败".to_owned(),
            has_update: false,
            latest_version: None,
            download_url: None,
            changelog: None,
        },
    }
}

/// Judges a published release against the running version.
pub fn check_update(current_version: &str, tag_name: &str, html_url: &str, body: Option<String>) -> (r:
    UpdateInfo)
    ensures
        r@ == update_finding(
            release_is_newer(current_version@, tagged_version(tag_name@)),
            tagged_version(tag_name@),
            html_url@,
            optional_text(body),
        ),
{
    let remote_version = version_of_tag(tag_name);
    let newer = compare_versions(current_version, remote_version.as_str());
    update_info_for(newer, remote_version.as_str(), html_url, body)
}

} // verus!
