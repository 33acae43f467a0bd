//! Choosing the release that the program updates itself to.

use crate::json::{json_document, member, member_of, parse_json, text_of, as_text, JsonView};
use crate::text::{chars_of, contains, contains_text, opt_text, str_eq, string_of, to_lowercase, unicode_lower};
use vstd::prelude::*;
use vstd::string::*;

verus! {

/// An update that is on offer.
#[derive(Debug)]
pub struct CustomUpdateInfo {
    pub version: String,
    pub pub_date: String,
    pub download_url: String,
    pub signature: String,
    pub notes: String,
    pub body: Option<String>,
    pub channel: String,
}

/// A file of a release.
#[derive(Debug)]
pub struct ReleaseAsset {
    pub name: String,
    pub download_url: String,
}

/// A release, as the list of releases gives it.
#[derive(Debug)]
pub struct Release {
    pub tag_name: String,
    pub published_at: String,
    pub body: Option<String>,
    pub assets: Vec<ReleaseAsset>,
    pub prerelease: bool,
}

/// Whether the channel is the test channel.
pub open spec fn is_test_channel(channel: Seq<char>) -> bool {
    channel == "test"@
}

/// The address at which the releases of a channel are listed.
pub fn releases_url(channel: &str) -> (r: String)
    ensures
        r@ == (if is_test_channel(channel@) {
            "https://api.github.com/repos/Kwensiu/Pailer/releases"@
        } else {
            "https://api.github.com/repos/Kwensiu/Pailer/releases/latest"@
        }),
{
    if str_eq(channel, "test") {
        "https://api.github.com/repos/Kwensiu/Pailer/releases".to_owned()
    } else {
        "https://api.github.com/repos/Kwensiu/Pailer/releases/latest".to_owned()
    }
}

/// The address of the file that holds the signatures of a channel.
pub fn signature_url(channel: &str) -> (r: String)
    ensures
        r@ == (if is_test_channel(channel@) {
            "https://raw.githubusercontent.com/Kwensiu/Pailer/refs/heads/test/docs/test-update.json"@
        } else {
            "https://github.com/Kwensiu/Pailer/releases/latest/download/update.json"@
        }),
{
    if str_eq(channel, "test") {
        "https://raw.githubusercontent.com/Kwensiu/Pailer/refs/heads/test/docs/test-update.json".to_owned()
    } else {
        "https://github.com/Kwensiu/Pailer/releases/latest/download/update.json".to_owned()
    }
}

/// Whether a release belongs to a channel: any release to the stable one; to
/// the test channel a pre-release, or a release with `test` in its tag.
pub open spec fn in_channel(release: Release, channel: Seq<char>) -> bool {
    is_test_channel(channel) ==> release.prerelease || contains_text(
        unicode_lower(release.tag_name@),
        "test"@,
    )
}

/// The index of the first release of the channel.
pub open spec fn first_release(releases: Seq<Release>, channel: Seq<char>) -> Option<int>
    decreases releases.len(),
{
    if releases.len() == 0 {
        None
    } else {
        match first_release(releases.drop_last(), channel) {
            Some(i) => Some(i),
            None => if in_channel(releases.last(), channel) {
                Some(releases.len() - 1)
            } else {
                None
            },
        }
    }
}

/// Whether a file is the installer for Windows.
pub open spec fn is_windows_asset(asset: ReleaseAsset) -> bool {
    contains_text(asset.name@, "x64-setup.exe"@) || contains_text(asset.name@, "windows"@)
}

/// The index of the first installer for Windows.
pub open spec fn first_windows_asset(assets: Seq<ReleaseAsset>) -> Option<int>
    decreases assets.len(),
{
    if assets.len() == 0 {
        None
    } else {
        match first_windows_asset(assets.drop_last()) {
            Some(i) => Some(i),
            None => if is_windows_asset(assets.last()) {
                Some(assets.len() - 1)
            } else {
                None
            },
        }
    }
}

/// The version that a tag names: the tag without a `v` at its head.
pub open spec fn version_of_tag(tag: Seq<char>) -> Seq<char> {
    if tag.len() > 0 && tag[0] == 'v' {
        tag.skip(1)
    } else {
        tag
    }
}

/// The release that was chosen, with what is taken from it.
#[derive(Debug)]
pub struct SelectedUpdate {
    pub version: String,
    pub pub_date: String,
    pub download_url: String,
    pub body: Option<String>,
}

proof fn lemma_first_release_extends(releases: Seq<Release>, channel: Seq<char>, n: int)
    requires
        0 <= n <= releases.len(),
        first_release(releases.take(n), channel) is Some,
    ensures
        first_release(releases, channel) == first_release(releases.take(n), channel),
    decreases releases.len() - n,
{
    if n < releases.len() {
        assert(releases.take(n + 1).drop_last() =~= releases.take(n));
        lemma_first_release_extends(releases, channel, n + 1);
    } else {
        assert(releases.take(n) =~= releases);
    }
}

proof fn lemma_first_asset_extends(assets: Seq<ReleaseAsset>, n: int)
    requires
        0 <= n <= assets.len(),
        first_windows_asset(assets.take(n)) is Some,
    ensures
        first_windows_asset(assets) == first_windows_asset(assets.take(n)),
    decreases assets.len() - n,
{
    if n < assets.len() {
        assert(assets.take(n + 1).drop_last() =~= assets.take(n));
        lemma_first_asset_extends(assets, n + 1);
    } else {
        assert(assets.take(n) =~= assets);
    }
}

fn find_release(releases: &Vec<Release>, channel: &str) -> (r: Option<usize>)
    ensures
        match r {
            Some(i) => first_release(releases@, channel@) == Some(i as int) && i < releases.len(),
            None => first_release(releases@, channel@) is None,
        },
{
    let test = str_eq(channel, "test");
    let mut k: usize = 0;
    while k < releases.len()
        invariant
            k <= releases.len(),
            test == is_test_channel(channel@),
            first_release(releases@.take(k as int), channel@) is None,
        decreases releases.len() - k,
    {
        proof {
            let now = releases@.take(k + 1);
            assert(now.drop_last() =~= releases@.take(k as int));
        }
        let fits = !test || releases[k].prerelease || contains(
            to_lowercase(releases[k].tag_name.as_str()).as_str(),
            "test",
        );
        if fits {
            proof {
                lemma_first_release_extends(releases@, channel@, k + 1);
            }
            return Some(k);
        }
        k += 1;
    }
    assert(releases@.take(releases.len() as int) =~= releases@);
    None
}

fn find_asset(assets: &Vec<ReleaseAsset>) -> (r: Option<usize>)
    ensures
        match r {
            Some(i) => first_windows_asset(assets@) == Some(i as int) && i < assets.len(),
            None => first_windows_asset(assets@) is None,
        },
{
    let mut k: usize = 0;
    while k < assets.len()
        invariant
            k <= assets.len(),
            first_windows_asset(assets@.take(k as int)) is None,
        decreases assets.len() - k,
    {
        proof {
            let now = assets@.take(k + 1);
            assert(now.drop_last() =~= assets@.take(k as int));
        }
        let name = assets[k].name.as_str();
        if contains(name, "x64-setup.exe") || contains(name, "windows") {
            proof {
                lemma_first_asset_extends(assets@, k + 1);
            }
            return Some(k);
        }
        k += 1;
    }
    assert(assets@.take(assets.len() as int) =~= assets@);
    None
}

/// The message for a channel without a release.
pub open spec fn no_release_message(channel: Seq<char>) -> Seq<char> {
    if is_test_channel(channel) {
        "No test release found"@
    } else {
        "No stable release found"@
    }
}

/// Returns the version that a tag names.
pub fn tag_version(tag: &str) -> (r: String)
    ensures
        r@ == version_of_tag(tag@),
{
    let chars = chars_of(tag);
    if chars.len() > 0 && chars[0] == 'v' {
        let r = string_of(&chars, 1, chars.len());
        r
    } else {
        let r = string_of(&chars, 0, chars.len());
        r
    }
}

/// Chooses the release to update to: the first release of the channel, and
/// of its files the first installer for Windows.
pub fn select_update(channel: &str, releases: &Vec<Release>) -> (r: Result<SelectedUpdate, String>)
    ensures
        match r {
            Ok(update) => {
                &&& first_release(releases@, channel@) matches Some(i)
                &&& first_windows_asset(releases@[i].assets@) matches Some(j)
                &&& update.version@ == version_of_tag(releases@[i].tag_name@)
                &&& update.pub_date@ == releases@[i].published_at@
                &&& update.download_url@ == releases@[i].assets@[j].download_url@
                &&& opt_text(update.body) == opt_text(releases@[i].body)
            },
            Err(message) => match first_release(releases@, channel@) {
                None => message@ == no_release_message(channel@),
                Some(i) => first_windows_asset(releases@[i].assets@) is None && message@
                    == "Windows installer not found in release assets"@,
            },
        },
{
    let release = match find_release(releases, channel) {
        Some(i) => &releases[i],
        None => {
            if str_eq(channel, "test") {
                return Err("No test release found".to_owned());
            } else {
                return Err("No stable release found".to_owned());
            }
        },
    };
    let asset = match find_asset(&release.assets) {
        Some(j) => &release.assets[j],
        None => {
            return Err("Windows installer not found in release assets".to_owned());
        },
    };
    Ok(
        SelectedUpdate {
            version: tag_version(release.tag_name.as_str()),
            pub_date: release.published_at.clone(),
            download_url: asset.download_url.clone(),
            body: match &release.body {
                Some(text) => Some(text.clone()),
                None => None,
            },
        },
    )
}

/// The signature that a signatures file gives for Windows: the string at
/// `platforms`, `windows-x86_64`, `signature`.
pub open spec fn signature_in(document: Option<JsonView>) -> Option<Seq<char>> {
    match document {
        Some(root) => match member_of(root, "platforms"@) {
            Some(platforms) => match member_of(platforms, "windows-x86_64"@) {
                Some(windows) => match member_of(windows, "signature"@) {
                    Some(signature) => text_of(signature),
                    None => None,
                },
                None => None,
            },
            None => None,
        },
        None => None,
    }
}

/// Reads the signature for Windows out of the signatures file;
/// `signature-not-found` where the file gives none. Returns nothing where
/// the file is no JSON.
pub fn signature_from(update_json: &str) -> (r: Option<String>)
    ensures
        r is Some == json_document(update_json@) is Some,
        r matches Some(text) ==> text@ == (match signature_in(json_document(update_json@)) {
            Some(signature) => signature,
            None => "signature-not-found"@,
        }),
{
    let document = parse_json(update_json);
    if document.is_none() {
        return None;
    }
    let found = match &document {
        Some(root) => match member(root, "platforms") {
            Some(platforms) => match member(platforms, "windows-x86_64") {
                Some(windows) => match member(windows, "signature") {
                    Some(signature) => as_text(signature),
                    None => None,
                },
                None => None,
            },
            None => None,
        },
        None => None,
    };
    match found {
        Some(signature) => Some(signature.to_owned()),
        None => Some("signature-not-found".to_owned()),
    }
}

/// Puts the offer of an update together.
pub fn custom_update_info(update: SelectedUpdate, signature: String, channel: String) -> (r:
    CustomUpdateInfo)
    ensures
        r.version@ == update.version@,
        r.pub_date@ == update.pub_date@,
        r.download_url@ == update.download_url@,
        r.signature@ == signature@,
        r.notes@ == "Update available for "@ + channel@ + " channel"@,
        opt_text(r.body) == opt_text(update.body),
        r.channel@ == channel@,
{
    let mut notes = "Update available for ".to_owned();
    notes.append(channel.as_str());
    notes.append(" channel");
    CustomUpdateInfo {
        version: update.version,
        pub_date: update.pub_date,
        download_url: update.download_url,
        signature,
        notes,
        body: update.body,
        channel,
    }
}

} // verus!
