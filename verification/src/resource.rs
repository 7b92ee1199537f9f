//! Acquiring external artifacts: selecting the right asset of a release
//! listing, deriving the file name to store it under, and assembling the
//! download address of a graphics-layer release. The network transfer
//! itself stays in the unverified shell.

use vstd::prelude::*;
use vstd::string::*;
use crate::error::SetupError;
use crate::strutil::after_last;
use crate::strutil::after_last_spec;
use crate::strutil::concat2;
use crate::strutil::replace_all;
use crate::strutil::replace_all_spec;
use crate::strutil::starts_with;

verus! {

/// One downloadable asset of a published release: its file name and its
/// download address.
#[derive(Debug)]
pub struct Asset {
    pub name: String,
    pub browser_download_url: String,
}

/// The index of the first asset whose name starts with `prefix`, if any.
pub open spec fn first_asset_match(assets: Seq<Asset>, prefix: Seq<char>) -> Option<int>
    decreases assets.len(),
{
    if assets.len() == 0 {
        None
    } else if prefix.is_prefix_of(assets[0].name@) {
        Some(0)
    } else {
        match first_asset_match(assets.skip(1), prefix) {
            Some(i) => Some(i + 1),
            None => None,
        }
    }
}

/// A prefix match at `i`, preceded by non-matches only, is the first
/// match.
pub proof fn lemma_first_asset_match_at(assets: Seq<Asset>, prefix: Seq<char>, i: int)
    requires
        0 <= i < assets.len(),
        prefix.is_prefix_of(assets[i].name@),
        forall|j: int| 0 <= j < i ==> !prefix.is_prefix_of(assets[j].name@),
    ensures
        first_asset_match(assets, prefix) == Some(i),
    decreases assets.len(),
{
    if i == 0 {
    } else {
        assert(!prefix.is_prefix_of(assets[0].name@));
        assert(assets.skip(1)[i - 1] == assets[i]);
        assert(forall|j: int| 0 <= j < i - 1 ==> assets.skip(1)[j] == assets[j + 1]);
        lemma_first_asset_match_at(assets.skip(1), prefix, i - 1);
    }
}

/// With no asset name starting with `prefix` there is no match.
pub proof fn lemma_first_asset_match_none(assets: Seq<Asset>, prefix: Seq<char>)
    requires
        forall|j: int| 0 <= j < assets.len() ==> !prefix.is_prefix_of(assets[j].name@),
    ensures
        first_asset_match(assets, prefix) is None,
    decreases assets.len(),
{
    if assets.len() == 0 {
    } else {
        assert(forall|j: int|
            0 <= j < assets.skip(1).len() ==> assets.skip(1)[j] == assets[j + 1]);
        lemma_first_asset_match_none(assets.skip(1), prefix);
    }
}

/// The download address of the first listed asset whose name starts with
/// `starting_name`; with no such asset the lookup fails as not found.
pub fn get_latest_download_url(assets: &Vec<Asset>, starting_name: &str) -> (r: Result<
    String,
    SetupError,
>)
    ensures
        match first_asset_match(assets@, starting_name@) {
            Some(i) => r matches Ok(u) && u@ == assets@[i].browser_download_url@,
            None => r matches Err(e) && e is NotFound,
        },
{
    let mut i: usize = 0;
    while i < assets.len()
        invariant
            i <= assets@.len(),
            forall|j: int| 0 <= j < i ==> !starting_name@.is_prefix_of(assets@[j].name@),
        decreases assets@.len() - i,
    {
        if starts_with(assets[i].name.as_str(), starting_name) {
            proof {
                lemma_first_asset_match_at(assets@, starting_name@, i as int);
            }
            return Ok(assets[i].browser_download_url.clone());
        }
        i += 1;
    }
    proof {
        lemma_first_asset_match_none(assets@, starting_name@);
    }
    Err(SetupError::NotFound(String::from_str("Latest release file not found")))
}

/// The release-listing endpoint for the game launcher.
pub fn launcher_release_endpoint() -> (r: String)
    ensures
        r@ == "https://api.github.com/repos/SoapboxRaceWorld/GameLauncher_NFSW/releases/latest"@,
{
    String::from_str(
        "https://api.github.com/repos/SoapboxRaceWorld/GameLauncher_NFSW/releases/latest",
    )
}

/// The asset-name prefix that marks the launcher build for this host.
pub fn launcher_asset_prefix() -> (r: String)
    ensures
        r@ == "Unix.Release"@,
{
    String::from_str("Unix.Release")
}

/// What acquiring the game launcher needs from a release listing: the
/// address of the first matching asset and the file name to store it
/// under, read from the address's last path segment. An address ending in
/// a separator yields no usable name and is refused.
pub fn download_game_launcher(assets: &Vec<Asset>) -> (r: Result<(String, String), SetupError>)
    ensures
        match first_asset_match(assets@, "Unix.Release"@) {
            Some(i) => {
                let url = assets@[i].browser_download_url@;
                if after_last_spec(url, '/').len() > 0 {
                    r matches Ok(p) && p.0@ == url && p.1@ == after_last_spec(url, '/')
                } else {
                    r matches Err(e) && e is PathError
                }
            },
            None => r matches Err(e) && e is NotFound,
        },
{
    let prefix = launcher_asset_prefix();
    let url = match get_latest_download_url(assets, prefix.as_str()) {
        Ok(u) => u,
        Err(e) => {
            return Err(e);
        },
    };
    let file_name = after_last(url.as_str(), '/');
    if file_name.as_str().unicode_len() == 0 {
        return Err(SetupError::PathError(String::from_str("Invalid file name in URL")));
    }
    Ok((url, file_name))
}

/// A graphics-layer re-acquisition: what to fetch and where the archive
/// lands before extraction.
#[derive(Debug)]
pub struct DxvkRepairDownload {
    pub url: String,
    pub file_name: String,
    pub archive_path: String,
}

/// The re-acquisition decision of the graphics-layer repair: nothing to
/// fetch while the layer directory still exists; otherwise the release
/// address for the recorded version, with the archive stored inside the
/// re-created layer directory and extracted there.
pub fn repair_dxvk(dxvk_version: &str, dxvk_path: &str, dxvk_dir_exists: bool) -> (r: Option<
    DxvkRepairDownload,
>)
    ensures
        dxvk_dir_exists ==> r is None,
        !dxvk_dir_exists ==> (r matches Some(d) && {
            &&& d.url@ == "https://github.com/doitsujin/dxvk/releases/download/"@
                + replace_all_spec(dxvk_version@, "dxvk-"@, "v"@) + "/"@ + dxvk_version@
                + ".tar.gz"@
            &&& d.file_name@ == dxvk_version@ + ".tar.gz"@
            &&& d.archive_path@ == dxvk_path@ + "/"@ + dxvk_version@ + ".tar.gz"@
        }),
{
    if dxvk_dir_exists {
        return None;
    }
    let (url, file_name) = dxvk_release_url(dxvk_version);
    let archive_path = crate::strutil::join_path(dxvk_path, file_name.as_str());
    Some(DxvkRepairDownload { url, file_name, archive_path })
}

/// The download address and archive file name of a graphics-layer
/// release, derived from its directory name: the leading layer marker of
/// the version becomes the release tag's `v`.
pub fn dxvk_release_url(dxvk_version: &str) -> (r: (String, String))
    ensures
        r.0@ == "https://github.com/doitsujin/dxvk/releases/download/"@ + replace_all_spec(
            dxvk_version@,
            "dxvk-"@,
            "v"@,
        ) + "/"@ + dxvk_version@ + ".tar.gz"@,
        r.1@ == dxvk_version@ + ".tar.gz"@,
{
    proof {
        reveal_strlit("dxvk-");
    }
    let modified = replace_all(dxvk_version, "dxvk-", "v");
    let mut url = String::from_str("https://github.com/doitsujin/dxvk/releases/download/");
    url.append(modified.as_str());
    url.append("/");
    url.append(dxvk_version);
    url.append(".tar.gz");
    let file_name = concat2(dxvk_version, ".tar.gz");
    (url, file_name)
}

} // verus!
