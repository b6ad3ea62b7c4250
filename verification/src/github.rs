//! What the launcher knows of GitHub's releases.

use vstd::prelude::*;

verus! {

/// The user agent that every request to GitHub carries.
pub const USER_AGENT: &'static str = "rlbot-launcher";

/// The API endpoint whose reachability tells that the launcher is online.
pub const GITHUB_API_ROOT: &'static str = "https://api.github.com";

/// One downloadable file of a release.
#[derive(Debug)]
pub struct Asset {
    pub name: String,
    /// GitHub asset digest, e.g. `sha256:<hex>`.
    pub digest: String,
    pub browser_download_url: String,
}

/// A release of one of the RLBot repositories.
#[derive(Debug)]
pub struct Release {
    pub name: String,
    pub assets: Vec<Asset>,
}

/// An asset as plain values.
pub struct AssetView {
    pub name: Seq<char>,
    pub digest: Seq<char>,
    pub browser_download_url: Seq<char>,
}

/// A release as plain values.
pub struct ReleaseView {
    pub name: Seq<char>,
    pub assets: Seq<AssetView>,
}

impl View for Asset {
    type V = AssetView;

    open spec fn view(&self) -> AssetView {
        AssetView {
            name: self.name@,
            digest: self.digest@,
            browser_download_url: self.browser_download_url@,
        }
    }
}

impl View for Release {
    type V = ReleaseView;

    open spec fn view(&self) -> ReleaseView {
        ReleaseView { name: self.name@, assets: self.assets@.map_values(|a: Asset| a@) }
    }
}

/// The API URL of the latest release of `RLBot/{repo}`. That endpoint leaves
/// out drafts and prereleases.
pub open spec fn latest_release_url_text(repo: Seq<char>) -> Seq<char> {
    "https://api.github.com/repos/RLBot/"@ + repo + "/releases/latest"@
}

/// The API URL of the latest release of `RLBot/{repo}`.
pub fn latest_release_url(repo: &str) -> (res: String)
    ensures
        res@ == latest_release_url_text(repo@),
{
    let mut url = String::from_str("https://api.github.com/repos/RLBot/");
    url.append(repo);
    url.append("/releases/latest");
    url
}

} // verus!
