//! Keeping the RLBotServer/rlbotgui pair in sync with their GitHub releases:
//! which binaries an update pass covers, when a binary is downloaded, and
//! whether a download is accepted.

use crate::config::{
    RLBOT_GUI_BIN_NAME, RLBOT_GUI_REPO_NAME, RLBOT_SERVER_BIN_NAME, RLBOT_SERVER_REPO_NAME,
};
use crate::github::{Asset, AssetView, Release, ReleaseView};
use crate::text::{str_eq, strip_prefix};
use vstd::prelude::*;

verus! {

/// The prefix of the asset digests that GitHub publishes for SHA-256.
pub const DIGEST_PREFIX: &'static str = "sha256:";

/// The permission bits that a downloaded binary gets: Linux needs the
/// executable bit on it.
pub const EXECUTABLE_MODE: u32 = 0o755;

/// The lowercase hexadecimal digits.
pub open spec fn is_lower_hex_digit(c: char) -> bool {
    ('0' <= c && c <= '9') || ('a' <= c && c <= 'f')
}

/// The SHA-256 digest of `data` written as lowercase hexadecimal, as the
/// `sha256` crate computes it.
pub uninterp spec fn sha256_hex(data: Seq<u8>) -> Seq<char>;

/// Calls `sha256::digest` on the bytes. Its source computes
/// `hex::encode(Sha256::digest(data))`: the 32-byte SHA-256 digest in lowercase
/// hexadecimal, so 64 characters, each a lowercase hex digit. The digest
/// itself is named, not stated.
#[verifier::external_body]
fn sha256_digest(data: &[u8]) -> (res: String)
    ensures
        res@ == sha256_hex(data@),
        res@.len() == 64,
        forall|i: int| 0 <= i < res@.len() ==> is_lower_hex_digit(#[trigger] res@[i]),
{
    sha256::digest(data)
}

/// One binary that an update pass fetches.
pub struct UpdateTarget {
    /// What the binary is called in the launcher's reports (`gui`, `server`).
    pub label: String,
    pub bin_name: String,
    pub repo: String,
    pub force: bool,
}

/// An update target as plain values.
pub struct UpdateTargetView {
    pub label: Seq<char>,
    pub bin_name: Seq<char>,
    pub repo: Seq<char>,
    pub force: bool,
}

impl View for UpdateTarget {
    type V = UpdateTargetView;

    open spec fn view(&self) -> UpdateTargetView {
        UpdateTargetView {
            label: self.label@,
            bin_name: self.bin_name@,
            repo: self.repo@,
            force: self.force,
        }
    }
}

/// The binaries of one update pass: the GUI and the server, each from its own
/// repository and with its own force flag.
pub open spec fn update_targets_view(force_gui: bool, force_server: bool) -> Seq<UpdateTargetView> {
    seq![
        UpdateTargetView {
            label: "gui"@,
            bin_name: RLBOT_GUI_BIN_NAME@,
            repo: RLBOT_GUI_REPO_NAME@,
            force: force_gui,
        },
        UpdateTargetView {
            label: "server"@,
            bin_name: RLBOT_SERVER_BIN_NAME@,
            repo: RLBOT_SERVER_REPO_NAME@,
            force: force_server,
        },
    ]
}

/// The binaries that an update pass checks.
pub fn update_targets(force_gui: bool, force_server: bool) -> (res: Vec<UpdateTarget>)
    ensures
        res@.map_values(|t: UpdateTarget| t@) == update_targets_view(force_gui, force_server),
        res@.len() == 2,
        res@[0]@ == update_targets_view(force_gui, force_server)[0],
        res@[1]@ == update_targets_view(force_gui, force_server)[1],
        res@[0].bin_name@ == RLBOT_GUI_BIN_NAME@,
        res@[0].repo@ == RLBOT_GUI_REPO_NAME@,
        res@[0].force == force_gui,
        res@[1].bin_name@ == RLBOT_SERVER_BIN_NAME@,
        res@[1].repo@ == RLBOT_SERVER_REPO_NAME@,
        res@[1].force == force_server,
{
    let mut res: Vec<UpdateTarget> = Vec::new();
    res.push(
        UpdateTarget {
            label: String::from_str("gui"),
            bin_name: String::from_str(RLBOT_GUI_BIN_NAME),
            repo: String::from_str(RLBOT_GUI_REPO_NAME),
            force: force_gui,
        },
    );
    res.push(
        UpdateTarget {
            label: String::from_str("server"),
            bin_name: String::from_str(RLBOT_SERVER_BIN_NAME),
            repo: String::from_str(RLBOT_SERVER_REPO_NAME),
            force: force_server,
        },
    );
    proof {
        assert(res@.map_values(|t: UpdateTarget| t@) =~= update_targets_view(
            force_gui,
            force_server,
        ));
    }
    res
}

/// Checking one binary always checks the other, so the pair stays in
/// sync. Every update pass covers both the GUI and the server.
pub proof fn lemma_update_pass_covers_pair(force_gui: bool, force_server: bool)
    ensures
        exists|i: int|
            0 <= i < update_targets_view(force_gui, force_server).len()
                && #[trigger] update_targets_view(force_gui, force_server)[i].bin_name
                == RLBOT_GUI_BIN_NAME@,
        exists|i: int|
            0 <= i < update_targets_view(force_gui, force_server).len()
                && #[trigger] update_targets_view(force_gui, force_server)[i].bin_name
                == RLBOT_SERVER_BIN_NAME@,
{
    assert(update_targets_view(force_gui, force_server)[0].bin_name == RLBOT_GUI_BIN_NAME@);
    assert(update_targets_view(force_gui, force_server)[1].bin_name == RLBOT_SERVER_BIN_NAME@);
}

/// Each binary of an update pass comes from its own repository and takes
/// its own force flag, whatever the other flag is: the GUI from `gui` with
/// `force_gui`, the server from `core` with `force_server`.
pub proof fn lemma_update_targets_own_flags(force_gui: bool, force_server: bool)
    ensures
        update_targets_view(force_gui, force_server).len() == 2,
        update_targets_view(force_gui, force_server)[0].bin_name == RLBOT_GUI_BIN_NAME@,
        update_targets_view(force_gui, force_server)[0].repo == RLBOT_GUI_REPO_NAME@,
        update_targets_view(force_gui, force_server)[0].force == force_gui,
        update_targets_view(force_gui, force_server)[1].bin_name == RLBOT_SERVER_BIN_NAME@,
        update_targets_view(force_gui, force_server)[1].repo == RLBOT_SERVER_REPO_NAME@,
        update_targets_view(force_gui, force_server)[1].force == force_server,
        update_targets_view(force_gui, force_server)[0] == update_targets_view(force_gui, !force_server)[0],
        update_targets_view(force_gui, force_server)[1] == update_targets_view(!force_gui, force_server)[1],
{
}

/// Why an update of one binary stopped.
#[derive(Debug, PartialEq, Eq)]
pub enum UpdateError {
    /// The latest release has no asset named after the binary.
    MissingAsset { bin_name: String },
    /// The asset's digest does not start with `sha256:`.
    BadDigest { digest: String },
    /// The downloaded bytes do not hash to the digest that the release lists.
    DigestMismatch { bin_name: String },
}

/// What to do about one binary.
#[derive(Debug, PartialEq, Eq)]
pub enum UpdatePlan {
    /// The local copy already hashes to the release's digest.
    UpToDate,
    /// Download the asset from `url`, and accept it only if it hashes to
    /// `expected_digest`.
    Download { url: String, release_name: String, expected_digest: String },
}

/// The hexadecimal part of a GitHub asset digest `sha256:<hex>`, where the
/// digest has that form.
pub open spec fn digest_hex(digest: Seq<char>) -> Option<Seq<char>> {
    if DIGEST_PREFIX@.is_prefix_of(digest) {
        Some(digest.skip(DIGEST_PREFIX@.len() as int))
    } else {
        None
    }
}

/// Parse a GitHub asset digest like `sha256:<hex>`.
pub fn parse_digest(digest: &str) -> (res: Result<&str, UpdateError>)
    ensures
        match res {
            Ok(hex) => digest_hex(digest@) == Some(hex@),
            Err(e) => digest_hex(digest@) is None && (e matches UpdateError::BadDigest {
                digest: d,
            } && d@ == digest@),
        },
{
    match strip_prefix(digest, DIGEST_PREFIX) {
        Some(hex) => Ok(hex),
        None => Err(UpdateError::BadDigest { digest: String::from_str(digest) }),
    }
}

/// The first asset named `name`, in the release's order.
pub open spec fn find_asset(assets: Seq<AssetView>, name: Seq<char>) -> Option<AssetView>
    decreases assets.len(),
{
    if assets.len() == 0 {
        None
    } else if assets[0].name == name {
        Some(assets[0])
    } else {
        find_asset(assets.drop_first(), name)
    }
}

proof fn lemma_find_asset_skip(assets: Seq<AssetView>, name: Seq<char>, i: int)
    requires
        0 <= i < assets.len(),
        assets[i].name != name,
    ensures
        find_asset(assets.skip(i), name) == find_asset(assets.skip(i + 1), name),
{
    assert(assets.skip(i).drop_first() =~= assets.skip(i + 1));
}

/// `find_asset` gives the first asset named `name`: one that stands at some
/// index with that name and no asset of that name before it; and it gives
/// none exactly when no asset has that name.
pub proof fn lemma_find_asset_first(assets: Seq<AssetView>, name: Seq<char>)
    ensures
        find_asset(assets, name) is Some ==> exists|i: int|
            0 <= i < assets.len() && #[trigger] assets[i] == find_asset(assets, name)->Some_0
                && assets[i].name == name && forall|j: int|
                0 <= j < i ==> (#[trigger] assets[j]).name != name,
        find_asset(assets, name) is None <==> forall|i: int|
            0 <= i < assets.len() ==> (#[trigger] assets[i]).name != name,
    decreases assets.len(),
{
    if assets.len() > 0 {
        let rest = assets.drop_first();
        lemma_find_asset_first(rest, name);
        if assets[0].name != name {
            assert(find_asset(assets, name) == find_asset(rest, name));
            if find_asset(rest, name) is Some {
                let k = choose|k: int|
                    0 <= k < rest.len() && #[trigger] rest[k] == find_asset(rest, name)->Some_0
                        && rest[k].name == name && forall|j: int|
                        0 <= j < k ==> (#[trigger] rest[j]).name != name;
                assert(assets[k + 1] == rest[k]);
                assert forall|j: int| 0 <= j < k + 1 implies (#[trigger] assets[j]).name != name by {
                    if j > 0 {
                        assert(assets[j] == rest[j - 1]);
                    }
                }
            } else {
                assert forall|i: int| 0 <= i < assets.len() implies (#[trigger] assets[i]).name
                    != name by {
                    if i > 0 {
                        assert(assets[i] == rest[i - 1]);
                    }
                }
            }
        } else {
            assert(assets[0] == find_asset(assets, name)->Some_0);
        }
    }
}

/// The index of the first asset of `assets` named `name`.
fn find_asset_index(assets: &Vec<Asset>, name: &str) -> (res: Option<usize>)
    ensures
        match res {
            Some(i) => i < assets@.len() && find_asset(assets@.map_values(|a: Asset| a@), name@)
                == Some(assets@[i as int]@) && is_first_named(
                assets@.map_values(|a: Asset| a@),
                name@,
                i as int,
            ),
            None => find_asset(assets@.map_values(|a: Asset| a@), name@) is None,
        },
{
    let ghost views = assets@.map_values(|a: Asset| a@);
    let wanted = String::from_str(name);
    let n = assets.len();
    let mut i: usize = 0;
    assert(views.skip(0) =~= views);
    while i < n
        invariant
            n == assets@.len(),
            views == assets@.map_values(|a: Asset| a@),
            wanted@ == name@,
            i <= n,
            find_asset(views, name@) == find_asset(views.skip(i as int), name@),
            forall|j: int| 0 <= j < i ==> (#[trigger] views[j]).name != name@,
        decreases n - i,
    {
        if assets[i].name == wanted {
            assert(views.skip(i as int)[0] == assets@[i as int]@);
            return Some(i);
        }
        proof {
            lemma_find_asset_skip(views, name@, i as int);
        }
        i = i + 1;
    }
    assert(views.skip(n as int) =~= Seq::<AssetView>::empty());
    None
}

/// What the launcher decides about one binary, as plain values.
pub enum PlannedUpdate {
    MissingAsset,
    BadDigest { digest: Seq<char> },
    UpToDate,
    Download { url: Seq<char>, release_name: Seq<char>, digest: Seq<char> },
}

/// What to do about the binary `bin_name` given the latest release `release`
/// and the digest `local_digest` of the local copy (`None` where there is
/// none): take its asset (the first one of that name) and the asset's SHA-256
/// digest; the binary is up to date when it is not forced and the local copy
/// hashes to that digest; otherwise it is downloaded.
pub open spec fn planned_update(
    local_digest: Option<Seq<char>>,
    release: ReleaseView,
    bin_name: Seq<char>,
    force: bool,
) -> PlannedUpdate {
    match find_asset(release.assets, bin_name) {
        None => PlannedUpdate::MissingAsset,
        Some(asset) => match digest_hex(asset.digest) {
            None => PlannedUpdate::BadDigest { digest: asset.digest },
            Some(hex) => if !force && local_digest == Some(hex) {
                PlannedUpdate::UpToDate
            } else {
                PlannedUpdate::Download {
                    url: asset.browser_download_url,
                    release_name: release.name,
                    digest: hex,
                }
            },
        },
    }
}

/// Whether `res` is the decision `planned` about the binary `bin_name`.
pub open spec fn is_plan(
    res: Result<UpdatePlan, UpdateError>,
    planned: PlannedUpdate,
    bin_name: Seq<char>,
) -> bool {
    match planned {
        PlannedUpdate::MissingAsset => (res matches Err(UpdateError::MissingAsset { bin_name: n })
            && n@ == bin_name),
        PlannedUpdate::BadDigest { digest } => (res matches Err(UpdateError::BadDigest { digest: d })
            && d@ == digest),
        PlannedUpdate::UpToDate => res matches Ok(UpdatePlan::UpToDate),
        PlannedUpdate::Download { url, release_name, digest } => (res matches Ok(
            UpdatePlan::Download { url: u, release_name: r, expected_digest: e },
        ) && u@ == url && r@ == release_name && e@ == digest),
    }
}

/// The characters of an optional string.
pub open spec fn opt_chars(s: Option<&str>) -> Option<Seq<char>> {
    match s {
        Some(t) => Some(t@),
        None => None,
    }
}

/// Whether `asset` is the first of `assets` named `name`, at index `i`.
pub open spec fn is_first_named(assets: Seq<AssetView>, name: Seq<char>, i: int) -> bool {
    &&& 0 <= i < assets.len()
    &&& assets[i].name == name
    &&& forall|j: int| 0 <= j < i ==> (#[trigger] assets[j]).name != name
}

/// The decision about a binary goes by the first asset of its name and by
/// that asset's digest `sha256:<hex>`: the binary is up to date exactly when
/// it is not forced and its local copy hashes to `<hex>`; otherwise it is
/// downloaded from that asset's URL, to be checked against `<hex>`. A release
/// without such an asset, or whose asset's digest is not SHA-256, refuses it.
pub proof fn lemma_plan_follows_first_asset(
    local_digest: Option<Seq<char>>,
    release: ReleaseView,
    bin_name: Seq<char>,
    force: bool,
    i: int,
    hex: Seq<char>,
)
    ensures
        (forall|k: int| 0 <= k < release.assets.len() ==> (#[trigger] release.assets[k]).name
            != bin_name) ==> planned_update(local_digest, release, bin_name, force)
            is MissingAsset,
        is_first_named(release.assets, bin_name, i) && !DIGEST_PREFIX@.is_prefix_of(
            release.assets[i].digest,
        ) ==> planned_update(local_digest, release, bin_name, force) == (PlannedUpdate::BadDigest {
            digest: release.assets[i].digest,
        }),
        is_first_named(release.assets, bin_name, i) && release.assets[i].digest == DIGEST_PREFIX@
            + hex ==> {
            &&& (planned_update(local_digest, release, bin_name, force) is UpToDate <==> (!force
                && local_digest == Some(hex)))
            &&& !(!force && local_digest == Some(hex)) ==> planned_update(
                local_digest,
                release,
                bin_name,
                force,
            ) == (PlannedUpdate::Download {
                url: release.assets[i].browser_download_url,
                release_name: release.name,
                digest: hex,
            })
        },
{
    lemma_find_asset_first(release.assets, bin_name);
    if is_first_named(release.assets, bin_name, i) {
        let found = find_asset(release.assets, bin_name);
        assert(found is Some);
        let k = choose|k: int|
            0 <= k < release.assets.len() && #[trigger] release.assets[k] == found->Some_0
                && release.assets[k].name == bin_name && forall|j: int|
                0 <= j < k ==> (#[trigger] release.assets[j]).name != bin_name;
        if k < i {
            assert(release.assets[k].name != bin_name);
        }
        if i < k {
            assert(release.assets[i].name != bin_name);
        }
        assert(found->Some_0 == release.assets[i]);
        if release.assets[i].digest == DIGEST_PREFIX@ + hex {
            assert(DIGEST_PREFIX@.is_prefix_of(release.assets[i].digest)) by {
                assert((DIGEST_PREFIX@ + hex).subrange(0, DIGEST_PREFIX@.len() as int)
                    =~= DIGEST_PREFIX@);
            }
            assert(release.assets[i].digest.skip(DIGEST_PREFIX@.len() as int) =~= hex);
        }
    }
}

/// A local copy whose bytes are the release asset's (its SHA-256 digest is
/// the one the release lists) is up to date unless forced.
pub proof fn lemma_identical_copy_up_to_date(release: ReleaseView, bin_name: Seq<char>, i: int, bytes: Seq<u8>)
    requires
        is_first_named(release.assets, bin_name, i),
        release.assets[i].digest == DIGEST_PREFIX@ + sha256_hex(bytes),
    ensures
        planned_update(Some(sha256_hex(bytes)), release, bin_name, false) is UpToDate,
{
    lemma_plan_follows_first_asset(Some(sha256_hex(bytes)), release, bin_name, false, i, sha256_hex(bytes));
}

/// Decide what to do about the binary `bin_name` given the latest release.
pub fn plan_update(local_digest: Option<&str>, release: &Release, bin_name: &str, force: bool) -> (res:
    Result<UpdatePlan, UpdateError>)
    ensures
        is_plan(res, planned_update(opt_chars(local_digest), release@, bin_name@, force), bin_name@),
        res matches Ok(UpdatePlan::UpToDate) ==> !force && local_digest is Some && exists|i: int|
            is_first_named(release@.assets, bin_name@, i) && #[trigger] release@.assets[i].digest
                == DIGEST_PREFIX@ + local_digest->Some_0@,
        res matches Ok(UpdatePlan::Download { url, release_name, expected_digest }) ==> (force
            || opt_chars(local_digest) != Some(expected_digest@)) && release_name@ == release@.name
            && exists|i: int|
            is_first_named(release@.assets, bin_name@, i) && #[trigger] release@.assets[i].digest
                == DIGEST_PREFIX@ + expected_digest@ && release@.assets[i].browser_download_url
                == url@,
{
    let index = match find_asset_index(&release.assets, bin_name) {
        Some(i) => i,
        None => {
            return Err(UpdateError::MissingAsset { bin_name: String::from_str(bin_name) });
        },
    };
    let asset = &release.assets[index];
    let hex = parse_digest(asset.digest.as_str())?;
    proof {
        let views = release.assets@.map_values(|a: Asset| a@);
        assert(views[index as int] == asset@);
        assert(asset.digest@ =~= DIGEST_PREFIX@ + hex@) by {
            assert(asset.digest@.subrange(0, DIGEST_PREFIX@.len() as int) =~= DIGEST_PREFIX@);
        }
        assert(release@.assets[index as int].digest == DIGEST_PREFIX@ + hex@);
    }
    let up_to_date = match local_digest {
        Some(local) => str_eq(local, hex),
        None => false,
    };
    if !force && up_to_date {
        Ok(UpdatePlan::UpToDate)
    } else {
        Ok(
            UpdatePlan::Download {
                url: asset.browser_download_url.clone(),
                release_name: release.name.clone(),
                expected_digest: String::from_str(hex),
            },
        )
    }
}

/// The digest of the local copy of a binary, where there is one.
pub fn local_digest(contents: Option<&[u8]>) -> (res: Option<String>)
    ensures
        match contents {
            Some(bytes) => (res matches Some(d) && d@ == sha256_hex(bytes@)),
            None => res is None,
        },
{
    match contents {
        Some(bytes) => Some(sha256_digest(bytes)),
        None => None,
    }
}

/// Accept a download of `bin_name` whose bytes hash to `actual_digest` only if
/// that is the digest `expected_digest` that the release lists.
pub fn verify_digest(actual_digest: &str, expected_digest: &str, bin_name: &str) -> (res: Result<
    (),
    UpdateError,
>)
    ensures
        res is Ok <==> actual_digest@ == expected_digest@,
        res is Err ==> (res matches Err(UpdateError::DigestMismatch { bin_name: n }) && n@
            == bin_name@),
{
    if str_eq(actual_digest, expected_digest) {
        Ok(())
    } else {
        Err(UpdateError::DigestMismatch { bin_name: String::from_str(bin_name) })
    }
}

/// A downloaded binary is accepted exactly when its SHA-256 digest is the
/// one that the release lists for it.
pub fn check_download(bytes: &[u8], expected_digest: &str, bin_name: &str) -> (res: Result<
    (),
    UpdateError,
>)
    ensures
        res is Ok <==> sha256_hex(bytes@) == expected_digest@,
        res is Err ==> (res matches Err(UpdateError::DigestMismatch { bin_name: n }) && n@
            == bin_name@),
{
    let actual = sha256_digest(bytes);
    verify_digest(actual.as_str(), expected_digest, bin_name)
}

} // verus!
