//! The update of one binary, step by step. Reading the local copy, fetching
//! the release, downloading and installing are outside work; which of them
//! comes next, and whether downloaded bytes may be installed, is decided here.

use crate::github::Release;
use crate::updates::{
    check_download, local_digest, plan_update, planned_update, sha256_hex, PlannedUpdate,
    UpdateError, UpdatePlan, UpdateTarget,
};
use vstd::prelude::*;

verus! {

/// Where the update of one binary stands: which report it waits for, or how
/// it ended.
#[derive(Debug, Clone, Copy, PartialEq, Eq, Structural)]
pub enum UpdateStage {
    AwaitLocalCopy,
    AwaitRelease,
    AwaitDownload,
    AwaitInstall,
    UpToDate,
    Installed,
    Failed,
}

/// The update of one binary in progress.
pub struct BinaryUpdate {
    pub stage: UpdateStage,
    pub bin_name: String,
    pub repo: String,
    pub force: bool,
    /// The digest of the local copy, once it has been read (`None` where
    /// there is no local copy).
    pub local_digest: Option<String>,
    /// The digest that the release lists for the binary, once it is known.
    pub expected_digest: String,
}

/// What a piece of outside work reported.
pub enum UpdateEvent {
    /// The local copy was read (`None` where it could not be read).
    LocalCopyRead { contents: Option<Vec<u8>> },
    /// The latest release was fetched and parsed.
    ReleaseFetched { release: Release },
    /// The asset was downloaded.
    Downloaded { bytes: Vec<u8> },
    /// The downloaded binary was written and made executable.
    Installed,
    /// The last piece of outside work failed; its error is the outcome.
    WorkFailed,
}

/// The next piece of outside work, or how the update ends.
pub enum UpdateAction {
    ReadLocalCopy,
    FetchRelease,
    Download { url: String, release_name: String },
    /// Write these bytes as the binary and make it executable.
    Install { bytes: Vec<u8> },
    /// The update ended well (up to date, or installed).
    Finish,
    /// The update ended on an error: the library's own where there is one,
    /// else the error of the outside work that failed.
    Fail { error: Option<UpdateError> },
    /// The report was not one the update waits for; nothing changed.
    Ignore,
}

/// The digest of the local copy that was read, where there is one.
pub open spec fn contents_digest(contents: Option<Vec<u8>>) -> Option<Seq<char>> {
    match contents {
        Some(bytes) => Some(sha256_hex(bytes@)),
        None => None,
    }
}

/// The characters of an optional owned string.
pub open spec fn opt_string_chars(s: Option<String>) -> Option<Seq<char>> {
    match s {
        Some(t) => Some(t@),
        None => None,
    }
}

/// The digest of a local copy is taken over all of its bytes, and a missing
/// local copy has none; so two local copies have the same digest whenever
/// they hold the same bytes.
pub proof fn lemma_contents_digest_whole(contents: Option<Vec<u8>>, other: Option<Vec<u8>>)
    ensures
        match contents {
            Some(bytes) => contents_digest(contents) == Some(sha256_hex(bytes@)),
            None => contents_digest(contents) is None,
        },
        (contents matches Some(a) && other matches Some(b) && a@ == b@) ==> contents_digest(
            contents,
        ) == contents_digest(other),
{
}

impl BinaryUpdate {
    /// Begin the update of the binary `target`: its local copy is read first.
    pub fn start(target: &UpdateTarget) -> (res: (BinaryUpdate, UpdateAction))
        ensures
            res.0.stage == UpdateStage::AwaitLocalCopy,
            res.0.bin_name@ == target.bin_name@,
            res.0.repo@ == target.repo@,
            res.0.force == target.force,
            res.0.local_digest is None,
            res.1 is ReadLocalCopy,
    {
        let update = BinaryUpdate {
            stage: UpdateStage::AwaitLocalCopy,
            bin_name: target.bin_name.clone(),
            repo: target.repo.clone(),
            force: target.force,
            local_digest: None,
            expected_digest: String::new(),
        };
        (update, UpdateAction::ReadLocalCopy)
    }

    /// Take the report `event` of the last piece of work, and name the next
    /// one. Downloaded bytes are handed back for installing only when they
    /// hash to the digest that the release lists for the binary.
    pub fn step(&mut self, event: UpdateEvent) -> (res: UpdateAction)
        ensures
            final(self).bin_name == old(self).bin_name,
            final(self).repo == old(self).repo,
            final(self).force == old(self).force,
            !(old(self).stage == UpdateStage::AwaitLocalCopy && event is LocalCopyRead)
                ==> final(self).local_digest == old(self).local_digest,
            !(old(self).stage == UpdateStage::AwaitRelease && event is ReleaseFetched)
                ==> final(self).expected_digest == old(self).expected_digest,
            match (old(self).stage, event) {
                (UpdateStage::AwaitLocalCopy, UpdateEvent::LocalCopyRead { contents }) => {
                    &&& final(self).stage == UpdateStage::AwaitRelease
                    &&& opt_string_chars(final(self).local_digest) == contents_digest(contents)
                    &&& match contents {
                        Some(bytes) => (final(self).local_digest matches Some(d) && d@
                            == sha256_hex(bytes@)),
                        None => final(self).local_digest is None,
                    }
                    &&& res is FetchRelease
                },
                (UpdateStage::AwaitRelease, UpdateEvent::ReleaseFetched { release }) => match planned_update(
                    opt_string_chars(old(self).local_digest),
                    release@,
                    old(self).bin_name@,
                    old(self).force,
                ) {
                    PlannedUpdate::MissingAsset => {
                        &&& final(self).stage == UpdateStage::Failed
                        &&& res matches UpdateAction::Fail {
                            error: Some(UpdateError::MissingAsset { bin_name: n }),
                        }
                        &&& n@ == old(self).bin_name@
                    },
                    PlannedUpdate::BadDigest { digest } => {
                        &&& final(self).stage == UpdateStage::Failed
                        &&& res matches UpdateAction::Fail {
                            error: Some(UpdateError::BadDigest { digest: d }),
                        }
                        &&& d@ == digest
                    },
                    PlannedUpdate::UpToDate => {
                        &&& final(self).stage == UpdateStage::UpToDate
                        &&& res is Finish
                    },
                    PlannedUpdate::Download { url, release_name, digest } => {
                        &&& final(self).stage == UpdateStage::AwaitDownload
                        &&& final(self).expected_digest@ == digest
                        &&& res matches UpdateAction::Download { url: u, release_name: r }
                        &&& u@ == url
                        &&& r@ == release_name
                    },
                },
                (UpdateStage::AwaitDownload, UpdateEvent::Downloaded { bytes }) => if sha256_hex(
                    bytes@,
                ) == old(self).expected_digest@ {
                    &&& final(self).stage == UpdateStage::AwaitInstall
                    &&& res matches UpdateAction::Install { bytes: b }
                    &&& b@ == bytes@
                } else {
                    &&& final(self).stage == UpdateStage::Failed
                    &&& res matches UpdateAction::Fail {
                        error: Some(UpdateError::DigestMismatch { bin_name: n }),
                    }
                    &&& n@ == old(self).bin_name@
                },
                (UpdateStage::AwaitInstall, UpdateEvent::Installed) => {
                    &&& final(self).stage == UpdateStage::Installed
                    &&& res is Finish
                },
                (UpdateStage::AwaitRelease, UpdateEvent::WorkFailed) => {
                    &&& final(self).stage == UpdateStage::Failed
                    &&& res matches UpdateAction::Fail { error: None }
                },
                (UpdateStage::AwaitDownload, UpdateEvent::WorkFailed) => {
                    &&& final(self).stage == UpdateStage::Failed
                    &&& res matches UpdateAction::Fail { error: None }
                },
                (UpdateStage::AwaitInstall, UpdateEvent::WorkFailed) => {
                    &&& final(self).stage == UpdateStage::Failed
                    &&& res matches UpdateAction::Fail { error: None }
                },
                _ => {
                    &&& final(self).stage == old(self).stage
                    &&& res is Ignore
                },
            },
            res matches UpdateAction::Install { bytes: b } ==> old(self).stage
                == UpdateStage::AwaitDownload && sha256_hex(b@) == old(self).expected_digest@,
    {
        match (self.stage, event) {
            (UpdateStage::AwaitLocalCopy, UpdateEvent::LocalCopyRead { contents }) => {
                let digest = match contents {
                    Some(bytes) => local_digest(Some(bytes.as_slice())),
                    None => local_digest(None),
                };
                self.local_digest = digest;
                self.stage = UpdateStage::AwaitRelease;
                UpdateAction::FetchRelease
            },
            (UpdateStage::AwaitRelease, UpdateEvent::ReleaseFetched { release }) => {
                let plan = {
                    let local = match &self.local_digest {
                        Some(d) => Some(d.as_str()),
                        None => None,
                    };
                    plan_update(local, &release, self.bin_name.as_str(), self.force)
                };
                match plan {
                    Err(e) => {
                        self.stage = UpdateStage::Failed;
                        UpdateAction::Fail { error: Some(e) }
                    },
                    Ok(UpdatePlan::UpToDate) => {
                        self.stage = UpdateStage::UpToDate;
                        UpdateAction::Finish
                    },
                    Ok(UpdatePlan::Download { url, release_name, expected_digest }) => {
                        self.expected_digest = expected_digest;
                        self.stage = UpdateStage::AwaitDownload;
                        UpdateAction::Download { url, release_name }
                    },
                }
            },
            (UpdateStage::AwaitDownload, UpdateEvent::Downloaded { bytes }) => {
                let checked = check_download(
                    bytes.as_slice(),
                    self.expected_digest.as_str(),
                    self.bin_name.as_str(),
                );
                match checked {
                    Ok(()) => {
                        self.stage = UpdateStage::AwaitInstall;
                        UpdateAction::Install { bytes }
                    },
                    Err(e) => {
                        self.stage = UpdateStage::Failed;
                        UpdateAction::Fail { error: Some(e) }
                    },
                }
            },
            (UpdateStage::AwaitInstall, UpdateEvent::Installed) => {
                self.stage = UpdateStage::Installed;
                UpdateAction::Finish
            },
            (UpdateStage::AwaitRelease, UpdateEvent::WorkFailed)
            | (UpdateStage::AwaitDownload, UpdateEvent::WorkFailed)
            | (UpdateStage::AwaitInstall, UpdateEvent::WorkFailed) => {
                self.stage = UpdateStage::Failed;
                UpdateAction::Fail { error: None }
            },
            _ => UpdateAction::Ignore,
        }
    }
}

} // verus!
