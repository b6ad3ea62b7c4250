//! Paths, names and ports of the RLBot v5 installation.
//!
//! ```text
//! $XDG_DATA_HOME/RLBot5/
//!   bin/    RLBotServer (run on the host), rlbotgui (run in the sandbox)
//!   logs/   rlbot.log, rlbotserver.log
//! ```

use directories::BaseDirs;
use vstd::prelude::*;
use vstd::slice::slice_to_vec;
use vstd::string::StringSliceAdditionalSpecFns;

verus! {

pub const RLBOT_BIN_DIR: &'static str = "RLBot5/bin";

pub const RLBOT_LOG_DIR: &'static str = "RLBot5/logs";

pub const RLBOT_GUI_BIN_NAME: &'static str = "rlbotgui";

pub const RLBOT_SERVER_BIN_NAME: &'static str = "RLBotServer";

pub const RLBOT_SERVER_PORT: u16 = 23234;

/// Name of this launcher's own process, used to track it from the host.
pub const RLBOT_LAUNCHER_NAME: &'static str = "rlbot-launcher";

/// Repo names under the `RLBot` GitHub org, used to build the release URLs.
pub const RLBOT_GUI_REPO_NAME: &'static str = "gui";

pub const RLBOT_SERVER_REPO_NAME: &'static str = "core";

/// The launcher's own log file, inside the log directory.
pub const LAUNCHER_LOG_FILE: &'static str = "rlbot.log";

/// The log file that RLBotServer's output goes to, inside the log directory.
pub const SERVER_LOG_FILE: &'static str = "rlbotserver.log";

/// The user's base directories could not be determined.
#[derive(Debug, Clone, Copy, PartialEq, Eq, Structural)]
pub enum ConfigError {
    NoBaseDirs,
}

/// The byte that separates the components of a path.
pub const PATH_SEPARATOR: u8 = 47u8;

/// What joining the relative or absolute path `rel` onto `base` gives on Unix,
/// both taken as the bytes of the paths: an absolute `rel` replaces `base`;
/// otherwise a `/` is put between the two unless `base` is empty or already
/// ends in one.
pub open spec fn joined(base: Seq<u8>, rel: Seq<u8>) -> Seq<u8> {
    if rel.len() > 0 && rel[0] == PATH_SEPARATOR {
        rel
    } else if base.len() == 0 || base.last() == PATH_SEPARATOR {
        base + rel
    } else {
        base + seq![PATH_SEPARATOR] + rel
    }
}

/// Joins `rel` onto the path `base`, as `Path::join` does on Unix; paths are
/// their bytes, whatever encoding they have.
pub fn join_path(base: &[u8], rel: &[u8]) -> (res: Vec<u8>)
    ensures
        res@ == joined(base@, rel@),
{
    if rel.len() > 0 && rel[0] == PATH_SEPARATOR {
        return slice_to_vec(rel);
    }
    let mut res = slice_to_vec(base);
    if base.len() > 0 && base[base.len() - 1] != PATH_SEPARATOR {
        res.push(PATH_SEPARATOR);
    }
    let mut tail = slice_to_vec(rel);
    res.append(&mut tail);
    res
}

/// The directory holding the downloaded server and GUI binaries, under the
/// data directory `data_dir`.
pub fn bin_dir_under(data_dir: &[u8]) -> (res: Vec<u8>)
    ensures
        res@ == joined(data_dir@, RLBOT_BIN_DIR.spec_bytes()),
{
    join_path(data_dir, RLBOT_BIN_DIR.as_bytes())
}

/// The directory holding the launcher and RLBotServer log files, under the
/// data directory `data_dir`.
pub fn log_dir_under(data_dir: &[u8]) -> (res: Vec<u8>)
    ensures
        res@ == joined(data_dir@, RLBOT_LOG_DIR.spec_bytes()),
{
    join_path(data_dir, RLBOT_LOG_DIR.as_bytes())
}

/// The user's local data directory as `directories::BaseDirs::new()` finds it
/// (`$XDG_DATA_HOME` when absolute, else `$HOME/.local/share`), as the bytes of
/// the path (`OsStr::as_encoded_bytes`, which on Unix are the path's own bytes);
/// `None` where `BaseDirs::new()` finds no home directory. The answer depends
/// on the process environment, so no clause states what it is.
#[verifier::external_body]
fn user_data_local_dir() -> (res: Option<Vec<u8>>) {
    match BaseDirs::new() {
        Some(dirs) => Some(dirs.data_local_dir().as_os_str().as_encoded_bytes().to_vec()),
        None => None,
    }
}

/// The user's local data directory, or `NoBaseDirs` where it cannot be found.
pub fn data_local_dir() -> (res: Result<Vec<u8>, ConfigError>)
    ensures
        res is Err ==> res->Err_0 == ConfigError::NoBaseDirs,
{
    match user_data_local_dir() {
        Some(dir) => Ok(dir),
        None => Err(ConfigError::NoBaseDirs),
    }
}

/// The directory holding the downloaded server and GUI binaries: `RLBot5/bin`
/// under the user's data directory, whichever that turns out to be.
pub fn bin_dir() -> (res: Result<Vec<u8>, ConfigError>)
    ensures
        match res {
            Ok(dir) => exists|data_dir: Seq<u8>| dir@ == joined(data_dir, RLBOT_BIN_DIR.spec_bytes()),
            Err(e) => e == ConfigError::NoBaseDirs,
        },
{
    let data_dir = data_local_dir()?;
    Ok(bin_dir_under(data_dir.as_slice()))
}

/// The directory holding the launcher and RLBotServer log files: `RLBot5/logs`
/// under the user's data directory, whichever that turns out to be.
pub fn log_dir() -> (res: Result<Vec<u8>, ConfigError>)
    ensures
        match res {
            Ok(dir) => exists|data_dir: Seq<u8>| dir@ == joined(data_dir, RLBOT_LOG_DIR.spec_bytes()),
            Err(e) => e == ConfigError::NoBaseDirs,
        },
{
    let data_dir = data_local_dir()?;
    Ok(log_dir_under(data_dir.as_slice()))
}

} // verus!
