use rlbot_launcher::config::{
    bin_dir, bin_dir_under, join_path, log_dir, log_dir_under, ConfigError, RLBOT_BIN_DIR,
    RLBOT_LOG_DIR, RLBOT_SERVER_PORT,
};
use rlbot_launcher::text::{decimal_string, str_eq, strip_prefix};
use std::path::Path;

fn std_join(base: &str, rel: &str) -> Vec<u8> {
    Path::new(base).join(rel).as_os_str().as_encoded_bytes().to_vec()
}

#[test]
fn join_path_adds_separator() {
    assert_eq!(join_path(b"/home/alice/.local/share", b"RLBot5/bin"), b"/home/alice/.local/share/RLBot5/bin");
}

#[test]
fn join_path_keeps_existing_separator() {
    assert_eq!(join_path(b"/data/", b"RLBot5/logs"), b"/data/RLBot5/logs");
}

#[test]
fn join_path_onto_empty_base() {
    assert_eq!(join_path(b"", b"rlbotgui"), b"rlbotgui");
}

#[test]
fn join_path_absolute_replaces() {
    assert_eq!(join_path(b"/data", b"/usr/bin/flatpak-spawn"), b"/usr/bin/flatpak-spawn");
}

#[test]
fn join_path_empty_rel() {
    assert_eq!(join_path(b"/data", b""), b"/data/");
}

#[test]
fn join_path_keeps_non_utf8_bytes() {
    assert_eq!(join_path(&[b'/', 0xff, 0xfe], b"RLBot5/bin"), [b'/', 0xff, 0xfe, b'/', b'R', b'L', b'B', b'o', b't', b'5', b'/', b'b', b'i', b'n']);
    assert_eq!(bin_dir_under(&[0xc3, 0x28]), [0xc3, 0x28, b'/', b'R', b'L', b'B', b'o', b't', b'5', b'/', b'b', b'i', b'n']);
}

#[test]
fn join_path_agrees_with_std() {
    let cases = [
        ("/home/a", "RLBot5/bin"),
        ("/home/a/", "RLBot5/bin"),
        ("", "x"),
        ("rel/dir", "rlbot.log"),
        ("/x", "/y"),
        ("/x", ""),
        ("/", "a"),
        ("/ünï cödé", "dätä"),
    ];
    for (base, rel) in cases {
        assert_eq!(join_path(base.as_bytes(), rel.as_bytes()), std_join(base, rel), "{base:?} {rel:?}");
    }
}

#[test]
fn bin_and_log_dirs_under_data_dir() {
    assert_eq!(bin_dir_under(b"/home/alice/.var/app/org.rlbot.gui/data"), b"/home/alice/.var/app/org.rlbot.gui/data/RLBot5/bin");
    assert_eq!(log_dir_under(b"/home/alice/.var/app/org.rlbot.gui/data"), b"/home/alice/.var/app/org.rlbot.gui/data/RLBot5/logs");
}

#[test]
fn bin_and_log_dirs_follow_base_dirs() {
    match directories::BaseDirs::new() {
        Some(dirs) => {
            let data = dirs.data_local_dir();
            assert_eq!(bin_dir().unwrap(), data.join(RLBOT_BIN_DIR).as_os_str().as_encoded_bytes());
            assert_eq!(log_dir().unwrap(), data.join(RLBOT_LOG_DIR).as_os_str().as_encoded_bytes());
        }
        None => {
            assert_eq!(bin_dir(), Err(ConfigError::NoBaseDirs));
            assert_eq!(log_dir(), Err(ConfigError::NoBaseDirs));
        }
    }
}

#[test]
fn decimal_of_port() {
    assert_eq!(decimal_string(RLBOT_SERVER_PORT), "23234");
    assert_eq!(decimal_string(RLBOT_SERVER_PORT), RLBOT_SERVER_PORT.to_string());
}

#[test]
fn decimal_edges() {
    assert_eq!(decimal_string(0), "0");
    assert_eq!(decimal_string(9), "9");
    assert_eq!(decimal_string(10), "10");
    assert_eq!(decimal_string(65535), "65535");
    for n in [1u16, 99, 100, 101, 1000, 4096, 30000] {
        assert_eq!(decimal_string(n), n.to_string());
    }
}

#[test]
fn string_equality() {
    assert!(str_eq("abc", "abc"));
    assert!(!str_eq("abc", "abd"));
    assert!(!str_eq("abc", "ab"));
    assert!(str_eq("", ""));
}

#[test]
fn prefix_stripping() {
    assert_eq!(strip_prefix("sha256:abc", "sha256:"), Some("abc"));
    assert_eq!(strip_prefix("sha256:", "sha256:"), Some(""));
    assert_eq!(strip_prefix("sha1:abc", "sha256:"), None);
    assert_eq!(strip_prefix("sha", "sha256:"), None);
    assert_eq!(strip_prefix("ü-rest", "ü-"), Some("rest"));
}
