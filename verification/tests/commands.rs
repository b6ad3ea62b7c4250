use rlbot_launcher::command::{gui_command, CommandLine, FLATPAK_SPAWN};
use rlbot_launcher::server::{
    log_terminal_command, log_terminal_script, pkill_outcome, server_kill_command,
    server_port_arg, server_spawn_command, shell_quote, ServerError, SERVER_SCRIPT,
};

fn args_of(c: &CommandLine) -> Vec<&str> {
    c.args.iter().map(|a| std::str::from_utf8(a).unwrap()).collect()
}

fn program_of(c: &CommandLine) -> &str {
    std::str::from_utf8(&c.program).unwrap()
}

/// The value that a POSIX shell gives to a word made of single-quoted runs
/// and backslash escapes only; `None` for any other word.
fn sh_word_value(word: &str) -> Option<String> {
    let mut out = String::new();
    let mut chars = word.chars();
    let mut quoted = false;
    while let Some(c) = chars.next() {
        if quoted {
            if c == '\'' {
                quoted = false;
            } else {
                out.push(c);
            }
        } else if c == '\'' {
            quoted = true;
        } else if c == '\\' {
            out.push(chars.next()?);
        } else {
            return None;
        }
    }
    if quoted {
        None
    } else {
        Some(out)
    }
}

#[test]
fn shell_quote_plain() {
    assert_eq!(shell_quote("abc"), "'abc'");
}

#[test]
fn shell_quote_empty() {
    assert_eq!(shell_quote(""), "''");
}

#[test]
fn shell_quote_single_quotes() {
    assert_eq!(shell_quote("it's"), "'it'\\''s'");
    assert_eq!(shell_quote("'"), "''\\'''");
}

#[test]
fn shell_quote_round_trip() {
    for s in ["", "abc", "it's", "''", "a b\tc\n", "$(rm -rf /); `x` \"y\" \\z", "ünï'cödé"] {
        assert_eq!(sh_word_value(&shell_quote(s)), Some(s.to_string()), "{s:?}");
    }
}

#[test]
fn port_argument() {
    assert_eq!(server_port_arg(), "23234");
}

#[test]
fn spawn_inside_flatpak() {
    let c = server_spawn_command(true, b"/home/a/RLBot5/bin/RLBotServer");
    assert_eq!(program_of(&c), FLATPAK_SPAWN);
    assert_eq!(program_of(&c), "/usr/bin/flatpak-spawn");
    assert_eq!(
        args_of(&c),
        ["--host", "sh", "-c", "exec \"$1\" \"$2\" 2>&1", "sh", "/home/a/RLBot5/bin/RLBotServer", "23234"]
    );
    assert!(c.in_temp_dir);
}

#[test]
fn spawn_outside_flatpak() {
    let c = server_spawn_command(false, b"/srv/RLBotServer");
    assert_eq!(program_of(&c), "sh");
    assert_eq!(args_of(&c), ["-c", SERVER_SCRIPT, "sh", "/srv/RLBotServer", "23234"]);
    assert!(!c.in_temp_dir);
}

#[test]
fn spawn_keeps_non_utf8_server_path() {
    let c = server_spawn_command(false, &[b'/', 0xff, b'S']);
    assert_eq!(c.args[3], [b'/', 0xff, b'S']);
    let g = gui_command(&[0xfe, b'g']);
    assert_eq!(g.program, [0xfe, b'g']);
}

#[test]
fn kill_commands() {
    let c = server_kill_command(true);
    assert_eq!(program_of(&c), "/usr/bin/flatpak-spawn");
    assert_eq!(args_of(&c), ["--host", "pkill", "-x", "RLBotServer"]);
    let c = server_kill_command(false);
    assert_eq!(program_of(&c), "pkill");
    assert_eq!(args_of(&c), ["-x", "RLBotServer"]);
    assert!(!c.in_temp_dir);
}

#[test]
fn pkill_exit_codes() {
    assert_eq!(pkill_outcome(true, Some(0)), Ok(()));
    assert_eq!(pkill_outcome(false, Some(1)), Ok(()));
    assert_eq!(pkill_outcome(false, Some(2)), Err(ServerError::PkillFailed { code: Some(2) }));
    assert_eq!(pkill_outcome(false, None), Err(ServerError::PkillFailed { code: None }));
}

#[test]
fn log_terminal_script_text() {
    assert_eq!(
        log_terminal_script("/l/rlbot.log", "/l/rlbotserver.log"),
        "pid=$(pgrep -x rlbot-launcher | head -1); [ -n \"$pid\" ] && exec tail -n 100 -q -f --pid=\"$pid\" \"/l/rlbot.log\" \"/l/rlbotserver.log\""
    );
}

#[test]
fn log_terminal_commands() {
    let script = log_terminal_script("/l/rlbot.log", "/l/rlbotserver.log");
    let arg = format!("sh -c {}", shell_quote(&script));
    let c = log_terminal_command(true, "/l/rlbot.log", "/l/rlbotserver.log");
    assert_eq!(program_of(&c), "/usr/bin/flatpak-spawn");
    assert_eq!(args_of(&c), ["--host", "x-terminal-emulator", "-e", arg.as_str()]);
    let c = log_terminal_command(false, "/l/rlbot.log", "/l/rlbotserver.log");
    assert_eq!(program_of(&c), "x-terminal-emulator");
    assert_eq!(args_of(&c), ["-e", arg.as_str()]);
    assert_eq!(sh_word_value(&arg["sh -c ".len()..]), Some(script));
}

#[test]
fn gui_runs_from_temp_dir() {
    let c = gui_command(b"/b/rlbotgui");
    assert_eq!(c.program, b"/b/rlbotgui");
    assert!(c.args.is_empty());
    assert!(c.in_temp_dir);
}
