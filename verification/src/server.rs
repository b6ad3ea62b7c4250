//! RLBotServer process management: the command lines that start and stop the
//! server on the host (through `flatpak-spawn --host` inside the flatpak, or
//! directly outside one), and the quoting they rely on.

use crate::config::{RLBOT_LAUNCHER_NAME, RLBOT_SERVER_BIN_NAME, RLBOT_SERVER_PORT};
use crate::command::{on_host, on_host_view, CommandLine};
use crate::text::{decimal, decimal_string, str_bytes};
use vstd::prelude::*;
use vstd::slice::slice_to_vec;
use vstd::string::StringSliceAdditionalSpecFns;

verus! {

/// The `sh -c` script that runs the server (`$1`) on the port (`$2`), with its
/// standard error joined to its standard output.
pub const SERVER_SCRIPT: &'static str = "exec \"$1\" \"$2\" 2>&1";

/// Why stopping the server failed.
#[derive(Debug, Clone, Copy, PartialEq, Eq, Structural)]
pub enum ServerError {
    /// `pkill` ended with an exit code other than 0 (stopped) or 1 (nothing to
    /// stop), or was killed by a signal (`code` is `None`).
    PkillFailed { code: Option<i32> },
}

/// The port argument handed to the server.
pub fn server_port_arg() -> (res: String)
    ensures
        res@ == decimal(RLBOT_SERVER_PORT as nat),
{
    decimal_string(RLBOT_SERVER_PORT)
}

/// The arguments of `sh` that start the server at `server_path` on the port.
pub open spec fn server_spawn_args(server_path: Seq<u8>) -> Seq<Seq<u8>> {
    seq![
        "-c".spec_bytes(),
        SERVER_SCRIPT.spec_bytes(),
        "sh".spec_bytes(),
        server_path,
        vstd::utf8::encode_utf8(decimal(RLBOT_SERVER_PORT as nat)),
    ]
}

/// The command line that starts RLBotServer at `server_path` in the background
/// on the host, with the port as its argument. Inside a flatpak it is started
/// from the temporary directory.
pub fn server_spawn_command(in_flatpak: bool, server_path: &[u8]) -> (res: CommandLine)
    ensures
        res@ == on_host_view(in_flatpak, "sh".spec_bytes(), server_spawn_args(server_path@), in_flatpak),
{
    let port = server_port_arg();
    let mut args: Vec<Vec<u8>> = Vec::new();
    args.push(str_bytes("-c"));
    args.push(str_bytes(SERVER_SCRIPT));
    args.push(str_bytes("sh"));
    args.push(slice_to_vec(server_path));
    args.push(str_bytes(port.as_str()));
    proof {
        assert(args@.map_values(|a: Vec<u8>| a@) =~= server_spawn_args(server_path@));
    }
    on_host(in_flatpak, "sh", args, in_flatpak)
}

/// The arguments of `pkill` that stop every process named RLBotServer.
pub open spec fn server_kill_args() -> Seq<Seq<u8>> {
    seq!["-x".spec_bytes(), RLBOT_SERVER_BIN_NAME.spec_bytes()]
}

/// The command line that stops RLBotServer on the host.
pub fn server_kill_command(in_flatpak: bool) -> (res: CommandLine)
    ensures
        res@ == on_host_view(in_flatpak, "pkill".spec_bytes(), server_kill_args(), false),
{
    let mut args: Vec<Vec<u8>> = Vec::new();
    args.push(str_bytes("-x"));
    args.push(str_bytes(RLBOT_SERVER_BIN_NAME));
    proof {
        assert(args@.map_values(|a: Vec<u8>| a@) =~= server_kill_args());
    }
    on_host(in_flatpak, "pkill", args, false)
}

/// What the exit of `pkill` means: it exits with 1 when no process matched,
/// which counts as success like 0 does; anything else is a failure.
pub fn pkill_outcome(success: bool, code: Option<i32>) -> (res: Result<(), ServerError>)
    ensures
        res is Ok <==> (success || code == Some(1i32)),
        res is Err ==> res->Err_0 == (ServerError::PkillFailed { code }),
{
    if success || code == Some(1i32) {
        Ok(())
    } else {
        Err(ServerError::PkillFailed { code })
    }
}

/// The script that the log terminal runs: find the launcher's process and
/// follow both log files until that process exits.
pub open spec fn log_terminal_script_text(launcher_log: Seq<char>, server_log: Seq<char>) -> Seq<
    char,
> {
    "pid=$(pgrep -x "@ + RLBOT_LAUNCHER_NAME@
        + " | head -1); [ -n \"$pid\" ] && exec tail -n 100 -q -f --pid=\"$pid\" \""@
        + launcher_log + "\" \""@ + server_log + "\""@
}

/// The script that follows the launcher log `launcher_log` and the server log
/// `server_log` for as long as the launcher runs.
pub fn log_terminal_script(launcher_log: &str, server_log: &str) -> (res: String)
    ensures
        res@ == log_terminal_script_text(launcher_log@, server_log@),
{
    let mut res = String::from_str("pid=$(pgrep -x ");
    res.append(RLBOT_LAUNCHER_NAME);
    res.append(" | head -1); [ -n \"$pid\" ] && exec tail -n 100 -q -f --pid=\"$pid\" \"");
    res.append(launcher_log);
    res.append("\" \"");
    res.append(server_log);
    res.append("\"");
    res
}

/// The argument that the terminal emulator runs: the script under `sh -c`,
/// single-quoted.
pub open spec fn log_terminal_arg(launcher_log: Seq<char>, server_log: Seq<char>) -> Seq<char> {
    "sh -c "@ + shell_quoted(log_terminal_script_text(launcher_log, server_log))
}

/// The command line that opens a terminal on the host showing the current
/// run's logs (`x-terminal-emulator -e 'sh -c ...'`).
pub fn log_terminal_command(in_flatpak: bool, launcher_log: &str, server_log: &str) -> (res:
    CommandLine)
    ensures
        res@ == on_host_view(
            in_flatpak,
            "x-terminal-emulator".spec_bytes(),
            seq!["-e".spec_bytes(), vstd::utf8::encode_utf8(log_terminal_arg(launcher_log@, server_log@))],
            false,
        ),
{
    let script = log_terminal_script(launcher_log, server_log);
    let mut arg = String::from_str("sh -c ");
    let quoted = shell_quote(script.as_str());
    arg.append(quoted.as_str());
    let mut args: Vec<Vec<u8>> = Vec::new();
    args.push(str_bytes("-e"));
    args.push(str_bytes(arg.as_str()));
    proof {
        assert(args@.map_values(|a: Vec<u8>| a@) =~= seq![
            "-e".spec_bytes(),
            vstd::utf8::encode_utf8(log_terminal_arg(launcher_log@, server_log@)),
        ]);
    }
    on_host(in_flatpak, "x-terminal-emulator", args, false)
}

/// What one character of `s` becomes inside a single-quoted shell word: a
/// single quote closes the quotes, is written escaped, and opens them again.
pub open spec fn quote_piece(c: char) -> Seq<char> {
    if c == '\'' {
        seq!['\'', '\\', '\'', '\'']
    } else {
        seq![c]
    }
}

/// The characters of `s`, each turned into its piece.
pub open spec fn quote_escaped(s: Seq<char>) -> Seq<char>
    decreases s.len(),
{
    if s.len() == 0 {
        seq![]
    } else {
        quote_escaped(s.drop_last()) + quote_piece(s.last())
    }
}

/// `s` single-quoted for a shell command line.
pub open spec fn shell_quoted(s: Seq<char>) -> Seq<char> {
    seq!['\''] + quote_escaped(s) + seq!['\'']
}

/// Single-quote `s` for safe use in a shell command line.
pub fn shell_quote(s: &str) -> (res: String)
    ensures
        res@ == shell_quoted(s@),
{
    let mut res = String::new();
    res.push('\'');
    let escaped_quote = "'\\''";
    proof {
        reveal_strlit("'\\''");
        assert(escaped_quote@ =~= quote_piece('\''));
    }
    for c in it: s.chars()
        invariant
            it.seq() == s@,
            escaped_quote@ == quote_piece('\''),
            res@ == seq!['\''] + quote_escaped(s@.take(it.index() as int)),
    {
        let ghost i = it.index();
        proof {
            assert(s@.take(i + 1).drop_last() =~= s@.take(i));
            assert(s@.take(i + 1).last() == c);
        }
        let ghost before = res@;
        if c == '\'' {
            res.append(escaped_quote);
        } else {
            res.push(c);
        }
        assert(res@ =~= before + quote_piece(c));
    }
    proof {
        assert(s@.take(s@.len() as int) =~= s@);
    }
    res.push('\'');
    res
}

/// `c` put in front of the word value `v`, where there is one.
pub open spec fn prepend_char(c: char, v: Option<Seq<char>>) -> Option<Seq<char>> {
    match v {
        Some(rest) => Some(seq![c] + rest),
        None => None,
    }
}

/// The value a POSIX shell gives to the word `w`, read outside quotes, where
/// `w` is made of single-quoted runs and backslash-escaped characters only;
/// `None` for any other word (an unquoted ordinary or special character, a
/// trailing backslash, or an unterminated quote).
pub open spec fn sh_word_value(w: Seq<char>) -> Option<Seq<char>>
    decreases w.len(),
{
    if w.len() == 0 {
        Some(seq![])
    } else if w[0] == '\'' {
        sh_quoted_run_value(w.drop_first())
    } else if w[0] == '\\' && w.len() >= 2 {
        prepend_char(w[1], sh_word_value(w.skip(2)))
    } else {
        None
    }
}

/// The value of the rest `w` of a word whose single quotes are open: every
/// character stands for itself up to the closing quote.
pub open spec fn sh_quoted_run_value(w: Seq<char>) -> Option<Seq<char>>
    decreases w.len(),
{
    if w.len() == 0 {
        None
    } else if w[0] == '\'' {
        sh_word_value(w.drop_first())
    } else {
        prepend_char(w[0], sh_quoted_run_value(w.drop_first()))
    }
}

proof fn lemma_quote_escaped_first(s: Seq<char>)
    requires
        s.len() > 0,
    ensures
        quote_escaped(s) == quote_piece(s[0]) + quote_escaped(s.drop_first()),
    decreases s.len(),
{
    if s.len() == 1 {
        assert(s.drop_last() =~= seq![]);
        assert(s.drop_first() =~= seq![]);
        assert(quote_escaped(s.drop_last()) =~= seq![]);
        assert(s.last() == s[0]);
        assert(quote_escaped(s) =~= quote_piece(s[0]));
    } else {
        lemma_quote_escaped_first(s.drop_last());
        assert(s.drop_last().drop_first() =~= s.drop_first().drop_last());
        assert(s.drop_first().last() == s.last());
        lemma_quote_escaped_first_unfold(s.drop_first());
        assert(quote_escaped(s) =~= quote_piece(s[0]) + quote_escaped(s.drop_first()));
    }
}

proof fn lemma_quote_escaped_first_unfold(s: Seq<char>)
    requires
        s.len() > 0,
    ensures
        quote_escaped(s) == quote_escaped(s.drop_last()) + quote_piece(s.last()),
{
}

proof fn lemma_quoted_run_closes(s: Seq<char>)
    ensures
        sh_quoted_run_value(quote_escaped(s) + seq!['\'']) == Some(s),
    decreases s.len(),
{
    let w = quote_escaped(s) + seq!['\''];
    if s.len() == 0 {
        assert(w =~= seq!['\'']);
        assert(w.drop_first() =~= seq![]);
    } else {
        let c = s[0];
        let rest = s.drop_first();
        lemma_quote_escaped_first(s);
        lemma_quoted_run_closes(rest);
        let tail = quote_escaped(rest) + seq!['\''];
        if c == '\'' {
            assert(w =~= seq!['\'', '\\', '\'', '\''] + tail);
            assert(w.drop_first() =~= seq!['\\', '\'', '\''] + tail);
            assert(w.drop_first().skip(2) =~= seq!['\''] + tail);
            assert((seq!['\''] + tail).drop_first() =~= tail);
            assert(sh_word_value(seq!['\''] + tail) == Some(rest));
            assert(sh_word_value(w.drop_first()) == Some(seq![c] + rest));
            assert(s =~= seq![c] + rest);
        } else {
            assert(w =~= seq![c] + tail);
            assert(w.drop_first() =~= tail);
            assert(w[0] == c);
            assert(s =~= seq![c] + rest);
        }
    }
}

/// The shell reads a quoted string back as the string itself, whatever
/// characters it holds, so `shell_quote` is safe on a command line.
pub proof fn lemma_shell_quote_round_trip(s: Seq<char>)
    ensures
        sh_word_value(shell_quoted(s)) == Some(s),
{
    lemma_quoted_run_closes(s);
    assert(shell_quoted(s).drop_first() =~= quote_escaped(s) + seq!['\'']);
}

} // verus!
