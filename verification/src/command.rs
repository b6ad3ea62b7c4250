//! Command lines that the launcher hands to the operating system to run. A
//! program and its arguments are held as bytes, as the operating system takes
//! them, so that paths pass through unchanged whatever their encoding.

use crate::text::str_bytes;
use vstd::prelude::*;
use vstd::slice::slice_to_vec;
use vstd::string::StringSliceAdditionalSpecFns;

verus! {

/// The helper that crosses the flatpak sandbox to run a program on the host.
pub const FLATPAK_SPAWN: &'static str = "/usr/bin/flatpak-spawn";

/// A program to run and the arguments to run it with.
pub struct CommandLine {
    pub program: Vec<u8>,
    pub args: Vec<Vec<u8>>,
    /// Whether the program is started in the system's temporary directory
    /// rather than in the launcher's own working directory.
    pub in_temp_dir: bool,
}

/// A command line as plain values.
pub struct CommandLineView {
    pub program: Seq<u8>,
    pub args: Seq<Seq<u8>>,
    pub in_temp_dir: bool,
}

impl View for CommandLine {
    type V = CommandLineView;

    open spec fn view(&self) -> CommandLineView {
        CommandLineView {
            program: self.program@,
            args: self.args@.map_values(|a: Vec<u8>| a@),
            in_temp_dir: self.in_temp_dir,
        }
    }
}

/// `program` with `args`, run on the host: inside a flatpak this goes through
/// `flatpak-spawn --host`, outside one the program is run directly.
pub open spec fn on_host_view(
    in_flatpak: bool,
    program: Seq<u8>,
    args: Seq<Seq<u8>>,
    in_temp_dir: bool,
) -> CommandLineView {
    if in_flatpak {
        CommandLineView {
            program: FLATPAK_SPAWN.spec_bytes(),
            args: seq!["--host".spec_bytes(), program] + args,
            in_temp_dir,
        }
    } else {
        CommandLineView { program, args, in_temp_dir }
    }
}

/// The command line that runs `program` with `args` on the host.
pub fn on_host(in_flatpak: bool, program: &str, args: Vec<Vec<u8>>, in_temp_dir: bool) -> (res:
    CommandLine)
    ensures
        res@ == on_host_view(
            in_flatpak,
            program.spec_bytes(),
            args@.map_values(|a: Vec<u8>| a@),
            in_temp_dir,
        ),
{
    if in_flatpak {
        let mut all: Vec<Vec<u8>> = Vec::new();
        all.push(str_bytes("--host"));
        all.push(str_bytes(program));
        let mut rest = args;
        let ghost rest_view = rest@.map_values(|a: Vec<u8>| a@);
        all.append(&mut rest);
        let res = CommandLine { program: str_bytes(FLATPAK_SPAWN), args: all, in_temp_dir };
        proof {
            assert(res@.args =~= seq!["--host".spec_bytes(), program.spec_bytes()] + rest_view);
        }
        res
    } else {
        CommandLine { program: str_bytes(program), args, in_temp_dir }
    }
}

/// The command line that runs the GUI at `gui_path`, with no arguments, from
/// the temporary directory.
pub fn gui_command(gui_path: &[u8]) -> (res: CommandLine)
    ensures
        res@ == (CommandLineView { program: gui_path@, args: seq![], in_temp_dir: true }),
{
    let args: Vec<Vec<u8>> = Vec::new();
    let res = CommandLine { program: slice_to_vec(gui_path), args, in_temp_dir: true };
    proof {
        assert(res@.args =~= Seq::<Seq<u8>>::empty());
    }
    res
}

} // verus!
