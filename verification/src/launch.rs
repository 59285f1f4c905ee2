//! How the game is started in the emulator, and how files are sought below
//! an emulator installation.

use crate::platform::OS;
use crate::text::{
    contains, from_chars, has_pattern, lowercase, replace, replace_all, to_chars, to_lowercase,
};
use vstd::prelude::*;

verus! {

/// A program and the arguments to start it with.
pub struct ToolCommand {
    pub program: String,
    pub args: Vec<String>,
}

/// What a [`ToolCommand`] states.
pub struct CommandLine {
    pub program: Seq<char>,
    pub args: Seq<Seq<char>>,
}

impl View for ToolCommand {
    type V = CommandLine;

    open spec fn view(&self) -> CommandLine {
        CommandLine { program: self.program@, args: self.args.deep_view() }
    }
}

impl DeepView for ToolCommand {
    type V = CommandLine;

    open spec fn deep_view(&self) -> CommandLine {
        self@
    }
}

/// The argument that names the game to the emulator.
pub open spec fn game_argument_of(game_type: Seq<char>) -> Seq<char> {
    "%RPCS3_GAMEID%:"@ + game_type
}

/// The command that starts the game in the emulator at `full_path`.
pub open spec fn run_line(full_path: Seq<char>, game_type: Seq<char>) -> CommandLine {
    CommandLine { program: full_path, args: seq!["--no-gui"@, game_argument_of(game_type)] }
}

/// The command that makes the emulator at `full_path` executable.
pub open spec fn permit_line(full_path: Seq<char>) -> CommandLine {
    CommandLine { program: "chmod"@, args: seq!["+x"@, full_path] }
}

/// The commands that start the game, in their order: on Windows the emulator
/// itself, on Linux after it was made executable, and none elsewhere.
pub open spec fn launch_lines(os: Option<OS>, full_path: Seq<char>, game_type: Seq<char>) -> Seq<
    CommandLine,
> {
    match os {
        Some(OS::Windows) => seq![run_line(full_path, game_type)],
        Some(OS::Linux) => seq![permit_line(full_path), run_line(full_path, game_type)],
        _ => Seq::<CommandLine>::empty(),
    }
}

/// The argument that names the game to the emulator.
pub fn game_argument(game_type: &str) -> (argument: String)
    ensures
        argument@ == game_argument_of(game_type@),
{
    let mut argument = String::from_str("%RPCS3_GAMEID%:");
    argument.append(game_type);
    argument
}

/// The command that starts the game.
fn run_command(full_path: &str, game_type: &str) -> (command: ToolCommand)
    ensures
        command@ == run_line(full_path@, game_type@),
{
    let mut args: Vec<String> = Vec::new();
    args.push(String::from_str("--no-gui"));
    args.push(game_argument(game_type));
    assert(args.deep_view() =~= seq!["--no-gui"@, game_argument_of(game_type@)]);
    ToolCommand { program: String::from_str(full_path), args }
}

/// The command that makes the emulator executable.
fn permit_command(full_path: &str) -> (command: ToolCommand)
    ensures
        command@ == permit_line(full_path@),
{
    let mut args: Vec<String> = Vec::new();
    args.push(String::from_str("+x"));
    args.push(String::from_str(full_path));
    assert(args.deep_view() =~= seq!["+x"@, full_path@]);
    ToolCommand { program: String::from_str("chmod"), args }
}

/// The commands that start the game in the emulator at `full_path`, which is
/// built for `os`.
pub fn launch_commands(os: Option<OS>, full_path: &str, game_type: &str) -> (commands: Vec<
    ToolCommand,
>)
    ensures
        commands.deep_view() == launch_lines(os, full_path@, game_type@),
{
    let mut commands: Vec<ToolCommand> = Vec::new();
    match os {
        Some(OS::Windows) => {
            let run = run_command(full_path, game_type);
            commands.push(run);
            assert(commands.deep_view() =~= seq![run_line(full_path@, game_type@)]);
        },
        Some(OS::Linux) => {
            let permit = permit_command(full_path);
            let run = run_command(full_path, game_type);
            commands.push(permit);
            commands.push(run);
            assert(commands.deep_view() =~= seq![
                permit_line(full_path@),
                run_line(full_path@, game_type@),
            ]);
        },
        _ => {
            assert(commands.deep_view() =~= Seq::<CommandLine>::empty());
        },
    }
    commands
}

/// Where the executable of a release lies below the emulator's directory, as
/// a filter on paths; empty for an unknown release.
pub open spec fn executable_filter_of(game_type: Seq<char>) -> Seq<char> {
    if game_type == "npjb"@ {
        "npjb00512\\usrdir\\eboot.bin"@
    } else if game_type == "bljs"@ {
        "BLJS10250\\usrdir\\eboot.bin"@
    } else {
        Seq::<char>::empty()
    }
}

/// The filter on paths that finds the executable of the release `game_type`.
pub fn executable_filter(game_type: &str) -> (filter: &'static str)
    ensures
        filter@ == executable_filter_of(game_type@),
{
    if *game_type == *"npjb" {
        "npjb00512\\usrdir\\eboot.bin"
    } else if *game_type == *"bljs" {
        "BLJS10250\\usrdir\\eboot.bin"
    } else {
        proof {
            reveal_strlit("");
            assert(""@ =~= Seq::<char>::empty());
        }
        ""
    }
}

/// The directory to search, told from the emulator's path: the path without
/// the emulator's file name.
pub fn search_root(full_path: &str) -> (root: String)
    ensures
        root@ == replace(full_path@, "rpcs3.exe"@, Seq::<char>::empty()),
{
    let text = to_chars(full_path);
    let name = to_chars("rpcs3.exe");
    let nothing: Vec<char> = Vec::new();
    let out = replace_all(text.as_slice(), name.as_slice(), nothing.as_slice());
    from_chars(out.as_slice())
}

/// The arguments with which the command interpreter starts the game from
/// `executable_path`; none where no executable was found.
pub fn shell_arguments(full_path: &str, executable_path: &str) -> (args: Option<Vec<String>>)
    ensures
        args is None <==> executable_path@.len() == 0,
        args matches Some(a) ==> a.deep_view() == seq!["/C"@, full_path@, executable_path@],
{
    if executable_path.is_empty() {
        return None;
    }
    let mut args: Vec<String> = Vec::new();
    args.push(String::from_str("/C"));
    args.push(String::from_str(full_path));
    args.push(String::from_str(executable_path));
    assert(args.deep_view() =~= seq!["/C"@, full_path@, executable_path@]);
    Some(args)
}

/// A path in lower case passes a filter: it holds the filter's text, or there
/// is no filter.
pub open spec fn passes(lowered_path: Seq<char>, filter: Option<Seq<char>>) -> bool {
    match filter {
        Some(text) => contains(lowered_path, text),
        None => true,
    }
}

/// Whether a path in lower case passes `filter`.
pub fn lowered_path_passes(lowered_path: &str, filter: Option<&str>) -> (passed: bool)
    ensures
        passed == passes(
            lowered_path@,
            match filter {
                Some(text) => Some(text@),
                None => None,
            },
        ),
{
    match filter {
        Some(text) => {
            let path = to_chars(lowered_path);
            let wanted = to_chars(text);
            has_pattern(path.as_slice(), wanted.as_slice())
        },
        None => true,
    }
}

/// Whether the file at `path` is among those sought: its path, in lower case,
/// passes `filter`. The filter is taken as it is given.
pub fn path_passes(path: &str, filter: Option<&str>) -> (passed: bool)
    ensures
        passed == passes(
            lowercase(path@),
            match filter {
                Some(text) => Some(text@),
                None => None,
            },
        ),
{
    match filter {
        Some(_) => {
            let lowered = to_lowercase(path);
            lowered_path_passes(lowered.as_str(), filter)
        },
        None => true,
    }
}

} // verus!
