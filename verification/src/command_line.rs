//! Command-line argument parsing: which command was asked for, which help
//! or metadata option wins, and which errors a malformed invocation earns.

use vstd::prelude::*;

use crate::text;

verus! {

/// Contains the command-line commands the application can parse.
#[derive(Debug, Clone, Copy, PartialEq, Eq, Structural)]
pub enum Command {
    /// Writes a prompt side to the terminal output stream. It requires an
    /// argument that specifies the side to write, either left (specified
    /// with values "left" or "l") or right (specified with values "right"
    /// or "r").
    Prompt,
    /// Writes the ZSH script that initiates the prompt to the terminal
    /// output stream.
    Init,
}

/// The name of a command.
pub open spec fn spec_command_name(command: Command) -> Seq<char> {
    match command {
        Command::Init => "init"@,
        Command::Prompt => "prompt"@,
    }
}

impl Command {
    /// Gets the name of the command.
    pub fn name(&self) -> (r: &'static str)
        ensures
            r@ == spec_command_name(*self),
    {
        match self {
            Command::Init => "init",
            Command::Prompt => "prompt",
        }
    }
}

/// Whether an argument refers to a command-line option, e.g: `-h` (short
/// version) or `--help` (long version).
pub open spec fn spec_is_option(argument: Seq<char>) -> bool {
    argument.len() > 0 && argument[0] == '-'
}

/// Checks if an argument refers to a command-line option, e.g: `-h` (short
/// version) or `--help` (long version).
pub fn is_option(argument: &str) -> (r: bool)
    ensures
        r == spec_is_option(argument@),
{
    argument.unicode_len() > 0 && argument.get_char(0) == '-'
}

/// What a parsed command line asks the application to do, or which error it
/// earns.
#[derive(Debug, Clone)]
pub enum Action {
    /// Show the main software help.
    ShowMainHelp,
    /// Show the prompt command help.
    ShowPromptHelp,
    /// Show the init command help.
    ShowInitHelp,
    /// Show the software version.
    ShowVersion,
    /// Open the software repository in the default web browser.
    OpenRepository,
    /// Draft an e-mail to the developer in the default mail client.
    DraftEmail,
    /// Show the software license.
    ShowLicense,
    /// Write the left prompt side.
    WriteLeftPrompt,
    /// Write the right prompt side.
    WriteRightPrompt,
    /// Write the ZSH script that initiates the prompt.
    WriteInitScript,
    /// No command was provided.
    NoCommand,
    /// The prompt command was provided without a side.
    NoPromptSide,
    /// An argument that is neither a command nor an option came first.
    InvalidCommand(String),
    /// An unknown option was provided without a command.
    InvalidOption(String),
    /// An unknown option was provided for a command.
    InvalidCommandOption(String, Command),
    /// The prompt command was provided with an unknown side.
    InvalidSide(String),
}

/// The mathematical model of an `Action`: the characters of what it
/// carries.
pub enum ActionModel {
    ShowMainHelp,
    ShowPromptHelp,
    ShowInitHelp,
    ShowVersion,
    OpenRepository,
    DraftEmail,
    ShowLicense,
    WriteLeftPrompt,
    WriteRightPrompt,
    WriteInitScript,
    NoCommand,
    NoPromptSide,
    InvalidCommand(Seq<char>),
    InvalidOption(Seq<char>),
    InvalidCommandOption(Seq<char>, Command),
    InvalidSide(Seq<char>),
}

impl View for Action {
    type V = ActionModel;

    open spec fn view(&self) -> ActionModel {
        match self {
            Action::ShowMainHelp => ActionModel::ShowMainHelp,
            Action::ShowPromptHelp => ActionModel::ShowPromptHelp,
            Action::ShowInitHelp => ActionModel::ShowInitHelp,
            Action::ShowVersion => ActionModel::ShowVersion,
            Action::OpenRepository => ActionModel::OpenRepository,
            Action::DraftEmail => ActionModel::DraftEmail,
            Action::ShowLicense => ActionModel::ShowLicense,
            Action::WriteLeftPrompt => ActionModel::WriteLeftPrompt,
            Action::WriteRightPrompt => ActionModel::WriteRightPrompt,
            Action::WriteInitScript => ActionModel::WriteInitScript,
            Action::NoCommand => ActionModel::NoCommand,
            Action::NoPromptSide => ActionModel::NoPromptSide,
            Action::InvalidCommand(a) => ActionModel::InvalidCommand(a@),
            Action::InvalidOption(a) => ActionModel::InvalidOption(a@),
            Action::InvalidCommandOption(a, c) => ActionModel::InvalidCommandOption(a@, *c),
            Action::InvalidSide(a) => ActionModel::InvalidSide(a@),
        }
    }
}

/// The command a first argument selects, if it names one.
pub open spec fn spec_command_of(argument: Seq<char>) -> Option<Command> {
    if argument == spec_command_name(Command::Init) {
        Some(Command::Init)
    } else if argument == spec_command_name(Command::Prompt) {
        Some(Command::Prompt)
    } else {
        None
    }
}

/// The help that a `-h` or `--help` argument selects, by command.
pub open spec fn spec_help_action(command: Option<Command>) -> ActionModel {
    match command {
        None => ActionModel::ShowMainHelp,
        Some(Command::Prompt) => ActionModel::ShowPromptHelp,
        Some(Command::Init) => ActionModel::ShowInitHelp,
    }
}

/// What a command line asks once every argument was scanned without any
/// option taking over: the selected command is dispatched, with its side
/// argument where the prompt command needs one.
pub open spec fn spec_dispatch(args: Seq<Seq<char>>, command: Option<Command>) -> ActionModel {
    match command {
        None => ActionModel::NoCommand,
        Some(Command::Init) => ActionModel::WriteInitScript,
        Some(Command::Prompt) => if args.len() == 1 {
            ActionModel::NoPromptSide
        } else if args[1] == "l"@ || args[1] == "left"@ {
            ActionModel::WriteLeftPrompt
        } else if args[1] == "r"@ || args[1] == "right"@ {
            ActionModel::WriteRightPrompt
        } else {
            ActionModel::InvalidSide(args[1])
        },
    }
}

/// The scan of the arguments from an index on: the first help option wins;
/// without a command, the first metadata option wins; any other option is
/// invalid; and a command line scanned to its end is dispatched.
pub open spec fn spec_scan(args: Seq<Seq<char>>, command: Option<Command>, i: int) -> ActionModel
    decreases args.len() - i,
{
    if i < 0 || i >= args.len() {
        spec_dispatch(args, command)
    } else {
        let argument = args[i];
        if argument == "-h"@ || argument == "--help"@ {
            spec_help_action(command)
        } else if command is None && (argument == "-v"@ || argument == "--version"@) {
            ActionModel::ShowVersion
        } else if command is None && (argument == "-g"@ || argument == "--repository"@) {
            ActionModel::OpenRepository
        } else if command is None && (argument == "-m"@ || argument == "--email"@) {
            ActionModel::DraftEmail
        } else if command is None && (argument == "-l"@ || argument == "--license"@) {
            ActionModel::ShowLicense
        } else if spec_is_option(argument) {
            match command {
                Some(command) => ActionModel::InvalidCommandOption(argument, command),
                None => ActionModel::InvalidOption(argument),
            }
        } else {
            spec_scan(args, command, i + 1)
        }
    }
}

/// What a command line asks the application to do: a first argument that is
/// neither a command nor an option is invalid; otherwise the arguments are
/// scanned under the selected command.
pub open spec fn spec_parse(args: Seq<Seq<char>>) -> ActionModel {
    if args.len() > 0 && spec_command_of(args[0]) is None && !spec_is_option(args[0]) {
        ActionModel::InvalidCommand(args[0])
    } else {
        spec_scan(
            args,
            if args.len() > 0 {
                spec_command_of(args[0])
            } else {
                None
            },
            0,
        )
    }
}

/// Parses the command-line arguments (the program name excluded) into the
/// action they ask for.
pub fn parse_arguments(arguments: &Vec<String>) -> (r: Action)
    ensures
        r@ == spec_parse(arguments.deep_view()),
{
    let ghost dv = arguments.deep_view();
    proof {
        assert(dv.len() == arguments@.len());
        assert(forall|k: int| 0 <= k < arguments@.len() ==> dv[k] == #[trigger] arguments@[k]@);
    }
    let mut command: Option<Command> = None;
    if arguments.len() > 0 {
        let first = &arguments[0];
        if text::str_eq(first.as_str(), Command::Init.name()) {
            command = Some(Command::Init);
        } else if text::str_eq(first.as_str(), Command::Prompt.name()) {
            command = Some(Command::Prompt);
        } else if !is_option(first.as_str()) {
            return Action::InvalidCommand(first.clone());
        }
    }
    let mut i: usize = 0;
    while i < arguments.len()
        invariant
            i <= arguments.len(),
            dv == arguments.deep_view(),
            dv.len() == arguments@.len(),
            forall|k: int| 0 <= k < arguments@.len() ==> dv[k] == #[trigger] arguments@[k]@,
            command == (if dv.len() > 0 {
                spec_command_of(dv[0])
            } else {
                None::<Command>
            }),
            !(dv.len() > 0 && spec_command_of(dv[0]) is None && !spec_is_option(dv[0])),
            spec_scan(dv, command, i as int) == spec_parse(dv),
        decreases arguments.len() - i,
    {
        let argument = &arguments[i];
        if text::str_eq(argument.as_str(), "-h") || text::str_eq(argument.as_str(), "--help") {
            return match command {
                None => Action::ShowMainHelp,
                Some(Command::Prompt) => Action::ShowPromptHelp,
                Some(Command::Init) => Action::ShowInitHelp,
            };
        }
        if command.is_none() {
            if text::str_eq(argument.as_str(), "-v") || text::str_eq(
                argument.as_str(),
                "--version",
            ) {
                return Action::ShowVersion;
            }
            if text::str_eq(argument.as_str(), "-g") || text::str_eq(
                argument.as_str(),
                "--repository",
            ) {
                return Action::OpenRepository;
            }
            if text::str_eq(argument.as_str(), "-m") || text::str_eq(
                argument.as_str(),
                "--email",
            ) {
                return Action::DraftEmail;
            }
            if text::str_eq(argument.as_str(), "-l") || text::str_eq(
                argument.as_str(),
                "--license",
            ) {
                return Action::ShowLicense;
            }
        }
        if is_option(argument.as_str()) {
            return match command {
                Some(command) => Action::InvalidCommandOption(argument.clone(), command),
                None => Action::InvalidOption(argument.clone()),
            };
        }
        i = i + 1;
    }
    match command {
        None => Action::NoCommand,
        Some(Command::Init) => Action::WriteInitScript,
        Some(Command::Prompt) => {
            if arguments.len() == 1 {
                Action::NoPromptSide
            } else {
                let side = &arguments[1];
                if text::str_eq(side.as_str(), "l") || text::str_eq(side.as_str(), "left") {
                    Action::WriteLeftPrompt
                } else if text::str_eq(side.as_str(), "r") || text::str_eq(
                    side.as_str(),
                    "right",
                ) {
                    Action::WriteRightPrompt
                } else {
                    Action::InvalidSide(side.clone())
                }
            }
        },
    }
}

} // verus!
