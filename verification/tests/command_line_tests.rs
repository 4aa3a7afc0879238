use river_dreams::command_line::{is_option, parse_arguments, Action, Command};

fn parse(arguments: &[&str]) -> Action {
    let arguments: Vec<String> = arguments.iter().map(|a| String::from(*a)).collect();
    parse_arguments(&arguments)
}

#[test]
fn command_names() {
    assert_eq!(Command::Init.name(), "init");
    assert_eq!(Command::Prompt.name(), "prompt");
}

#[test]
fn options_start_with_a_dash() {
    assert!(is_option("-h"));
    assert!(is_option("--help"));
    assert!(!is_option("prompt"));
    assert!(!is_option(""));
}

#[test]
fn no_arguments_means_no_command() {
    assert!(matches!(parse(&[]), Action::NoCommand));
}

#[test]
fn the_init_command_writes_the_script() {
    assert!(matches!(parse(&["init"]), Action::WriteInitScript));
}

#[test]
fn the_prompt_command_needs_a_side() {
    assert!(matches!(parse(&["prompt"]), Action::NoPromptSide));
    assert!(matches!(parse(&["prompt", "left"]), Action::WriteLeftPrompt));
    assert!(matches!(parse(&["prompt", "l"]), Action::WriteLeftPrompt));
    assert!(matches!(
        parse(&["prompt", "right"]),
        Action::WriteRightPrompt
    ));
    assert!(matches!(parse(&["prompt", "r"]), Action::WriteRightPrompt));
    match parse(&["prompt", "middle"]) {
        Action::InvalidSide(side) => assert_eq!(side, "middle"),
        other => panic!("unexpected action: {:?}", other),
    }
}

#[test]
fn an_unknown_first_argument_is_an_invalid_command() {
    match parse(&["bogus"]) {
        Action::InvalidCommand(argument) => assert_eq!(argument, "bogus"),
        other => panic!("unexpected action: {:?}", other),
    }
}

#[test]
fn help_options_follow_the_selected_command() {
    assert!(matches!(parse(&["-h"]), Action::ShowMainHelp));
    assert!(matches!(parse(&["--help"]), Action::ShowMainHelp));
    assert!(matches!(parse(&["prompt", "-h"]), Action::ShowPromptHelp));
    assert!(matches!(parse(&["init", "--help"]), Action::ShowInitHelp));
    assert!(matches!(parse(&["--help", "-v"]), Action::ShowMainHelp));
    assert!(matches!(parse(&["-v", "--help"]), Action::ShowVersion));
}

#[test]
fn metadata_options_without_a_command() {
    assert!(matches!(parse(&["-v"]), Action::ShowVersion));
    assert!(matches!(parse(&["--version"]), Action::ShowVersion));
    assert!(matches!(parse(&["-g"]), Action::OpenRepository));
    assert!(matches!(parse(&["--repository"]), Action::OpenRepository));
    assert!(matches!(parse(&["-m"]), Action::DraftEmail));
    assert!(matches!(parse(&["--email"]), Action::DraftEmail));
    assert!(matches!(parse(&["-l"]), Action::ShowLicense));
    assert!(matches!(parse(&["--license"]), Action::ShowLicense));
}

#[test]
fn unknown_options_are_invalid() {
    match parse(&["-x"]) {
        Action::InvalidOption(option) => assert_eq!(option, "-x"),
        other => panic!("unexpected action: {:?}", other),
    }
    match parse(&["prompt", "--bogus"]) {
        Action::InvalidCommandOption(option, command) => {
            assert_eq!(option, "--bogus");
            assert_eq!(command, Command::Prompt);
        }
        other => panic!("unexpected action: {:?}", other),
    }
    match parse(&["init", "-z"]) {
        Action::InvalidCommandOption(option, command) => {
            assert_eq!(option, "-z");
            assert_eq!(command, Command::Init);
        }
        other => panic!("unexpected action: {:?}", other),
    }
}

#[test]
fn version_options_need_no_command_context() {
    assert!(matches!(parse(&["prompt", "-v"]), Action::InvalidCommandOption(_, _)));
}
