use reflections::cli::{
    check_summary_input, Cli, CliError, Command, EmptyStdin, MeetingCommand, SummaryCommand,
};

#[test]
fn summary_create_args_validation() {
    let result = Cli::try_parse_from(&["reflect", "summary", "create", "2026-01-01", "2026-01-31"])
        .expect("parse failed");

    match result.command {
        Some(Command::Summary(args)) => {
            let SummaryCommand::Create(create_args) = args.command;
            assert_eq!(create_args.start, "2026-01-01");
            assert_eq!(create_args.end, "2026-01-31");
        }
        _ => panic!("Expected Command::Summary"),
    }
}

#[test]
fn meeting_sync_today_parses_correctly() {
    let result = Cli::try_parse_from(&["reflect", "meeting", "sync", "today"]).expect("parse failed");

    match result.command {
        Some(Command::Meeting(args)) => match args.command {
            MeetingCommand::Sync(sync_args) => {
                assert_eq!(sync_args.first, "today");
                assert!(sync_args.second.is_none());
            }
        },
        _ => panic!("Expected Command::Meeting"),
    }
}

#[test]
fn meeting_sync_week_parses_correctly() {
    let result = Cli::try_parse_from(&["reflect", "meeting", "sync", "week"]).expect("parse failed");

    match result.command {
        Some(Command::Meeting(args)) => match args.command {
            MeetingCommand::Sync(sync_args) => {
                assert_eq!(sync_args.first, "week");
                assert!(sync_args.second.is_none());
            }
        },
        _ => panic!("Expected Command::Meeting"),
    }
}

#[test]
fn meeting_sync_explicit_range_parses_correctly() {
    let result = Cli::try_parse_from(&["reflect", "meeting", "sync", "2026-01-01", "2026-01-31"])
        .expect("parse failed");

    match result.command {
        Some(Command::Meeting(args)) => match args.command {
            MeetingCommand::Sync(sync_args) => {
                assert_eq!(sync_args.first, "2026-01-01");
                assert_eq!(sync_args.second.as_ref().expect("should be some"), "2026-01-31");
            }
        },
        _ => panic!("Expected Command::Meeting"),
    }
}

#[test]
fn meeting_sync_explicit_range_with_time_parses_correctly() {
    let result = Cli::try_parse_from(&[
        "reflect",
        "meeting",
        "sync",
        "2026-01-01 14:30",
        "2026-01-31 09:00",
    ])
    .expect("parse failed");

    match result.command {
        Some(Command::Meeting(args)) => match args.command {
            MeetingCommand::Sync(sync_args) => {
                assert_eq!(sync_args.first, "2026-01-01 14:30");
                assert_eq!(sync_args.second.as_ref().expect("should be some"), "2026-01-31 09:00");
            }
        },
        _ => panic!("Expected Command::Meeting"),
    }
}

#[test]
fn no_arguments_starts_the_terminal_application() {
    let cli = Cli::try_parse_from(&["reflect"]).expect("parse failed");
    assert!(cli.command.is_none());
}

#[test]
fn timeline_takes_one_or_two_values() {
    match Cli::try_parse_from(&["reflect", "timeline", "today"]).expect("parse failed").command {
        Some(Command::Timeline(a)) => {
            assert_eq!(a.first, "today");
            assert!(a.second.is_none());
        }
        _ => panic!("Expected Command::Timeline"),
    }
    match Cli::try_parse_from(&["reflect", "timeline", "2026-01-01", "2026-01-02"])
        .expect("parse failed")
        .command
    {
        Some(Command::Timeline(a)) => {
            assert_eq!(a.first, "2026-01-01");
            assert_eq!(a.second.as_deref(), Some("2026-01-02"));
        }
        _ => panic!("Expected Command::Timeline"),
    }
}

#[test]
fn refused_command_lines_name_their_error() {
    assert!(matches!(Cli::try_parse_from(&["reflect", "timeline"]), Err(CliError::MissingArgument)));
    assert!(matches!(Cli::try_parse_from(&["reflect", "summary", "create", "a"]), Err(CliError::MissingArgument)));
    assert!(matches!(Cli::try_parse_from(&["reflect", "meeting"]), Err(CliError::MissingArgument)));
    match Cli::try_parse_from(&["reflect", "timeline", "a", "b", "c"]) {
        Err(CliError::UnexpectedArgument(s)) => assert_eq!(s, "c"),
        _ => panic!("Expected an unexpected argument"),
    }
    match Cli::try_parse_from(&["reflect", "journal"]) {
        Err(CliError::UnknownCommand(s)) => assert_eq!(s, "journal"),
        _ => panic!("Expected an unknown command"),
    }
    match Cli::try_parse_from(&["reflect", "meeting", "pull", "today"]) {
        Err(CliError::UnknownCommand(s)) => assert_eq!(s, "pull"),
        _ => panic!("Expected an unknown command"),
    }
    match Cli::try_parse_from(&["reflect", "timeline", "--json", "today"]) {
        Err(CliError::UnexpectedArgument(s)) => assert_eq!(s, "--json"),
        _ => panic!("Expected an unexpected argument"),
    }
    assert!(matches!(Cli::try_parse_from(&["reflect", "timeline", "x", "--help"]), Err(CliError::Help)));
    assert!(matches!(Cli::try_parse_from(&["reflect", "help"]), Err(CliError::Help)));
    assert!(matches!(Cli::try_parse_from(&["reflect", "-h"]), Err(CliError::Help)));
}

#[test]
fn summary_input_must_not_be_empty() {
    assert_eq!(check_summary_input(""), Err(EmptyStdin));
    assert_eq!(check_summary_input("# notes\n"), Ok(()));
    assert_eq!(EmptyStdin.message(), "stdin content cannot be empty");
}
