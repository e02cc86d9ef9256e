//! The command line: `reflect` alone starts the terminal application;
//! `reflect timeline <first> [<second>]` prints a timeline,
//! `reflect summary create <start> <end>` stores a summary read from stdin, and
//! `reflect meeting sync <first> [<second>]` brings in calendar meetings.
use vstd::prelude::*;
use crate::text::str_eq;

verus! {

pub struct Cli {
    pub command: Option<Command>,
}

pub enum Command {
    Timeline(TimelineArgs),
    Summary(SummaryArgs),
    Meeting(MeetingArgs),
}

pub struct SummaryArgs {
    pub command: SummaryCommand,
}

pub enum SummaryCommand {
    Create(SummaryCreateArgs),
}

/// The time range of a new summary (`%Y-%m-%d` or `%Y-%m-%d %H:%M`).
pub struct SummaryCreateArgs {
    pub start: String,
    pub end: String,
}

/// `today`, `week`, or a start and an end.
pub struct TimelineArgs {
    pub first: String,
    pub second: Option<String>,
}

pub struct MeetingArgs {
    pub command: MeetingCommand,
}

pub enum MeetingCommand {
    Sync(SyncArgs),
}

/// `today`, `week`, or a start and an end.
pub struct SyncArgs {
    pub first: String,
    pub second: Option<String>,
}

/// Why a command line was not taken.
#[derive(Debug)]
pub enum CliError {
    /// Help was asked for.
    Help,
    /// No such subcommand.
    UnknownCommand(String),
    /// A required argument or subcommand is missing.
    MissingArgument,
    /// An argument that no position or option takes.
    UnexpectedArgument(String),
}

/// A command line as plain values.
pub enum CommandView {
    Timeline(Seq<char>, Option<Seq<char>>),
    SummaryCreate(Seq<char>, Seq<char>),
    MeetingSync(Seq<char>, Option<Seq<char>>),
}

pub enum CliErrorView {
    Help,
    UnknownCommand(Seq<char>),
    MissingArgument,
    UnexpectedArgument(Seq<char>),
}

impl View for Cli {
    type V = Option<CommandView>;

    open spec fn view(&self) -> Option<CommandView> {
        match &self.command {
            None => None,
            Some(Command::Timeline(a)) => Some(
                CommandView::Timeline(
                    a.first@,
                    match &a.second {
                        Some(s) => Some(s@),
                        None => None,
                    },
                ),
            ),
            Some(Command::Summary(a)) => match &a.command {
                SummaryCommand::Create(c) => Some(CommandView::SummaryCreate(c.start@, c.end@)),
            },
            Some(Command::Meeting(a)) => match &a.command {
                MeetingCommand::Sync(c) => Some(
                    CommandView::MeetingSync(
                        c.first@,
                        match &c.second {
                            Some(s) => Some(s@),
                            None => None,
                        },
                    ),
                ),
            },
        }
    }
}

impl View for CliError {
    type V = CliErrorView;

    open spec fn view(&self) -> CliErrorView {
        match self {
            CliError::Help => CliErrorView::Help,
            CliError::UnknownCommand(s) => CliErrorView::UnknownCommand(s@),
            CliError::MissingArgument => CliErrorView::MissingArgument,
            CliError::UnexpectedArgument(s) => CliErrorView::UnexpectedArgument(s@),
        }
    }
}

pub open spec fn spec_is_help_flag(a: Seq<char>) -> bool {
    a == "-h"@ || a == "--help"@
}

/// An option-like argument: `-` and at least one more char.
pub open spec fn spec_is_flag(a: Seq<char>) -> bool {
    a.len() > 1 && a[0] == '-'
}

/// The first help flag, else the first other option, among `xs`.
pub open spec fn spec_first_flag_error(xs: Seq<Seq<char>>) -> Option<CliErrorView>
    decreases xs.len(),
{
    if xs.len() == 0 {
        None
    } else if spec_is_help_flag(xs[0]) {
        Some(CliErrorView::Help)
    } else {
        match spec_first_flag_error(xs.drop_first()) {
            Some(CliErrorView::Help) => Some(CliErrorView::Help),
            other => if spec_is_flag(xs[0]) {
                Some(CliErrorView::UnexpectedArgument(xs[0]))
            } else {
                other
            },
        }
    }
}

/// One or two positional values after position `k`: the first, and the second if given.
pub open spec fn spec_one_or_two(xs: Seq<Seq<char>>, k: int) -> Result<(Seq<char>, Option<Seq<char>>), CliErrorView> {
    if xs.len() <= k {
        Err(CliErrorView::MissingArgument)
    } else if xs.len() == k + 1 {
        Ok((xs[k], None))
    } else if xs.len() == k + 2 {
        Ok((xs[k], Some(xs[k + 1])))
    } else {
        Err(CliErrorView::UnexpectedArgument(xs[k + 2]))
    }
}

/// The command the arguments after the program name stand for.
pub open spec fn spec_parse_args(xs: Seq<Seq<char>>) -> Result<Option<CommandView>, CliErrorView> {
    match spec_first_flag_error(xs) {
        Some(e) => Err(e),
        None => if xs.len() == 0 {
            Ok(None)
        } else if xs[0] == "help"@ {
            Err(CliErrorView::Help)
        } else if xs[0] == "timeline"@ {
            match spec_one_or_two(xs, 1) {
                Ok((a, b)) => Ok(Some(CommandView::Timeline(a, b))),
                Err(e) => Err(e),
            }
        } else if xs[0] == "summary"@ {
            if xs.len() == 1 {
                Err(CliErrorView::MissingArgument)
            } else if xs[1] == "help"@ {
                Err(CliErrorView::Help)
            } else if xs[1] != "create"@ {
                Err(CliErrorView::UnknownCommand(xs[1]))
            } else if xs.len() < 4 {
                Err(CliErrorView::MissingArgument)
            } else if xs.len() > 4 {
                Err(CliErrorView::UnexpectedArgument(xs[4]))
            } else {
                Ok(Some(CommandView::SummaryCreate(xs[2], xs[3])))
            }
        } else if xs[0] == "meeting"@ {
            if xs.len() == 1 {
                Err(CliErrorView::MissingArgument)
            } else if xs[1] == "help"@ {
                Err(CliErrorView::Help)
            } else if xs[1] != "sync"@ {
                Err(CliErrorView::UnknownCommand(xs[1]))
            } else {
                match spec_one_or_two(xs, 2) {
                    Ok((a, b)) => Ok(Some(CommandView::MeetingSync(a, b))),
                    Err(e) => Err(e),
                }
            }
        } else {
            Err(CliErrorView::UnknownCommand(xs[0]))
        },
    }
}

/// The views of the arguments after the program name.
pub open spec fn spec_arg_views(args: Seq<&str>) -> Seq<Seq<char>> {
    args.map_values(|a: &str| a@).drop_first()
}

fn first_flag_error(args: &[&str]) -> (r: Option<CliError>)
    requires
        args@.len() >= 1,
    ensures
        match r {
            Some(e) => spec_first_flag_error(spec_arg_views(args@)) == Some(e@),
            None => spec_first_flag_error(spec_arg_views(args@)).is_none(),
        },
{
    let ghost xs = spec_arg_views(args@);
    let mut k = args.len();
    let mut found: Option<CliError> = None;
    while k > 1
        invariant
            1 <= k <= args@.len(),
            xs == spec_arg_views(args@),
            match found {
                Some(e) => spec_first_flag_error(xs.subrange(k - 1, xs.len() as int)) == Some(e@),
                None => spec_first_flag_error(xs.subrange(k - 1, xs.len() as int)).is_none(),
            },
        decreases k,
    {
        let a = args[k - 1];
        let ghost tail = xs.subrange(k - 2, xs.len() as int);
        assert(tail.drop_first() =~= xs.subrange(k - 1, xs.len() as int));
        assert(tail[0] == a@);
        proof {
            reveal_strlit("-h");
            reveal_strlit("--help");
        }
        if str_eq(a, "-h") || str_eq(a, "--help") {
            found = Some(CliError::Help);
        } else {
            let is_flag = a.unicode_len() > 1 && a.get_char(0) == '-';
            match found {
                Some(CliError::Help) => {},
                _ => {
                    if is_flag {
                        found = Some(CliError::UnexpectedArgument(String::from_str(a)));
                    }
                },
            }
        }
        k = k - 1;
    }
    assert(xs.subrange(0, xs.len() as int) =~= xs);
    found
}

fn one_or_two(args: &[&str], k: usize) -> (r: Result<(String, Option<String>), CliError>)
    requires
        1 <= k,
        args@.len() >= 1,
    ensures
        match (r, spec_one_or_two(spec_arg_views(args@), k - 1)) {
            (Ok((a, b)), Ok((x, y))) => a@ == x && match (b, y) {
                (Some(b), Some(y)) => b@ == y,
                (None, None) => true,
                _ => false,
            },
            (Err(e), Err(f)) => e@ == f,
            _ => false,
        },
{
    let ghost xs = spec_arg_views(args@);
    assert(xs.len() == args@.len() - 1);
    assert(forall|i: int| 0 <= i < xs.len() ==> #[trigger] xs[i] == args@[i + 1]@);
    let n = args.len();
    if n <= k {
        Err(CliError::MissingArgument)
    } else if n == k + 1 {
        Ok((String::from_str(args[k]), None))
    } else if n == k + 2 {
        Ok((String::from_str(args[k]), Some(String::from_str(args[k + 1]))))
    } else {
        Err(CliError::UnexpectedArgument(String::from_str(args[k + 2])))
    }
}

impl Cli {
    /// The command line `args`, the program's name first.
    pub fn try_parse_from(args: &[&str]) -> (r: Result<Cli, CliError>)
        requires
            args@.len() >= 1,
        ensures
            match (r, spec_parse_args(spec_arg_views(args@))) {
                (Ok(cli), Ok(v)) => cli@ == v,
                (Err(e), Err(f)) => e@ == f,
                _ => false,
            },
    {
        let ghost xs = spec_arg_views(args@);
        if let Some(e) = first_flag_error(args) {
            return Err(e);
        }
        proof {
            reveal_strlit("help");
            reveal_strlit("timeline");
            reveal_strlit("summary");
            reveal_strlit("create");
            reveal_strlit("meeting");
            reveal_strlit("sync");
        }
        let n = args.len();
        if n == 1 {
            return Ok(Cli { command: None });
        }
        assert(xs[0] == args@[1]@);
        let sub = args[1];
        if str_eq(sub, "help") {
            Err(CliError::Help)
        } else if str_eq(sub, "timeline") {
            match one_or_two(args, 2) {
                Ok((first, second)) => Ok(Cli { command: Some(Command::Timeline(TimelineArgs { first, second })) }),
                Err(e) => Err(e),
            }
        } else if str_eq(sub, "summary") {
            if n == 2 {
                return Err(CliError::MissingArgument);
            }
            assert(xs[1] == args@[2]@);
            let sub2 = args[2];
            if str_eq(sub2, "help") {
                Err(CliError::Help)
            } else if !str_eq(sub2, "create") {
                Err(CliError::UnknownCommand(String::from_str(sub2)))
            } else if n < 5 {
                Err(CliError::MissingArgument)
            } else if n > 5 {
                Err(CliError::UnexpectedArgument(String::from_str(args[5])))
            } else {
                Ok(
                    Cli {
                        command: Some(
                            Command::Summary(
                                SummaryArgs {
                                    command: SummaryCommand::Create(
                                        SummaryCreateArgs {
                                            start: String::from_str(args[3]),
                                            end: String::from_str(args[4]),
                                        },
                                    ),
                                },
                            ),
                        ),
                    },
                )
            }
        } else if str_eq(sub, "meeting") {
            if n == 2 {
                return Err(CliError::MissingArgument);
            }
            assert(xs[1] == args@[2]@);
            let sub2 = args[2];
            if str_eq(sub2, "help") {
                Err(CliError::Help)
            } else if !str_eq(sub2, "sync") {
                Err(CliError::UnknownCommand(String::from_str(sub2)))
            } else {
                match one_or_two(args, 3) {
                    Ok((first, second)) => Ok(
                        Cli {
                            command: Some(
                                Command::Meeting(
                                    MeetingArgs { command: MeetingCommand::Sync(SyncArgs { first, second }) },
                                ),
                            ),
                        },
                    ),
                    Err(e) => Err(e),
                }
            }
        } else {
            Err(CliError::UnknownCommand(String::from_str(sub)))
        }
    }
}

/// Summary text read from standard input must not be empty.
#[derive(Debug, PartialEq, Eq)]
pub struct EmptyStdin;

impl EmptyStdin {
    pub fn message(&self) -> (m: &'static str)
        ensures
            m@ == "stdin content cannot be empty"@,
    {
        "stdin content cannot be empty"
    }
}

/// The check `summary create` makes of the text it read before anything else.
pub fn check_summary_input(content: &str) -> (r: Result<(), EmptyStdin>)
    ensures
        r is Ok <==> content@.len() > 0,
{
    if content.unicode_len() == 0 {
        Err(EmptyStdin)
    } else {
        Ok(())
    }
}

} // verus!
