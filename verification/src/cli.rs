//! The command line as data, and the plan of a run: what is to be done, in
//! order, for the command that was given.

use crate::text::{integer_text, integer_to_string};
use vstd::prelude::*;
use vstd::string::StringExecFns;

verus! {

/// Which of the statistics of the athlete to show.
#[derive(Debug, Clone, Copy, PartialEq, Eq, Structural)]
pub enum StatsOption {
    /// All statistics.
    All,
    /// The runs of this year.
    YtdRun,
    /// The distance of the runs of this year, in miles.
    YtdRunMiles,
    /// The rides of this year.
    YtdRide,
    /// The swims of this year.
    YtdSwim,
    /// The runs of the last four weeks.
    RecentRun,
    /// The distance of the runs of the last four weeks, in miles.
    RecentRunMiles,
    /// The swims of the last four weeks.
    RecentSwim,
    /// The rides of the last four weeks.
    RecentRide,
}

/// One of the totals that the statistics of an athlete hold.
#[derive(Debug, Clone, Copy, PartialEq, Eq, Structural)]
pub enum Totals {
    YtdRun,
    YtdRide,
    YtdSwim,
    RecentRun,
    RecentSwim,
    RecentRide,
}

/// What to show of the statistics of an athlete.
#[derive(Debug, Clone, Copy, PartialEq, Eq, Structural)]
pub enum StatsSelection {
    /// The statistics as a whole.
    Everything,
    /// One of the totals, with all that it holds.
    Whole(Totals),
    /// The distance of one of the totals, in miles.
    Miles(Totals),
}

impl StatsOption {
    /// What the option asks to be shown.
    pub open spec fn spec_selection(self) -> StatsSelection {
        match self {
            StatsOption::All => StatsSelection::Everything,
            StatsOption::YtdRun => StatsSelection::Whole(Totals::YtdRun),
            StatsOption::YtdRunMiles => StatsSelection::Miles(Totals::YtdRun),
            StatsOption::YtdRide => StatsSelection::Whole(Totals::YtdRide),
            StatsOption::YtdSwim => StatsSelection::Whole(Totals::YtdSwim),
            StatsOption::RecentRun => StatsSelection::Whole(Totals::RecentRun),
            StatsOption::RecentRunMiles => StatsSelection::Miles(Totals::RecentRun),
            StatsOption::RecentSwim => StatsSelection::Whole(Totals::RecentSwim),
            StatsOption::RecentRide => StatsSelection::Whole(Totals::RecentRide),
        }
    }

    /// What the option asks to be shown.
    #[verifier::when_used_as_spec(spec_selection)]
    pub fn selection(self) -> (selection: StatsSelection)
        ensures
            selection == self.spec_selection(),
    {
        match self {
            StatsOption::All => StatsSelection::Everything,
            StatsOption::YtdRun => StatsSelection::Whole(Totals::YtdRun),
            StatsOption::YtdRunMiles => StatsSelection::Miles(Totals::YtdRun),
            StatsOption::YtdRide => StatsSelection::Whole(Totals::YtdRide),
            StatsOption::YtdSwim => StatsSelection::Whole(Totals::YtdSwim),
            StatsOption::RecentRun => StatsSelection::Whole(Totals::RecentRun),
            StatsOption::RecentRunMiles => StatsSelection::Miles(Totals::RecentRun),
            StatsOption::RecentSwim => StatsSelection::Whole(Totals::RecentSwim),
            StatsOption::RecentRide => StatsSelection::Whole(Totals::RecentRide),
        }
    }
}

/// The commands of the tool.
#[derive(Debug, Clone, Copy, PartialEq, Eq)]
pub enum Commands {
    /// Read the weight from Withings.
    Withings {
        /// How many days back the measurements may lie.
        last_weight: i64,
        /// Whether to send the weight on to Strava.
        strava_sync: bool,
    },
    /// Talk to Strava.
    Strava {
        /// Register the tool with Strava; needed once, before anything else.
        register: bool,
        /// Show the athlete.
        get_athlete: bool,
        /// Show statistics of the athlete.
        get_stats: Option<StatsOption>,
    },
}

/// The command line, parsed.
#[derive(Debug, Clone, Copy, PartialEq, Eq)]
pub struct Cli {
    /// Whether to log.
    pub log: bool,
    pub command: Option<Commands>,
}

/// One step of a run. A step that fails ends the run.
#[derive(Debug, Clone, PartialEq, Eq)]
pub enum Action {
    /// Start the logger.
    EnableLogging,
    /// Print the line.
    Print(String),
    /// Look up the weight of the last so many days and keep it, in kilograms,
    /// for the steps that follow.
    ReadWeight(i64),
    /// Print the weight that was kept.
    PrintWeight,
    /// Send the weight that was kept to Strava.
    SyncWeight,
    /// Register the tool with Strava.
    Register,
    /// Fetch the athlete and print it.
    ShowAthlete,
    /// Fetch the statistics of the athlete and print the selection.
    ShowStats(StatsSelection),
}

/// An `Action` as a mathematical value.
pub enum ActionView {
    EnableLogging,
    Print(Seq<char>),
    ReadWeight(i64),
    PrintWeight,
    SyncWeight,
    Register,
    ShowAthlete,
    ShowStats(StatsSelection),
}

impl View for Action {
    type V = ActionView;

    open spec fn view(&self) -> ActionView {
        match self {
            Action::EnableLogging => ActionView::EnableLogging,
            Action::Print(line) => ActionView::Print(line@),
            Action::ReadWeight(days) => ActionView::ReadWeight(*days),
            Action::PrintWeight => ActionView::PrintWeight,
            Action::SyncWeight => ActionView::SyncWeight,
            Action::Register => ActionView::Register,
            Action::ShowAthlete => ActionView::ShowAthlete,
            Action::ShowStats(selection) => ActionView::ShowStats(*selection),
        }
    }
}

/// The steps of a plan as mathematical values, in order.
pub open spec fn views(actions: Seq<Action>) -> Seq<ActionView> {
    Seq::new(actions.len(), |i: int| actions[i]@)
}

/// `step` where `wanted` holds, nothing where it does not.
pub open spec fn when(wanted: bool, step: ActionView) -> Seq<ActionView> {
    if wanted {
        seq![step]
    } else {
        Seq::<ActionView>::empty()
    }
}

/// The line that shows whether the weight goes on to Strava.
pub open spec fn sync_flag_line(strava_sync: bool) -> Seq<char> {
    if strava_sync {
        "strava_sync: true"@
    } else {
        "strava_sync: false"@
    }
}

/// The plan of the command `withings`: read the weight, print it, print the
/// flag, and send the weight to Strava where the flag is set.
pub open spec fn withings_plan(last_weight: i64, strava_sync: bool) -> Seq<ActionView> {
    seq![
        ActionView::ReadWeight(last_weight),
        ActionView::PrintWeight,
        ActionView::Print(sync_flag_line(strava_sync)),
    ] + when(strava_sync, ActionView::SyncWeight)
}

/// The plan of the command `strava`: of registering, showing the athlete and
/// showing statistics, those that were asked for, in this order.
pub open spec fn strava_plan(
    register: bool,
    get_athlete: bool,
    get_stats: Option<StatsOption>,
) -> Seq<ActionView> {
    when(register, ActionView::Register) + when(get_athlete, ActionView::ShowAthlete) + (
    match get_stats {
        Some(option) => seq![ActionView::ShowStats(option.spec_selection())],
        None => Seq::<ActionView>::empty(),
    })
}

/// The plan of a command, or of none: then a line says so.
pub open spec fn command_plan(command: Option<Commands>) -> Seq<ActionView> {
    match command {
        Some(Commands::Withings { last_weight, strava_sync }) => withings_plan(
            last_weight,
            strava_sync,
        ),
        Some(Commands::Strava { register, get_athlete, get_stats }) => strava_plan(
            register,
            get_athlete,
            get_stats,
        ),
        None => seq![ActionView::Print("No command specified"@)],
    }
}

/// The plan of a run: the logger first where it was asked for, then the plan
/// of the command.
pub open spec fn plan(args: Cli) -> Seq<ActionView> {
    when(args.log, ActionView::EnableLogging) + command_plan(args.command)
}

/// In the plan of every command line, a step that prints or sends the weight
/// comes after a step that reads it.
pub proof fn lemma_weight_is_read_first(args: Cli, i: int)
    requires
        0 <= i < plan(args).len(),
        plan(args)[i] == ActionView::PrintWeight || plan(args)[i] == ActionView::SyncWeight,
    ensures
        exists|j: int| 0 <= j < i && #[trigger] plan(args)[j] is ReadWeight,
{
    let offset: int = if args.log {
        1
    } else {
        0
    };
    match args.command {
        Some(Commands::Withings { last_weight, strava_sync }) => {
            assert(plan(args)[offset] is ReadWeight);
        },
        Some(Commands::Strava { register, get_athlete, get_stats }) => {},
        None => {},
    }
}

/// Plans the run that the command line `args` asks for.
pub fn cli(args: &Cli) -> (actions: Vec<Action>)
    ensures
        views(actions@) == plan(*args),
{
    let mut actions: Vec<Action> = Vec::new();
    if args.log {
        actions.push(Action::EnableLogging);
    }
    match args.command {
        Some(Commands::Withings { last_weight, strava_sync }) => {
            actions.push(Action::ReadWeight(last_weight));
            actions.push(Action::PrintWeight);
            if strava_sync {
                actions.push(Action::Print(String::from_str("strava_sync: true")));
                actions.push(Action::SyncWeight);
            } else {
                actions.push(Action::Print(String::from_str("strava_sync: false")));
            }
        },
        Some(Commands::Strava { register, get_athlete, get_stats }) => {
            if register {
                actions.push(Action::Register);
            }
            if get_athlete {
                actions.push(Action::ShowAthlete);
            }
            if let Some(option) = get_stats {
                actions.push(Action::ShowStats(option.selection()));
            }
        },
        None => {
            actions.push(Action::Print(String::from_str("No command specified")));
        },
    }
    assert(views(actions@) =~= plan(*args));
    actions
}

/// The line that announces a lookup of the weight of the last `days` days.
/// It ends in a line break, so that an empty line follows it when printed.
pub open spec fn lookup_line(days: i64) -> Seq<char> {
    "Getting weight for the day from "@ + integer_text(days as int) + "\n"@
}

/// The plan of a run that was given at most a number of days and the sync
/// flag: with the days, announce the lookup, read the weight, and send it to
/// Strava where the flag is set; without them, nothing.
pub open spec fn lookup_plan(last: Option<i64>, strava_sync: bool) -> Seq<ActionView> {
    match last {
        Some(days) => seq![ActionView::Print(lookup_line(days)), ActionView::ReadWeight(days)]
            + when(strava_sync, ActionView::SyncWeight),
        None => Seq::<ActionView>::empty(),
    }
}

/// In the plan of the plain form too, the weight is read before it is sent.
pub proof fn lemma_lookup_reads_first(last: Option<i64>, strava_sync: bool, i: int)
    requires
        0 <= i < lookup_plan(last, strava_sync).len(),
        lookup_plan(last, strava_sync)[i] == ActionView::SyncWeight,
    ensures
        exists|j: int| 0 <= j < i && #[trigger] lookup_plan(last, strava_sync)[j] is ReadWeight,
{
    assert(lookup_plan(last, strava_sync)[1] is ReadWeight);
}

/// Plans the run of the `withings` command in its plain form, where the
/// number of days is optional and nothing is done without it.
pub fn process_cli(last: Option<i64>, strava_sync: bool) -> (actions: Vec<Action>)
    ensures
        views(actions@) == lookup_plan(last, strava_sync),
{
    let mut actions: Vec<Action> = Vec::new();
    if let Some(days) = last {
        let mut line = String::from_str("Getting weight for the day from ");
        let number = integer_to_string(days as i128);
        line.append(number.as_str());
        line.append("\n");
        actions.push(Action::Print(line));
        actions.push(Action::ReadWeight(days));
        if strava_sync {
            actions.push(Action::SyncWeight);
        }
    }
    assert(views(actions@) =~= lookup_plan(last, strava_sync));
    actions
}

} // verus!
