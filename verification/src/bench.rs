//! The `bench` subcommand: `bench [options] [--] [<args>...]`.

use vstd::prelude::*;
use crate::flags::{Command, Flag};
use crate::manifest::{found_view, locate_of, Locate, LocateView};
use crate::outcome::{
    child_failure, engine_failure, manifest_failure, ChildFailure, ChildFailureView, ChildStatus,
    EngineError, EngineErrorView, Failure, FailureKind, FailureView, Outcome, OutcomeView,
    TOOL_FAILURE_CODE,
};
use crate::scan::{
    first_repeat, given, scan, scan_of, value_of, Parsed, ScanView, UsageError, UsageErrorView,
};
use crate::shell::{Shell, ShellView};
use crate::text::{copy_text, copy_texts, count_of, parse_count, text_of, texts};

verus! {

/// The help text of the subcommand.
pub const USAGE: &'static str = "
Execute all benchmarks of a local package

Usage:
    cargo bench [options] [--] [<args>...]

Options:
    -h, --help                   Print this message
    --no-run                     Compile, but don't run benchmarks
    -p SPEC, --package SPEC      Package to run benchmarks for
    -j N, --jobs N               The number of jobs to run in parallel
    --features FEATURES          Space-separated list of features to also build
    --no-default-features        Do not build the `default` feature
    --target TRIPLE              Build for the target triple
    -t NAME, --target-name NAME  Run benchmarks for target with NAME
    --manifest-path PATH         Path to the manifest to build benchmarks for
    -v, --verbose                Use verbose output

All of the trailing arguments are passed to the benchmark binaries generated
for filtering benchmarks and generally providing options configuring how they
run.

If the --package argument is given, then SPEC is a package id specification
which indicates which package should be benchmarked. If it is not given, then
the current package is benchmarked. For more information on SPEC and its format,
see the `cargo help pkgid` command.
";

/// The options of one `bench` invocation.
#[derive(Clone, Debug, PartialEq, Eq)]
pub struct Options {
    pub flag_no_run: bool,
    pub flag_package: Option<String>,
    pub flag_jobs: Option<usize>,
    /// The value of `--features` as it was written; empty if it was not given.
    pub flag_features: Vec<String>,
    pub flag_no_default_features: bool,
    pub flag_target: Option<String>,
    pub flag_target_name: Option<String>,
    pub flag_manifest_path: Option<String>,
    pub flag_verbose: bool,
    /// The free arguments, which go to the benchmark binaries untouched.
    pub arg_args: Vec<String>,
}

pub ghost struct OptionsView {
    pub flag_no_run: bool,
    pub flag_package: Option<Seq<char>>,
    pub flag_jobs: Option<usize>,
    pub flag_features: Seq<Seq<char>>,
    pub flag_no_default_features: bool,
    pub flag_target: Option<Seq<char>>,
    pub flag_target_name: Option<Seq<char>>,
    pub flag_manifest_path: Option<Seq<char>>,
    pub flag_verbose: bool,
    pub arg_args: Seq<Seq<char>>,
}

impl View for Options {
    type V = OptionsView;

    open spec fn view(&self) -> OptionsView {
        OptionsView {
            flag_no_run: self.flag_no_run,
            flag_package: text_of(self.flag_package),
            flag_jobs: self.flag_jobs,
            flag_features: texts(self.flag_features@),
            flag_no_default_features: self.flag_no_default_features,
            flag_target: text_of(self.flag_target),
            flag_target_name: text_of(self.flag_target_name),
            flag_manifest_path: text_of(self.flag_manifest_path),
            flag_verbose: self.flag_verbose,
            arg_args: texts(self.arg_args@),
        }
    }
}

/// A list of the one value, or of nothing.
pub open spec fn listed(value: Option<Seq<char>>) -> Seq<Seq<char>> {
    match value {
        Some(text) => seq![text],
        None => Seq::empty(),
    }
}

/// The options that a scan holds, once `jobs` is read: a switch is set if
/// its flag was given, a value is that of its flag, and the free arguments
/// are kept as they are.
pub open spec fn options_from(scan: ScanView, jobs: Option<usize>) -> OptionsView {
    OptionsView {
        flag_no_run: given(scan.flags, Flag::NoRun),
        flag_package: value_of(scan.flags, Flag::Package),
        flag_jobs: jobs,
        flag_features: listed(value_of(scan.flags, Flag::Features)),
        flag_no_default_features: given(scan.flags, Flag::NoDefaultFeatures),
        flag_target: value_of(scan.flags, Flag::Target),
        flag_target_name: value_of(scan.flags, Flag::TargetName),
        flag_manifest_path: value_of(scan.flags, Flag::ManifestPath),
        flag_verbose: given(scan.flags, Flag::Verbose),
        arg_args: scan.arguments,
    }
}

/// What a scan of the tokens asks of `bench`. A flag given twice is refused;
/// then a request for help wins; then the job count must be a count.
pub open spec fn decoded(scan: ScanView) -> Result<Parsed<OptionsView>, UsageErrorView> {
    match first_repeat(scan.flags, 0) {
        Some(flag) => Err(UsageErrorView::Repeated { flag }),
        None => {
            if given(scan.flags, Flag::Help) {
                Ok(Parsed::Help)
            } else {
                match value_of(scan.flags, Flag::Jobs) {
                    None => Ok(Parsed::Options(options_from(scan, None))),
                    Some(text) => match count_of(text) {
                        Some(jobs) => Ok(Parsed::Options(options_from(scan, Some(jobs)))),
                        None => Err(
                            UsageErrorView::InvalidNumber { flag: Flag::Jobs, value: text },
                        ),
                    },
                }
            }
        },
    }
}

/// What the tokens after `bench` ask for.
pub open spec fn options_of(tokens: Seq<Seq<char>>) -> Result<
    Parsed<OptionsView>,
    UsageErrorView,
> {
    match scan_of(Command::Bench, tokens) {
        Err(error) => Err(error),
        Ok(scan) => decoded(scan),
    }
}

/// The view of a result of parsing.
pub open spec fn parsed_view(result: Result<Parsed<Options>, UsageError>) -> Result<
    Parsed<OptionsView>,
    UsageErrorView,
> {
    match result {
        Ok(Parsed::Help) => Ok(Parsed::Help),
        Ok(Parsed::Options(options)) => Ok(Parsed::Options(options@)),
        Err(error) => Err(error@),
    }
}

impl Options {
    /// Reads the tokens that follow `bench` on the command line.
    ///
    /// The result depends on the tokens alone: it is `options_of` on their
    /// texts. Absent switches are false, absent values unset, and the free
    /// arguments are kept in order.
    pub fn parse(tokens: &Vec<String>) -> (result: Result<Parsed<Options>, UsageError>)
        ensures
            parsed_view(result) == options_of(texts(tokens@)),
    {
        let scanned = match scan(Command::Bench, tokens) {
            Ok(scanned) => scanned,
            Err(error) => {
                return Err(error);
            },
        };
        if let Some(flag) = scanned.repeated() {
            return Err(UsageError::Repeated { flag });
        }
        if scanned.is_given(Flag::Help) {
            return Ok(Parsed::Help);
        }
        let flag_jobs: Option<usize> = match scanned.value_of(Flag::Jobs) {
            None => None,
            Some(text) => match parse_count(text.as_str()) {
                Some(jobs) => Some(jobs),
                None => {
                    return Err(UsageError::InvalidNumber { flag: Flag::Jobs, value: text });
                },
            },
        };
        let flag_features: Vec<String> = match scanned.value_of(Flag::Features) {
            Some(text) => {
                let mut list: Vec<String> = Vec::new();
                list.push(text);
                list
            },
            None => Vec::new(),
        };
        assert(texts(flag_features@) =~= listed(value_of(scanned@.flags, Flag::Features)));
        let options = Options {
            flag_no_run: scanned.is_given(Flag::NoRun),
            flag_package: scanned.value_of(Flag::Package),
            flag_jobs,
            flag_features,
            flag_no_default_features: scanned.is_given(Flag::NoDefaultFeatures),
            flag_target: scanned.value_of(Flag::Target),
            flag_target_name: scanned.value_of(Flag::TargetName),
            flag_manifest_path: scanned.value_of(Flag::ManifestPath),
            flag_verbose: scanned.is_given(Flag::Verbose),
            arg_args: scanned.arguments,
        };
        Ok(Parsed::Options(options))
    }
}


/// The environment that benchmarks are built in.
pub const ENV: &'static str = "bench";

/// What the engine is asked to do for one `bench` invocation.
#[derive(Clone, Debug, PartialEq, Eq)]
pub struct Request {
    /// The manifest that was found for the invocation.
    pub root: String,
    pub no_run: bool,
    pub env: String,
    pub jobs: Option<usize>,
    pub target: Option<String>,
    pub target_name: Option<String>,
    pub dev_deps: bool,
    pub features: Vec<String>,
    pub no_default_features: bool,
    pub spec: Option<String>,
    /// The arguments for the benchmark binaries.
    pub args: Vec<String>,
}

/// What the engine reports of a run of the benchmarks.
#[derive(Clone, Debug, PartialEq, Eq)]
pub enum Report {
    /// The engine succeeded and has nothing more to report.
    Finished,
    /// The engine succeeded, but a process that it spawned did not end well.
    ChildFailed(ChildFailure),
    /// The engine itself failed.
    Failed(EngineError),
}

/// What happened outside since the last step of the command.
#[derive(Debug, PartialEq, Eq)]
pub enum Event {
    /// The command was invoked.
    Invoked,
    /// The search for the manifest ended, with the root or a message.
    Located(Result<String, String>),
    /// The engine returned.
    Ran(Report),
}

/// What is to be done outside next.
#[derive(Clone, Debug, PartialEq, Eq)]
pub enum Action {
    /// Search for the manifest, and come back with `Event::Located`.
    Locate(Locate),
    /// Run the engine, and come back with `Event::Ran`.
    Run(Request),
    /// End the process with this outcome.
    Exit(Outcome),
}

pub ghost struct RequestView {
    pub root: Seq<char>,
    pub no_run: bool,
    pub env: Seq<char>,
    pub jobs: Option<usize>,
    pub target: Option<Seq<char>>,
    pub target_name: Option<Seq<char>>,
    pub dev_deps: bool,
    pub features: Seq<Seq<char>>,
    pub no_default_features: bool,
    pub spec: Option<Seq<char>>,
    pub args: Seq<Seq<char>>,
}

pub ghost enum ReportView {
    Finished,
    ChildFailed(ChildFailureView),
    Failed(EngineErrorView),
}

pub ghost enum EventView {
    Invoked,
    Located(Result<Seq<char>, Seq<char>>),
    Ran(ReportView),
}

pub ghost enum ActionView {
    Locate(LocateView),
    Run(RequestView),
    Exit(OutcomeView),
}

impl View for Request {
    type V = RequestView;

    open spec fn view(&self) -> RequestView {
        RequestView {
            root: self.root@,
            no_run: self.no_run,
            env: self.env@,
            jobs: self.jobs,
            target: text_of(self.target),
            target_name: text_of(self.target_name),
            dev_deps: self.dev_deps,
            features: texts(self.features@),
            no_default_features: self.no_default_features,
            spec: text_of(self.spec),
            args: texts(self.args@),
        }
    }
}

impl View for Report {
    type V = ReportView;

    open spec fn view(&self) -> ReportView {
        match *self {
            Report::Finished => ReportView::Finished,
            Report::ChildFailed(child) => ReportView::ChildFailed(child@),
            Report::Failed(error) => ReportView::Failed(error@),
        }
    }
}

impl View for Event {
    type V = EventView;

    open spec fn view(&self) -> EventView {
        match *self {
            Event::Invoked => EventView::Invoked,
            Event::Located(found) => EventView::Located(found_view(found)),
            Event::Ran(report) => EventView::Ran(report@),
        }
    }
}

impl View for Action {
    type V = ActionView;

    open spec fn view(&self) -> ActionView {
        match *self {
            Action::Locate(locate) => ActionView::Locate(locate@),
            Action::Run(request) => ActionView::Run(request@),
            Action::Exit(outcome) => ActionView::Exit(outcome@),
        }
    }
}

/// The request that the options make for the project at `root`: every option
/// goes to its field, the environment is `bench`, and development
/// dependencies are always included.
pub open spec fn request_of(options: OptionsView, root: Seq<char>) -> RequestView {
    RequestView {
        root,
        no_run: options.flag_no_run,
        env: ENV@,
        jobs: options.flag_jobs,
        target: options.flag_target,
        target_name: options.flag_target_name,
        dev_deps: true,
        features: options.flag_features,
        no_default_features: options.flag_no_default_features,
        spec: options.flag_package,
        args: options.arg_args,
    }
}

/// The outcome that a report of the engine stands for.
pub open spec fn outcome_of(report: ReportView) -> OutcomeView {
    match report {
        ReportView::Finished => OutcomeView::Success,
        ReportView::ChildFailed(child) => OutcomeView::Failed(child_failure(child)),
        ReportView::Failed(error) => OutcomeView::Failed(engine_failure(error)),
    }
}

/// The next action of the command after `event`.
pub open spec fn action_of(options: OptionsView, event: EventView) -> ActionView {
    match event {
        EventView::Invoked => ActionView::Locate(locate_of(options.flag_manifest_path)),
        EventView::Located(Err(message)) => ActionView::Exit(
            OutcomeView::Failed(manifest_failure(message)),
        ),
        EventView::Located(Ok(root)) => ActionView::Run(request_of(options, root)),
        EventView::Ran(report) => ActionView::Exit(outcome_of(report)),
    }
}

/// The output sink after `event`: the invocation sets its verbosity, and
/// nothing else touches it.
pub open spec fn shell_after(shell: ShellView, options: OptionsView, event: EventView)
    -> ShellView {
    match event {
        EventView::Invoked => shell.verbosity(options.flag_verbose),
        _ => shell,
    }
}

impl Request {
    /// Builds the request for the project at `root`.
    pub fn new(options: &Options, root: String) -> (request: Request)
        ensures
            request@ == request_of(options@, root@),
    {
        Request {
            root,
            no_run: options.flag_no_run,
            env: ENV.to_owned(),
            jobs: options.flag_jobs,
            target: copy_text(&options.flag_target),
            target_name: copy_text(&options.flag_target_name),
            dev_deps: true,
            features: copy_texts(&options.flag_features),
            no_default_features: options.flag_no_default_features,
            spec: copy_text(&options.flag_package),
            args: copy_texts(&options.arg_args),
        }
    }
}

impl Report {
    /// Turns what the engine reported into the outcome of the command.
    pub fn interpret(self) -> (outcome: Outcome)
        ensures
            outcome@ == outcome_of(self@),
    {
        match self {
            Report::Finished => Outcome::Success,
            Report::ChildFailed(child) => Outcome::Failed(Failure::from_child(child)),
            Report::Failed(error) => Outcome::Failed(Failure::from_engine(error)),
        }
    }
}

/// Takes one step of the `bench` command.
///
/// The caller starts with `Event::Invoked`, performs the action that comes
/// back, and returns with the event that the action produced, until the
/// action is `Action::Exit`. The verbosity is set on the invocation, before
/// anything else; a manifest that is not found ends the command before the
/// engine is asked for anything.
pub fn execute(options: &Options, shell: &mut Shell, event: Event) -> (action: Action)
    ensures
        action@ == action_of(options@, event@),
        final(shell)@ == shell_after(old(shell)@, options@, event@),
{
    match event {
        Event::Invoked => {
            shell.set_verbose(options.flag_verbose);
            Action::Locate(Locate::new(&options.flag_manifest_path))
        },
        Event::Located(Err(message)) => Action::Exit(
            Outcome::Failed(Failure::manifest_not_found(message)),
        ),
        Event::Located(Ok(root)) => Action::Run(Request::new(options, root)),
        Event::Ran(report) => Action::Exit(report.interpret()),
    }
}


/// A benchmark process that exits with a status code gives the command that
/// very code, and no message: the failure is that of the benchmarks, not of
/// the tool.
pub proof fn child_status_passes_through(options: OptionsView, child: ChildFailureView, code: i32)
    requires
        child.status == ChildStatus::Exited(code),
    ensures
        action_of(options, EventView::Ran(ReportView::ChildFailed(child))) matches ActionView::Exit(
            outcome,
        ) && outcome.exit_code() == code && outcome.message() == Seq::<char>::empty(),
{
}

/// A benchmark process that ended without a status code of its own is a
/// failure of the tool, with the engine's message.
pub proof fn child_without_status_is_tool_failure(options: OptionsView, child: ChildFailureView)
    requires
        !(child.status is Exited),
    ensures
        action_of(options, EventView::Ran(ReportView::ChildFailed(child))) matches ActionView::Exit(
            outcome,
        ) && outcome.exit_code() == TOOL_FAILURE_CODE && outcome.message() == child.message,
{
}

/// A failure of the engine that is not about a spawned process ends the
/// command with the tool's exit code and the engine's message.
pub proof fn engine_failure_is_tool_failure(options: OptionsView, error: EngineErrorView)
    ensures
        action_of(options, EventView::Ran(ReportView::Failed(error))) matches ActionView::Exit(
            outcome,
        ) && outcome.exit_code() == TOOL_FAILURE_CODE && outcome.message() == error.message,
{
}

/// Without a manifest the command ends at once, as a failure of the tool
/// with the locator's message. The engine is not asked for anything: the
/// only action that runs it follows a manifest that was found.
pub proof fn missing_manifest_ends_command(options: OptionsView, message: Seq<char>)
    ensures
        action_of(options, EventView::Located(Err(message))) == ActionView::Exit(
            OutcomeView::Failed(
                FailureView::Tool { kind: FailureKind::ManifestNotFound, message },
            ),
        ),
        !(action_of(options, EventView::Invoked) is Run),
        forall|event: EventView| #[trigger]
            action_of(options, event) is Run ==> event matches EventView::Located(Ok(_)),
{
}

/// A manifest path on the command line decides where the manifest is looked
/// for; the working directory plays no part in it.
pub proof fn manifest_path_overrides_search(options: OptionsView, path: Seq<char>)
    requires
        options.flag_manifest_path == Some(path),
    ensures
        action_of(options, EventView::Invoked) == ActionView::Locate(LocateView::Given(path)),
{
}

} // verus!
