//! The `update` subcommand: `update [options] [<spec>]`.

use vstd::prelude::*;
use crate::flags::{Command, Flag};
use crate::manifest::{found_view, locate_of, Locate, LocateView};
use crate::outcome::{
    engine_failure, manifest_failure, EngineError, EngineErrorView, Failure, FailureKind,
    FailureView, Outcome, OutcomeView, TOOL_FAILURE_CODE,
};
use crate::scan::{
    first_repeat, given, scan, scan_of, value_of, Parsed, ScanView, UsageError, UsageErrorView,
};
use crate::shell::{Shell, ShellView};
use crate::text::{copy_text, text_of, texts};

verus! {

/// The help text of the subcommand.
pub const USAGE: &'static str = "
Update dependencies as recorded in the local lock file.

Usage:
    cargo update [options]
    cargo update [options] <spec>

Options:
    -h, --help               Print this message
    -p SPEC, --package SPEC  Package to run benchmarks for
    --aggressive             Force updating all dependencies of <name> as well
    --precise PRECISE        Update a single dependency to exactly PRECISE
    --manifest-path PATH     Path to the manifest to compile
    -v, --verbose            Use verbose output

This command requires that a `Cargo.lock` already exists as generated by
`cargo build` or related commands.

If SPEC is given, then a conservative update of the lockfile will be
performed. This means that only the dependency specified by SPEC will be
updated. Its transitive dependencies will be updated only if SPEC cannot be
updated without updating dependencies.  All other dependencies will remain
locked at their currently recorded versions.

If PRECISE is specified, then --aggressive must not also be specified. The
argument PRECISE is a string representing a precise revision that the package
being updated should be updated to. For example, if the package comes from a git
repository, then PRECISE would be the exact revision that the repository should
be updated to.

If SPEC is not given, then all dependencies will be re-resolved and
updated.

For more information about package id specifications, see `cargo help pkgid`.
";

/// The warning for a package that is named without `-p`.
pub const DEPRECATION: &'static str =
    "`cargo update foo` has been deprecated in favor of `cargo update -p foo`. This functionality will be removed in the future";

/// The options of one `update` invocation.
#[derive(Clone, Debug, PartialEq, Eq)]
pub struct Options {
    pub flag_package: Option<String>,
    pub flag_aggressive: bool,
    pub flag_precise: Option<String>,
    pub flag_manifest_path: Option<String>,
    pub flag_verbose: bool,
    /// The package named as a free argument, the older way of naming it.
    pub arg_spec: Option<String>,
}

pub ghost struct OptionsView {
    pub flag_package: Option<Seq<char>>,
    pub flag_aggressive: bool,
    pub flag_precise: Option<Seq<char>>,
    pub flag_manifest_path: Option<Seq<char>>,
    pub flag_verbose: bool,
    pub arg_spec: Option<Seq<char>>,
}

impl View for Options {
    type V = OptionsView;

    open spec fn view(&self) -> OptionsView {
        OptionsView {
            flag_package: text_of(self.flag_package),
            flag_aggressive: self.flag_aggressive,
            flag_precise: text_of(self.flag_precise),
            flag_manifest_path: text_of(self.flag_manifest_path),
            flag_verbose: self.flag_verbose,
            arg_spec: text_of(self.arg_spec),
        }
    }
}

/// The first of the arguments, if there is one.
pub open spec fn first_argument(arguments: Seq<Seq<char>>) -> Option<Seq<char>> {
    if arguments.len() > 0 {
        Some(arguments[0])
    } else {
        None
    }
}

/// The options that a scan holds: a switch is set if its flag was given, a
/// value is that of its flag, and the free argument is the package.
pub open spec fn options_from(scan: ScanView) -> OptionsView {
    OptionsView {
        flag_package: value_of(scan.flags, Flag::Package),
        flag_aggressive: given(scan.flags, Flag::Aggressive),
        flag_precise: value_of(scan.flags, Flag::Precise),
        flag_manifest_path: value_of(scan.flags, Flag::ManifestPath),
        flag_verbose: given(scan.flags, Flag::Verbose),
        arg_spec: first_argument(scan.arguments),
    }
}

/// What a scan of the tokens asks of `update`. A flag given twice is
/// refused; then a second free argument; then a request for help wins.
pub open spec fn decoded(scan: ScanView) -> Result<Parsed<OptionsView>, UsageErrorView> {
    match first_repeat(scan.flags, 0) {
        Some(flag) => Err(UsageErrorView::Repeated { flag }),
        None => {
            if scan.arguments.len() > 1 {
                Err(UsageErrorView::UnexpectedArgument { argument: scan.arguments[1] })
            } else if given(scan.flags, Flag::Help) {
                Ok(Parsed::Help)
            } else {
                Ok(Parsed::Options(options_from(scan)))
            }
        },
    }
}

/// What the tokens after `update` ask for.
pub open spec fn options_of(tokens: Seq<Seq<char>>) -> Result<
    Parsed<OptionsView>,
    UsageErrorView,
> {
    match scan_of(Command::Update, tokens) {
        Err(error) => Err(error),
        Ok(scan) => decoded(scan),
    }
}

/// The view of a result of parsing.
pub open spec fn parsed_view(result: Result<Parsed<Options>, UsageError>) -> Result<
    Parsed<OptionsView>,
    UsageErrorView,
> {
    match result {
        Ok(Parsed::Help) => Ok(Parsed::Help),
        Ok(Parsed::Options(options)) => Ok(Parsed::Options(options@)),
        Err(error) => Err(error@),
    }
}

impl Options {
    /// Reads the tokens that follow `update` on the command line.
    ///
    /// The result depends on the tokens alone: it is `options_of` on their
    /// texts. Absent switches are false and absent values unset.
    pub fn parse(tokens: &Vec<String>) -> (result: Result<Parsed<Options>, UsageError>)
        ensures
            parsed_view(result) == options_of(texts(tokens@)),
    {
        let scanned = match scan(Command::Update, tokens) {
            Ok(scanned) => scanned,
            Err(error) => {
                return Err(error);
            },
        };
        if let Some(flag) = scanned.repeated() {
            return Err(UsageError::Repeated { flag });
        }
        if scanned.arguments.len() > 1 {
            return Err(UsageError::UnexpectedArgument { argument: scanned.arguments[1].clone() });
        }
        if scanned.is_given(Flag::Help) {
            return Ok(Parsed::Help);
        }
        let arg_spec: Option<String> = if scanned.arguments.len() > 0 {
            Some(scanned.arguments[0].clone())
        } else {
            None
        };
        let options = Options {
            flag_package: scanned.value_of(Flag::Package),
            flag_aggressive: scanned.is_given(Flag::Aggressive),
            flag_precise: scanned.value_of(Flag::Precise),
            flag_manifest_path: scanned.value_of(Flag::ManifestPath),
            flag_verbose: scanned.is_given(Flag::Verbose),
            arg_spec,
        };
        Ok(Parsed::Options(options))
    }
}


/// What the engine is asked to do for one `update` invocation.
#[derive(Clone, Debug, PartialEq, Eq)]
pub struct Request {
    /// The manifest that was found for the invocation.
    pub root: String,
    /// The package to update; every package if none is named.
    pub to_update: Option<String>,
    pub aggressive: bool,
    pub precise: Option<String>,
}

/// What the engine reports of an update.
#[derive(Clone, Debug, PartialEq, Eq)]
pub enum Report {
    /// The lock file was updated.
    Updated,
    /// The engine failed.
    Failed(EngineError),
}

/// What happened outside since the last step of the command.
#[derive(Debug, PartialEq, Eq)]
pub enum Event {
    /// The command was invoked.
    Invoked,
    /// The search for the manifest ended, with the root or a message.
    Located(Result<String, String>),
    /// The engine returned.
    Ran(Report),
}

/// What is to be done outside next.
#[derive(Clone, Debug, PartialEq, Eq)]
pub enum Action {
    /// Search for the manifest, and come back with `Event::Located`.
    Locate(Locate),
    /// Run the engine, and come back with `Event::Ran`.
    Run(Request),
    /// End the process with this outcome.
    Exit(Outcome),
}

pub ghost struct RequestView {
    pub root: Seq<char>,
    pub to_update: Option<Seq<char>>,
    pub aggressive: bool,
    pub precise: Option<Seq<char>>,
}

pub ghost enum ReportView {
    Updated,
    Failed(EngineErrorView),
}

pub ghost enum EventView {
    Invoked,
    Located(Result<Seq<char>, Seq<char>>),
    Ran(ReportView),
}

pub ghost enum ActionView {
    Locate(LocateView),
    Run(RequestView),
    Exit(OutcomeView),
}

impl View for Request {
    type V = RequestView;

    open spec fn view(&self) -> RequestView {
        RequestView {
            root: self.root@,
            to_update: text_of(self.to_update),
            aggressive: self.aggressive,
            precise: text_of(self.precise),
        }
    }
}

impl View for Report {
    type V = ReportView;

    open spec fn view(&self) -> ReportView {
        match *self {
            Report::Updated => ReportView::Updated,
            Report::Failed(error) => ReportView::Failed(error@),
        }
    }
}

impl View for Event {
    type V = EventView;

    open spec fn view(&self) -> EventView {
        match *self {
            Event::Invoked => EventView::Invoked,
            Event::Located(found) => EventView::Located(found_view(found)),
            Event::Ran(report) => EventView::Ran(report@),
        }
    }
}

impl View for Action {
    type V = ActionView;

    open spec fn view(&self) -> ActionView {
        match *self {
            Action::Locate(locate) => ActionView::Locate(locate@),
            Action::Run(request) => ActionView::Run(request@),
            Action::Exit(outcome) => ActionView::Exit(outcome@),
        }
    }
}

/// The package that is meant where it may be named in two ways: the older
/// way wins where it is used.
pub open spec fn resolved(legacy: Option<Seq<char>>, current: Option<Seq<char>>) -> Option<
    Seq<char>,
> {
    if legacy is Some {
        legacy
    } else {
        current
    }
}

/// The output sink after the package was resolved: one warning more if it
/// was named the older way.
pub open spec fn shell_resolved(shell: ShellView, legacy: Option<Seq<char>>) -> ShellView {
    if legacy is Some {
        shell.warned(DEPRECATION@)
    } else {
        shell
    }
}

/// The request that the options make for the project at `root`.
pub open spec fn request_of(options: OptionsView, root: Seq<char>) -> RequestView {
    RequestView {
        root,
        to_update: resolved(options.arg_spec, options.flag_package),
        aggressive: options.flag_aggressive,
        precise: options.flag_precise,
    }
}

/// True if the request breaks what the engine demands of its caller: a
/// precise version together with an aggressive update.
pub open spec fn conflicting(request: RequestView) -> bool {
    request.precise is Some && request.aggressive
}

/// The outcome that a report of the engine stands for.
pub open spec fn outcome_of(report: ReportView) -> OutcomeView {
    match report {
        ReportView::Updated => OutcomeView::Success,
        ReportView::Failed(error) => OutcomeView::Failed(engine_failure(error)),
    }
}

/// The next action of the command after `event`.
pub open spec fn action_of(options: OptionsView, event: EventView) -> ActionView {
    match event {
        EventView::Invoked => ActionView::Locate(locate_of(options.flag_manifest_path)),
        EventView::Located(Err(message)) => ActionView::Exit(
            OutcomeView::Failed(manifest_failure(message)),
        ),
        EventView::Located(Ok(root)) => ActionView::Run(request_of(options, root)),
        EventView::Ran(report) => ActionView::Exit(outcome_of(report)),
    }
}

/// The output sink after `event`: the invocation sets its verbosity, and a
/// manifest that was found is followed by the warning for a package named
/// the older way.
pub open spec fn shell_after(shell: ShellView, options: OptionsView, event: EventView)
    -> ShellView {
    match event {
        EventView::Invoked => shell.verbosity(options.flag_verbose),
        EventView::Located(Ok(_)) => shell_resolved(shell, options.arg_spec),
        _ => shell,
    }
}

/// Picks the package to update from the two ways of naming it, and warns
/// once through `shell` if the older way was used.
pub fn resolve(legacy: &Option<String>, current: &Option<String>, shell: &mut Shell) -> (target:
    Option<String>)
    ensures
        text_of(target) == resolved(text_of(*legacy), text_of(*current)),
        final(shell)@ == shell_resolved(old(shell)@, text_of(*legacy)),
{
    match legacy {
        Some(spec) => {
            shell.warn(DEPRECATION);
            Some(spec.clone())
        },
        None => copy_text(current),
    }
}

impl Request {
    /// Builds the request for the project at `root`, and warns through
    /// `shell` if the package was named the older way.
    pub fn new(options: &Options, root: String, shell: &mut Shell) -> (request: Request)
        ensures
            request@ == request_of(options@, root@),
            final(shell)@ == shell_resolved(old(shell)@, options@.arg_spec),
    {
        let to_update = resolve(&options.arg_spec, &options.flag_package, shell);
        Request {
            root,
            to_update,
            aggressive: options.flag_aggressive,
            precise: copy_text(&options.flag_precise),
        }
    }

    /// True if the request asks for a precise version and for an aggressive
    /// update at once, which the engine refuses.
    pub fn is_conflicting(&self) -> (yes: bool)
        ensures
            yes == conflicting(self@),
    {
        self.precise.is_some() && self.aggressive
    }
}

impl Report {
    /// Turns what the engine reported into the outcome of the command.
    pub fn interpret(self) -> (outcome: Outcome)
        ensures
            outcome@ == outcome_of(self@),
    {
        match self {
            Report::Updated => Outcome::Success,
            Report::Failed(error) => Outcome::Failed(Failure::from_engine(error)),
        }
    }
}

/// Takes one step of the `update` command.
///
/// The caller starts with `Event::Invoked`, performs the action that comes
/// back, and returns with the event that the action produced, until the
/// action is `Action::Exit`. The verbosity is set on the invocation, before
/// anything else; a manifest that is not found ends the command before the
/// engine is asked for anything. Whether a precise version goes with an
/// aggressive update is left to the engine to refuse.
pub fn execute(options: &Options, shell: &mut Shell, event: Event) -> (action: Action)
    ensures
        action@ == action_of(options@, event@),
        final(shell)@ == shell_after(old(shell)@, options@, event@),
{
    match event {
        Event::Invoked => {
            shell.set_verbose(options.flag_verbose);
            Action::Locate(Locate::new(&options.flag_manifest_path))
        },
        Event::Located(Err(message)) => Action::Exit(
            Outcome::Failed(Failure::manifest_not_found(message)),
        ),
        Event::Located(Ok(root)) => Action::Run(Request::new(options, root, shell)),
        Event::Ran(report) => Action::Exit(report.interpret()),
    }
}


/// The output sink after a whole run of the command: the invocation, the
/// search for the manifest, and the engine.
pub open spec fn shell_after_run(
    shell: ShellView,
    options: OptionsView,
    root: Seq<char>,
    report: ReportView,
) -> ShellView {
    let invoked = shell_after(shell, options, EventView::Invoked);
    let located = shell_after(invoked, options, EventView::Located(Ok(root)));
    shell_after(located, options, EventView::Ran(report))
}

/// A package named the older way wins over one named with `-p`, and a run
/// of the command then emits the deprecation warning exactly once.
pub proof fn legacy_spec_wins(
    options: OptionsView,
    shell: ShellView,
    root: Seq<char>,
    report: ReportView,
)
    requires
        options.arg_spec is Some,
    ensures
        action_of(options, EventView::Located(Ok(root))) matches ActionView::Run(request)
            && request.to_update == options.arg_spec,
        shell_after_run(shell, options, root, report).warnings == shell.warnings.push(
            DEPRECATION@,
        ),
{
}

/// A package named with `-p` alone is the one to update, and a run of the
/// command then emits no warning.
pub proof fn package_flag_alone_is_silent(
    options: OptionsView,
    shell: ShellView,
    root: Seq<char>,
    report: ReportView,
)
    requires
        options.arg_spec is None,
    ensures
        action_of(options, EventView::Located(Ok(root))) matches ActionView::Run(request)
            && request.to_update == options.flag_package,
        shell_after_run(shell, options, root, report).warnings == shell.warnings,
{
}

/// True if the engine refused the request as conflicting where it is so.
pub open spec fn refuses_conflict(request: RequestView, report: ReportView) -> bool {
    conflicting(request) ==> (report matches ReportView::Failed(error)
        && error.conflicting_options)
}

/// The request conflicts exactly where `--precise` and `--aggressive` were
/// both given. With an engine that refuses such a request the command then
/// fails for conflicting options, with the tool's exit code; with only one
/// of the two, an update that succeeds is a success of the command.
pub proof fn precise_excludes_aggressive(
    options: OptionsView,
    root: Seq<char>,
    report: ReportView,
)
    requires
        refuses_conflict(request_of(options, root), report),
    ensures
        conflicting(request_of(options, root)) <==> (options.flag_precise is Some
            && options.flag_aggressive),
        (options.flag_precise is Some && options.flag_aggressive) ==> (outcome_of(
            report,
        ) matches OutcomeView::Failed(FailureView::Tool { kind, .. })
            && kind == FailureKind::ConflictingOptions && outcome_of(report).exit_code()
            == TOOL_FAILURE_CODE),
        (!(options.flag_precise is Some && options.flag_aggressive) && report is Updated)
            ==> outcome_of(report) is Success,
{
}

/// A failure of the engine ends the command with the tool's exit code and
/// the engine's message.
pub proof fn engine_failure_is_tool_failure(options: OptionsView, error: EngineErrorView)
    ensures
        action_of(options, EventView::Ran(ReportView::Failed(error))) matches ActionView::Exit(
            outcome,
        ) && outcome.exit_code() == TOOL_FAILURE_CODE && outcome.message() == error.message,
{
}

/// Without a manifest the command ends at once, as a failure of the tool
/// with the locator's message. The engine is not asked for anything: the
/// only action that runs it follows a manifest that was found.
pub proof fn missing_manifest_ends_command(options: OptionsView, message: Seq<char>)
    ensures
        action_of(options, EventView::Located(Err(message))) == ActionView::Exit(
            OutcomeView::Failed(
                FailureView::Tool { kind: FailureKind::ManifestNotFound, message },
            ),
        ),
        !(action_of(options, EventView::Invoked) is Run),
        forall|event: EventView| #[trigger]
            action_of(options, event) is Run ==> event matches EventView::Located(Ok(_)),
{
}

/// A manifest path on the command line decides where the manifest is looked
/// for; the working directory plays no part in it.
pub proof fn manifest_path_overrides_search(options: OptionsView, path: Seq<char>)
    requires
        options.flag_manifest_path == Some(path),
    ensures
        action_of(options, EventView::Invoked) == ActionView::Locate(LocateView::Given(path)),
{
}

} // verus!
