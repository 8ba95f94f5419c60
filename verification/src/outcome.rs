//! What a command reports when it ends: success, a failure of the tool
//! itself, or the exit status of a child process handed through.

use vstd::prelude::*;

verus! {

/// Exit code of every failure that belongs to the tool itself.
pub const TOOL_FAILURE_CODE: i32 = 101;

/// Why the tool itself failed.
#[derive(Clone, Copy, Debug, PartialEq, Eq, Structural)]
pub enum FailureKind {
    /// No manifest was found for the invocation.
    ManifestNotFound,
    /// The engine refused a combination of options.
    ConflictingOptions,
    /// Any other failure that the engine reported.
    Engine,
}

/// How a spawned process ended.
#[derive(Clone, Copy, Debug, PartialEq, Eq, Structural)]
pub enum ChildStatus {
    /// The process ran and exited with this status code.
    Exited(i32),
    /// The process was ended by this signal.
    Signaled(i32),
    /// The process could not be launched, or its status is unknown.
    NotLaunched,
}

/// A spawned process that did not end well, as the engine reports it.
#[derive(Clone, Debug, PartialEq, Eq)]
pub struct ChildFailure {
    pub status: ChildStatus,
    pub message: String,
}

/// A structured failure of the engine.
#[derive(Clone, Debug, PartialEq, Eq)]
pub struct EngineError {
    /// True if the engine refused the request because its options conflict.
    pub conflicting_options: bool,
    pub message: String,
}

/// A failed command.
#[derive(Clone, Debug, PartialEq, Eq)]
pub enum Failure {
    /// The tool failed: a message for the user, and the fixed exit code.
    Tool { kind: FailureKind, message: String },
    /// A child process exited with `code`: handed through without a message.
    Child { code: i32 },
}

/// The result of one command.
#[derive(Clone, Debug, PartialEq, Eq)]
pub enum Outcome {
    Success,
    Failed(Failure),
}

pub ghost struct ChildFailureView {
    pub status: ChildStatus,
    pub message: Seq<char>,
}

pub ghost struct EngineErrorView {
    pub conflicting_options: bool,
    pub message: Seq<char>,
}

pub ghost enum FailureView {
    Tool { kind: FailureKind, message: Seq<char> },
    Child { code: i32 },
}

pub ghost enum OutcomeView {
    Success,
    Failed(FailureView),
}

impl View for ChildFailure {
    type V = ChildFailureView;

    open spec fn view(&self) -> ChildFailureView {
        ChildFailureView { status: self.status, message: self.message@ }
    }
}

impl View for EngineError {
    type V = EngineErrorView;

    open spec fn view(&self) -> EngineErrorView {
        EngineErrorView { conflicting_options: self.conflicting_options, message: self.message@ }
    }
}

impl View for Failure {
    type V = FailureView;

    open spec fn view(&self) -> FailureView {
        match *self {
            Failure::Tool { kind, message } => FailureView::Tool { kind, message: message@ },
            Failure::Child { code } => FailureView::Child { code },
        }
    }
}

impl View for Outcome {
    type V = OutcomeView;

    open spec fn view(&self) -> OutcomeView {
        match *self {
            Outcome::Success => OutcomeView::Success,
            Outcome::Failed(failure) => OutcomeView::Failed(failure@),
        }
    }
}

impl FailureView {
    /// The process exit code of this failure.
    pub open spec fn exit_code(self) -> i32 {
        match self {
            FailureView::Tool { .. } => TOOL_FAILURE_CODE,
            FailureView::Child { code } => code,
        }
    }

    /// The diagnostic of this failure; empty for a child's exit status.
    pub open spec fn message(self) -> Seq<char> {
        match self {
            FailureView::Tool { message, .. } => message,
            FailureView::Child { .. } => Seq::empty(),
        }
    }
}

impl OutcomeView {
    /// The process exit code: zero on success.
    pub open spec fn exit_code(self) -> i32 {
        match self {
            OutcomeView::Success => 0i32,
            OutcomeView::Failed(failure) => failure.exit_code(),
        }
    }

    /// The diagnostic to print; empty where nothing is to be printed.
    pub open spec fn message(self) -> Seq<char> {
        match self {
            OutcomeView::Success => Seq::empty(),
            OutcomeView::Failed(failure) => failure.message(),
        }
    }
}

/// The failure that stands for a process that did not end well: its own
/// status code where it exited with one, a tool failure otherwise.
pub open spec fn child_failure(child: ChildFailureView) -> FailureView {
    match child.status {
        ChildStatus::Exited(code) => FailureView::Child { code },
        _ => FailureView::Tool { kind: FailureKind::Engine, message: child.message },
    }
}

/// The failure that stands for a structured failure of the engine.
pub open spec fn engine_failure(error: EngineErrorView) -> FailureView {
    FailureView::Tool {
        kind: if error.conflicting_options {
            FailureKind::ConflictingOptions
        } else {
            FailureKind::Engine
        },
        message: error.message,
    }
}

/// The failure that stands for a manifest that was not found.
pub open spec fn manifest_failure(message: Seq<char>) -> FailureView {
    FailureView::Tool { kind: FailureKind::ManifestNotFound, message }
}

impl Failure {
    /// Turns a child process that did not end well into a failure.
    pub fn from_child(child: ChildFailure) -> (failure: Failure)
        ensures
            failure@ == child_failure(child@),
    {
        match child.status {
            ChildStatus::Exited(code) => Failure::Child { code },
            _ => Failure::Tool { kind: FailureKind::Engine, message: child.message },
        }
    }

    /// Turns a structured failure of the engine into a tool failure.
    pub fn from_engine(error: EngineError) -> (failure: Failure)
        ensures
            failure@ == engine_failure(error@),
    {
        let kind = if error.conflicting_options {
            FailureKind::ConflictingOptions
        } else {
            FailureKind::Engine
        };
        Failure::Tool { kind, message: error.message }
    }

    /// The failure for a manifest that was not found, with the locator's message.
    pub fn manifest_not_found(message: String) -> (failure: Failure)
        ensures
            failure@ == manifest_failure(message@),
    {
        Failure::Tool { kind: FailureKind::ManifestNotFound, message }
    }

    pub fn exit_code(&self) -> (code: i32)
        ensures
            code == self@.exit_code(),
    {
        match self {
            Failure::Tool { .. } => TOOL_FAILURE_CODE,
            Failure::Child { code } => *code,
        }
    }

    pub fn message(&self) -> (message: String)
        ensures
            message@ == self@.message(),
    {
        match self {
            Failure::Tool { message, .. } => message.clone(),
            Failure::Child { .. } => String::new(),
        }
    }
}

impl Outcome {
    pub fn exit_code(&self) -> (code: i32)
        ensures
            code == self@.exit_code(),
    {
        match self {
            Outcome::Success => 0,
            Outcome::Failed(failure) => failure.exit_code(),
        }
    }

    pub fn message(&self) -> (message: String)
        ensures
            message@ == self@.message(),
    {
        match self {
            Outcome::Success => String::new(),
            Outcome::Failed(failure) => failure.message(),
        }
    }

    pub fn is_success(&self) -> (yes: bool)
        ensures
            yes == (self@ is Success),
    {
        match self {
            Outcome::Success => true,
            Outcome::Failed(_) => false,
        }
    }
}

} // verus!
