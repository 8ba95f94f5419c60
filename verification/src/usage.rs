//! What the user is told when a command line is not accepted.

use vstd::prelude::*;
use crate::bench;
use crate::flags::{long_name, Command, Flag};
use crate::scan::{UsageError, UsageErrorView};
use crate::update;

verus! {

/// Exit code of a command line that is not accepted.
pub const USAGE_FAILURE_CODE: i32 = 1;

/// The help text of a subcommand.
pub open spec fn usage_of(command: Command) -> Seq<char> {
    match command {
        Command::Bench => bench::USAGE@,
        Command::Update => update::USAGE@,
    }
}

/// The sentence that says why a command line is not accepted.
pub open spec fn message_of(error: UsageErrorView) -> Seq<char> {
    match error {
        UsageErrorView::UnknownFlag { written } => "Unknown flag: '"@ + written + "'"@,
        UsageErrorView::MissingValue { flag } => "Expected argument for flag '--"@ + long_name(flag)
            + "' but reached end of arguments."@,
        UsageErrorView::UnexpectedValue { flag, value } => "Flag '--"@ + long_name(flag)
            + "' cannot have an argument, but found '"@ + value + "'."@,
        UsageErrorView::Repeated { flag } => "Flag '--"@ + long_name(flag)
            + "' was given more than once."@,
        UsageErrorView::UnexpectedArgument { argument } => "Unexpected argument '"@ + argument
            + "'."@,
        UsageErrorView::InvalidNumber { flag, value } => "Could not read '"@ + value
            + "' as a number for flag '--"@ + long_name(flag) + "'."@,
    }
}

/// What is printed for a command line that is not accepted: the reason, an
/// empty line, and the help text of the subcommand.
pub open spec fn rendered(error: UsageErrorView, command: Command) -> Seq<char> {
    message_of(error) + "\n\n"@ + usage_of(command)
}

/// The help text of a subcommand.
pub fn usage(command: Command) -> (text: &'static str)
    ensures
        text@ == usage_of(command),
{
    match command {
        Command::Bench => bench::USAGE,
        Command::Update => update::USAGE,
    }
}

impl UsageError {
    /// The sentence that says why the command line is not accepted.
    pub fn message(&self) -> (message: String)
        ensures
            message@ == message_of(self@),
    {
        match self {
            UsageError::UnknownFlag { written } => {
                let mut message: String = String::from_str("Unknown flag: '");
                message.append(written.as_str());
                message.append("'");
                message
            },
            UsageError::MissingValue { flag } => {
                let mut message: String = String::from_str("Expected argument for flag '--");
                message.append(flag.long_name());
                message.append("' but reached end of arguments.");
                message
            },
            UsageError::UnexpectedValue { flag, value } => {
                let mut message: String = String::from_str("Flag '--");
                message.append(flag.long_name());
                message.append("' cannot have an argument, but found '");
                message.append(value.as_str());
                message.append("'.");
                message
            },
            UsageError::Repeated { flag } => {
                let mut message: String = String::from_str("Flag '--");
                message.append(flag.long_name());
                message.append("' was given more than once.");
                message
            },
            UsageError::UnexpectedArgument { argument } => {
                let mut message: String = String::from_str("Unexpected argument '");
                message.append(argument.as_str());
                message.append("'.");
                message
            },
            UsageError::InvalidNumber { flag, value } => {
                let mut message: String = String::from_str("Could not read '");
                message.append(value.as_str());
                message.append("' as a number for flag '--");
                message.append(flag.long_name());
                message.append("'.");
                message
            },
        }
    }

    /// What is to be printed for the command line: the reason why it is not
    /// accepted, and the help text of the subcommand.
    pub fn render(&self, command: Command) -> (text: String)
        ensures
            text@ == rendered(self@, command),
    {
        let mut text: String = self.message();
        text.append("\n\n");
        text.append(usage(command));
        text
    }
}

} // verus!
