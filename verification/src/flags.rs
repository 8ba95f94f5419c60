//! The flags that the subcommands know, by long and by short name.

use vstd::prelude::*;
use crate::text::same_text;

verus! {

/// A subcommand whose options this crate reads.
#[derive(Clone, Copy, Debug, PartialEq, Eq, Structural)]
pub enum Command {
    Bench,
    Update,
}

/// A flag of one of the subcommands.
#[derive(Clone, Copy, Debug, PartialEq, Eq, Structural)]
pub enum Flag {
    /// `-h`, `--help`
    Help,
    /// `--no-run`
    NoRun,
    /// `-p SPEC`, `--package SPEC`
    Package,
    /// `-j N`, `--jobs N`
    Jobs,
    /// `--features LIST`
    Features,
    /// `--no-default-features`
    NoDefaultFeatures,
    /// `--target TRIPLE`
    Target,
    /// `-t NAME`, `--target-name NAME`
    TargetName,
    /// `--manifest-path PATH`
    ManifestPath,
    /// `-v`, `--verbose`
    Verbose,
    /// `--aggressive`
    Aggressive,
    /// `--precise VALUE`
    Precise,
}

/// True if `flag` is followed by a value.
pub open spec fn takes_value(flag: Flag) -> bool {
    match flag {
        Flag::Package | Flag::Jobs | Flag::Features | Flag::Target | Flag::TargetName
        | Flag::ManifestPath | Flag::Precise => true,
        Flag::Help | Flag::NoRun | Flag::NoDefaultFeatures | Flag::Verbose
        | Flag::Aggressive => false,
    }
}

/// True if `command` has `flag` among its options.
pub open spec fn accepts(command: Command, flag: Flag) -> bool {
    match flag {
        Flag::Help | Flag::Package | Flag::ManifestPath | Flag::Verbose => true,
        Flag::NoRun | Flag::Jobs | Flag::Features | Flag::NoDefaultFeatures | Flag::Target
        | Flag::TargetName => command == Command::Bench,
        Flag::Aggressive | Flag::Precise => command == Command::Update,
    }
}

/// The flag that is written `--name`, whatever the subcommand.
pub open spec fn flag_named(name: Seq<char>) -> Option<Flag> {
    if name == "help"@ {
        Some(Flag::Help)
    } else if name == "no-run"@ {
        Some(Flag::NoRun)
    } else if name == "package"@ {
        Some(Flag::Package)
    } else if name == "jobs"@ {
        Some(Flag::Jobs)
    } else if name == "features"@ {
        Some(Flag::Features)
    } else if name == "no-default-features"@ {
        Some(Flag::NoDefaultFeatures)
    } else if name == "target"@ {
        Some(Flag::Target)
    } else if name == "target-name"@ {
        Some(Flag::TargetName)
    } else if name == "manifest-path"@ {
        Some(Flag::ManifestPath)
    } else if name == "verbose"@ {
        Some(Flag::Verbose)
    } else if name == "aggressive"@ {
        Some(Flag::Aggressive)
    } else if name == "precise"@ {
        Some(Flag::Precise)
    } else {
        None
    }
}

/// The flag that is written `-c`, whatever the subcommand.
pub open spec fn flag_lettered(letter: char) -> Option<Flag> {
    if letter == 'h' {
        Some(Flag::Help)
    } else if letter == 'p' {
        Some(Flag::Package)
    } else if letter == 'j' {
        Some(Flag::Jobs)
    } else if letter == 't' {
        Some(Flag::TargetName)
    } else if letter == 'v' {
        Some(Flag::Verbose)
    } else {
        None
    }
}

/// Keeps a flag only if `command` has it.
pub open spec fn within(command: Command, flag: Option<Flag>) -> Option<Flag> {
    match flag {
        Some(f) if accepts(command, f) => flag,
        _ => None,
    }
}

/// The flag of `command` that is written `--name`, if there is one.
pub open spec fn long_flag(command: Command, name: Seq<char>) -> Option<Flag> {
    within(command, flag_named(name))
}

/// The flag of `command` that is written `-c`, if there is one.
pub open spec fn short_flag(command: Command, letter: char) -> Option<Flag> {
    within(command, flag_lettered(letter))
}

impl Flag {
    /// True if the flag is followed by a value.
    pub fn takes_value(self) -> (yes: bool)
        ensures
            yes == takes_value(self),
    {
        match self {
            Flag::Package | Flag::Jobs | Flag::Features | Flag::Target | Flag::TargetName
            | Flag::ManifestPath | Flag::Precise => true,
            Flag::Help | Flag::NoRun | Flag::NoDefaultFeatures | Flag::Verbose
            | Flag::Aggressive => false,
        }
    }

    /// Finds a flag by its long name, written without the two dashes.
    pub fn named(name: &str) -> (flag: Option<Flag>)
        ensures
            flag == flag_named(name@),
    {
        if same_text(name, "help") {
            Some(Flag::Help)
        } else if same_text(name, "no-run") {
            Some(Flag::NoRun)
        } else if same_text(name, "package") {
            Some(Flag::Package)
        } else if same_text(name, "jobs") {
            Some(Flag::Jobs)
        } else if same_text(name, "features") {
            Some(Flag::Features)
        } else if same_text(name, "no-default-features") {
            Some(Flag::NoDefaultFeatures)
        } else if same_text(name, "target") {
            Some(Flag::Target)
        } else if same_text(name, "target-name") {
            Some(Flag::TargetName)
        } else if same_text(name, "manifest-path") {
            Some(Flag::ManifestPath)
        } else if same_text(name, "verbose") {
            Some(Flag::Verbose)
        } else if same_text(name, "aggressive") {
            Some(Flag::Aggressive)
        } else if same_text(name, "precise") {
            Some(Flag::Precise)
        } else {
            None
        }
    }

    /// Finds a flag by its one-letter name.
    pub fn lettered(letter: char) -> (flag: Option<Flag>)
        ensures
            flag == flag_lettered(letter),
    {
        if letter == 'h' {
            Some(Flag::Help)
        } else if letter == 'p' {
            Some(Flag::Package)
        } else if letter == 'j' {
            Some(Flag::Jobs)
        } else if letter == 't' {
            Some(Flag::TargetName)
        } else if letter == 'v' {
            Some(Flag::Verbose)
        } else {
            None
        }
    }
}

impl Command {
    /// True if the subcommand has `flag` among its options.
    pub fn accepts(self, flag: Flag) -> (yes: bool)
        ensures
            yes == accepts(self, flag),
    {
        match flag {
            Flag::Help | Flag::Package | Flag::ManifestPath | Flag::Verbose => true,
            Flag::NoRun | Flag::Jobs | Flag::Features | Flag::NoDefaultFeatures | Flag::Target
            | Flag::TargetName => self == Command::Bench,
            Flag::Aggressive | Flag::Precise => self == Command::Update,
        }
    }

    /// Finds the subcommand's flag that is written `--name`.
    pub fn long_flag(self, name: &str) -> (flag: Option<Flag>)
        ensures
            flag == long_flag(self, name@),
    {
        match Flag::named(name) {
            Some(f) => if self.accepts(f) { Some(f) } else { None },
            None => None,
        }
    }

    /// Finds the subcommand's flag that is written `-c`.
    pub fn short_flag(self, letter: char) -> (flag: Option<Flag>)
        ensures
            flag == short_flag(self, letter),
    {
        match Flag::lettered(letter) {
            Some(f) => if self.accepts(f) { Some(f) } else { None },
            None => None,
        }
    }
}


/// The long name of a flag, without the two dashes.
pub open spec fn long_name(flag: Flag) -> Seq<char> {
    match flag {
        Flag::Help => "help"@,
        Flag::NoRun => "no-run"@,
        Flag::Package => "package"@,
        Flag::Jobs => "jobs"@,
        Flag::Features => "features"@,
        Flag::NoDefaultFeatures => "no-default-features"@,
        Flag::Target => "target"@,
        Flag::TargetName => "target-name"@,
        Flag::ManifestPath => "manifest-path"@,
        Flag::Verbose => "verbose"@,
        Flag::Aggressive => "aggressive"@,
        Flag::Precise => "precise"@,
    }
}

impl Flag {
    /// The long name of the flag, without the two dashes.
    pub fn long_name(self) -> (name: &'static str)
        ensures
            name@ == long_name(self),
    {
        match self {
            Flag::Help => "help",
            Flag::NoRun => "no-run",
            Flag::Package => "package",
            Flag::Jobs => "jobs",
            Flag::Features => "features",
            Flag::NoDefaultFeatures => "no-default-features",
            Flag::Target => "target",
            Flag::TargetName => "target-name",
            Flag::ManifestPath => "manifest-path",
            Flag::Verbose => "verbose",
            Flag::Aggressive => "aggressive",
            Flag::Precise => "precise",
        }
    }
}

/// Every flag is found by its own long name: no two flags share one.
pub proof fn flag_is_found_by_its_name(flag: Flag)
    ensures
        flag_named(long_name(flag)) == Some(flag),
{
    reveal_strlit("help");
    reveal_strlit("no-run");
    reveal_strlit("package");
    reveal_strlit("jobs");
    reveal_strlit("features");
    reveal_strlit("no-default-features");
    reveal_strlit("target");
    reveal_strlit("target-name");
    reveal_strlit("manifest-path");
    reveal_strlit("verbose");
    reveal_strlit("aggressive");
    reveal_strlit("precise");
    assert("help"@.len() == 4 && "jobs"@.len() == 4);
    assert("no-run"@.len() == 6 && "target"@.len() == 6);
    assert("package"@.len() == 7 && "verbose"@.len() == 7 && "precise"@.len() == 7);
    assert("features"@.len() == 8);
    assert("aggressive"@.len() == 10);
    assert("target-name"@.len() == 11);
    assert("manifest-path"@.len() == 13);
    assert("no-default-features"@.len() == 19);
    assert("help"@[0] != "jobs"@[0]);
    assert("no-run"@[0] != "target"@[0]);
    assert("package"@[0] != "verbose"@[0]);
    assert("package"@[1] != "precise"@[1]);
    assert("verbose"@[0] != "precise"@[0]);
}

} // verus!
