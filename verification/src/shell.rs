//! The output sink that a command shares with the engine, as far as the
//! command itself uses it: a verbosity setting and the warnings it emits.

use vstd::prelude::*;
use crate::text::texts;

verus! {

/// The state of the output sink: whether it is verbose, and the warnings
/// that were emitted through it, oldest first.
#[derive(Clone, Debug, PartialEq, Eq)]
pub struct Shell {
    pub verbose: bool,
    pub warnings: Vec<String>,
}

pub ghost struct ShellView {
    pub verbose: bool,
    pub warnings: Seq<Seq<char>>,
}

impl View for Shell {
    type V = ShellView;

    open spec fn view(&self) -> ShellView {
        ShellView { verbose: self.verbose, warnings: texts(self.warnings@) }
    }
}

impl ShellView {
    /// The sink with its verbosity set to `verbose`.
    pub open spec fn verbosity(self, verbose: bool) -> ShellView {
        ShellView { verbose, warnings: self.warnings }
    }

    /// The sink after one more warning.
    pub open spec fn warned(self, message: Seq<char>) -> ShellView {
        ShellView { verbose: self.verbose, warnings: self.warnings.push(message) }
    }
}

impl Shell {
    /// A quiet sink through which nothing was emitted yet.
    pub fn new() -> (shell: Shell)
        ensures
            shell@ == (ShellView { verbose: false, warnings: Seq::empty() }),
    {
        let shell = Shell { verbose: false, warnings: Vec::new() };
        assert(shell@.warnings =~= Seq::empty());
        shell
    }

    /// Sets the verbosity and leaves the warnings as they are.
    pub fn set_verbose(&mut self, verbose: bool)
        ensures
            final(self)@ == old(self)@.verbosity(verbose),
    {
        self.verbose = verbose;
    }

    /// Emits one warning.
    pub fn warn(&mut self, message: &str)
        ensures
            final(self)@ == old(self)@.warned(message@),
    {
        let ghost before = self.warnings@;
        self.warnings.push(message.to_owned());
        assert(texts(self.warnings@) =~= texts(before).push(message@));
    }
}

} // verus!
