//! Reading command-line tokens: which of them are flags, which values belong
//! to them, and which are free arguments.
//!
//! A token `--` ends the options: every token after it is a free argument.
//! Before it, a token of two dashes and a name is a long flag, with its value
//! behind `=` or in the next token; a token of one dash and letters is a run
//! of short flags, where the first flag that takes a value has it in the rest
//! of the token or in the next token. Every other token is a free argument.

use vstd::prelude::*;
use crate::flags::{accepts, long_flag, short_flag, takes_value, Command, Flag};
use crate::text::{text_of, texts};

verus! {

/// A flag as it was given, with its value if it takes one.
#[derive(Clone, Debug, PartialEq, Eq)]
pub struct Occurrence {
    pub flag: Flag,
    pub value: Option<String>,
}

/// The flags and the free arguments of a command line, each in the order given.
#[derive(Clone, Debug, PartialEq, Eq)]
pub struct Scan {
    pub flags: Vec<Occurrence>,
    pub arguments: Vec<String>,
}

/// A command line that the grammar of a subcommand does not accept.
#[derive(Clone, Debug, PartialEq, Eq)]
pub enum UsageError {
    /// A flag that the subcommand does not have, as it was written: `--name`
    /// without a value, or `-c`.
    UnknownFlag { written: String },
    /// A flag that takes a value stood last, so no value was left for it.
    MissingValue { flag: Flag },
    /// A flag that takes no value was written with `=value`.
    UnexpectedValue { flag: Flag, value: String },
    /// A flag was given more than once.
    Repeated { flag: Flag },
    /// A free argument where the subcommand takes no more of them.
    UnexpectedArgument { argument: String },
    /// The value of a flag is not a count.
    InvalidNumber { flag: Flag, value: String },
}

/// What a subcommand is asked to do: print its help, or run with options.
#[derive(Clone, Debug, PartialEq, Eq)]
pub enum Parsed<O> {
    Help,
    Options(O),
}

pub ghost struct OccurrenceView {
    pub flag: Flag,
    pub value: Option<Seq<char>>,
}

pub ghost struct ScanView {
    pub flags: Seq<OccurrenceView>,
    pub arguments: Seq<Seq<char>>,
}

pub ghost enum UsageErrorView {
    UnknownFlag { written: Seq<char> },
    MissingValue { flag: Flag },
    UnexpectedValue { flag: Flag, value: Seq<char> },
    Repeated { flag: Flag },
    UnexpectedArgument { argument: Seq<char> },
    InvalidNumber { flag: Flag, value: Seq<char> },
}

/// The views of a list of occurrences.
pub open spec fn occurrences(list: Seq<Occurrence>) -> Seq<OccurrenceView> {
    list.map_values(|o: Occurrence| o@)
}

impl View for Occurrence {
    type V = OccurrenceView;

    open spec fn view(&self) -> OccurrenceView {
        OccurrenceView { flag: self.flag, value: text_of(self.value) }
    }
}

impl View for Scan {
    type V = ScanView;

    open spec fn view(&self) -> ScanView {
        ScanView { flags: occurrences(self.flags@), arguments: texts(self.arguments@) }
    }
}

impl View for UsageError {
    type V = UsageErrorView;

    open spec fn view(&self) -> UsageErrorView {
        match *self {
            UsageError::UnknownFlag { written } => UsageErrorView::UnknownFlag { written: written@ },
            UsageError::MissingValue { flag } => UsageErrorView::MissingValue { flag },
            UsageError::UnexpectedValue { flag, value } => UsageErrorView::UnexpectedValue {
                flag,
                value: value@,
            },
            UsageError::Repeated { flag } => UsageErrorView::Repeated { flag },
            UsageError::UnexpectedArgument { argument } => UsageErrorView::UnexpectedArgument {
                argument: argument@,
            },
            UsageError::InvalidNumber { flag, value } => UsageErrorView::InvalidNumber {
                flag,
                value: value@,
            },
        }
    }
}

/// What kind of token stands at a place where options are still read.
pub ghost enum TokenKind {
    /// `--`: the end of the options.
    Separator,
    /// `--name` or `--name=value`.
    Long,
    /// `-abc`: one or more short flags.
    Cluster,
    /// Anything else, a lone `-` and the empty token too.
    Argument,
}

pub open spec fn token_kind(token: Seq<char>) -> TokenKind {
    if token.len() >= 2 && token[0] == '-' {
        if token[1] != '-' {
            TokenKind::Cluster
        } else if token.len() == 2 {
            TokenKind::Separator
        } else {
            TokenKind::Long
        }
    } else {
        TokenKind::Argument
    }
}

/// The place of the first `=` in `token` at or after `from`; the length of
/// `token` if there is none.
pub open spec fn find_equals(token: Seq<char>, from: int) -> int
    decreases token.len() - from,
{
    if from >= token.len() {
        token.len() as int
    } else if token[from] == '=' {
        from
    } else {
        find_equals(token, from + 1)
    }
}

/// How the reading of one flag token ends.
pub ghost enum TokenEnd {
    /// The token is read; these are the flags given so far.
    Closed(Seq<OccurrenceView>),
    /// The last flag of the token takes a value, which is the next token.
    Open(Seq<OccurrenceView>, Flag),
    /// The token is not accepted.
    Failed(UsageErrorView),
}

/// Reads the long flag `token`, given the flags `seen` before it.
pub open spec fn long_token(command: Command, token: Seq<char>, seen: Seq<OccurrenceView>)
    -> TokenEnd {
    let stop = find_equals(token, 2);
    let name = token.subrange(2, stop);
    match long_flag(command, name) {
        None => TokenEnd::Failed(UsageErrorView::UnknownFlag { written: token.subrange(0, stop) }),
        Some(flag) => {
            if stop < token.len() {
                let value = token.subrange(stop + 1, token.len() as int);
                if takes_value(flag) {
                    TokenEnd::Closed(seen.push(OccurrenceView { flag, value: Some(value) }))
                } else {
                    TokenEnd::Failed(UsageErrorView::UnexpectedValue { flag, value })
                }
            } else if takes_value(flag) {
                TokenEnd::Open(seen, flag)
            } else {
                TokenEnd::Closed(seen.push(OccurrenceView { flag, value: None }))
            }
        },
    }
}

/// Reads the short flags of `token` from place `at` on, given the flags
/// `seen` before that place.
pub open spec fn cluster(command: Command, token: Seq<char>, at: int, seen: Seq<OccurrenceView>)
    -> TokenEnd
    decreases token.len() - at,
{
    if at >= token.len() {
        TokenEnd::Closed(seen)
    } else {
        match short_flag(command, token[at]) {
            None => TokenEnd::Failed(UsageErrorView::UnknownFlag { written: seq!['-', token[at]] }),
            Some(flag) => {
                if !takes_value(flag) {
                    cluster(
                        command,
                        token,
                        at + 1,
                        seen.push(OccurrenceView { flag, value: None }),
                    )
                } else if at + 1 < token.len() {
                    let value = token.subrange(at + 1, token.len() as int);
                    TokenEnd::Closed(seen.push(OccurrenceView { flag, value: Some(value) }))
                } else {
                    TokenEnd::Open(seen, flag)
                }
            },
        }
    }
}

/// Reads a token that is a long flag or a run of short flags.
pub open spec fn flag_token(command: Command, token: Seq<char>, seen: Seq<OccurrenceView>)
    -> TokenEnd {
    if token_kind(token) is Long {
        long_token(command, token, seen)
    } else {
        cluster(command, token, 1, seen)
    }
}

/// Reads the tokens from place `at` on. `closed` says whether `--` was seen;
/// `seen` holds what was read before `at`.
pub open spec fn scan_from(
    command: Command,
    tokens: Seq<Seq<char>>,
    at: int,
    closed: bool,
    seen: ScanView,
) -> Result<ScanView, UsageErrorView>
    decreases tokens.len() - at,
{
    if at >= tokens.len() {
        Ok(seen)
    } else if closed || token_kind(tokens[at]) is Argument {
        scan_from(
            command,
            tokens,
            at + 1,
            closed,
            ScanView { flags: seen.flags, arguments: seen.arguments.push(tokens[at]) },
        )
    } else if token_kind(tokens[at]) is Separator {
        scan_from(command, tokens, at + 1, true, seen)
    } else {
        match flag_token(command, tokens[at], seen.flags) {
            TokenEnd::Failed(error) => Err(error),
            TokenEnd::Closed(flags) => scan_from(
                command,
                tokens,
                at + 1,
                false,
                ScanView { flags, arguments: seen.arguments },
            ),
            TokenEnd::Open(flags, flag) => {
                if at + 1 < tokens.len() {
                    scan_from(
                        command,
                        tokens,
                        at + 2,
                        false,
                        ScanView {
                            flags: flags.push(
                                OccurrenceView { flag, value: Some(tokens[at + 1]) },
                            ),
                            arguments: seen.arguments,
                        },
                    )
                } else {
                    Err(UsageErrorView::MissingValue { flag })
                }
            },
        }
    }
}

/// The flags and free arguments that `tokens` hold for `command`, or the
/// first reason why they are not accepted.
pub open spec fn scan_of(command: Command, tokens: Seq<Seq<char>>) -> Result<
    ScanView,
    UsageErrorView,
> {
    scan_from(
        command,
        tokens,
        0,
        false,
        ScanView { flags: Seq::empty(), arguments: Seq::empty() },
    )
}

/// The view of a result of scanning.
pub open spec fn scanned(result: Result<Scan, UsageError>) -> Result<ScanView, UsageErrorView> {
    match result {
        Ok(scan) => Ok(scan@),
        Err(error) => Err(error@),
    }
}


/// How the reading of one flag token ended; the flags went to the list.
enum Ending {
    Closed,
    Open(Flag),
    Failed(UsageError),
}

/// The end that `ending` stands for, with `flags` as the list after the token.
spec fn ending_view(ending: Ending, flags: Seq<Occurrence>) -> TokenEnd {
    match ending {
        Ending::Closed => TokenEnd::Closed(occurrences(flags)),
        Ending::Open(flag) => TokenEnd::Open(occurrences(flags), flag),
        Ending::Failed(error) => TokenEnd::Failed(error@),
    }
}

/// Finds the first `=` of `token` at or after `from`.
fn first_equals(token: &str, from: usize) -> (stop: usize)
    requires
        from <= token@.len(),
    ensures
        stop == find_equals(token@, from as int),
        from <= stop <= token@.len(),
{
    let n: usize = token.unicode_len();
    let mut at: usize = from;
    while at < n
        invariant
            n == token@.len(),
            from <= at <= n,
            find_equals(token@, from as int) == find_equals(token@, at as int),
        decreases n - at,
    {
        if token.get_char(at) == '=' {
            return at;
        }
        at += 1;
    }
    at
}

/// Reads one long flag and adds it to `flags` if it is complete.
fn read_long(command: Command, token: &str, flags: &mut Vec<Occurrence>) -> (ending: Ending)
    requires
        token@.len() >= 2,
    ensures
        ending_view(ending, final(flags)@) == long_token(
            command,
            token@,
            occurrences(old(flags)@),
        ),
{
    let n: usize = token.unicode_len();
    let stop: usize = first_equals(token, 2);
    let name: &str = token.substring_char(2, stop);
    match command.long_flag(name) {
        None => Ending::Failed(
            UsageError::UnknownFlag { written: token.substring_char(0, stop).to_owned() },
        ),
        Some(flag) => {
            if stop < n {
                let value: String = token.substring_char(stop + 1, n).to_owned();
                if flag.takes_value() {
                    let ghost before = flags@;
                    flags.push(Occurrence { flag, value: Some(value) });
                    assert(occurrences(flags@) =~= occurrences(before).push(
                        OccurrenceView { flag, value: Some(value@) },
                    ));
                    Ending::Closed
                } else {
                    Ending::Failed(UsageError::UnexpectedValue { flag, value })
                }
            } else if flag.takes_value() {
                Ending::Open(flag)
            } else {
                let ghost before = flags@;
                flags.push(Occurrence { flag, value: None });
                assert(occurrences(flags@) =~= occurrences(before).push(
                    OccurrenceView { flag, value: None },
                ));
                Ending::Closed
            }
        },
    }
}

/// Reads a run of short flags and adds those that are complete to `flags`.
fn read_cluster(command: Command, token: &str, flags: &mut Vec<Occurrence>) -> (ending: Ending)
    requires
        token@.len() >= 1,
    ensures
        ending_view(ending, final(flags)@) == cluster(
            command,
            token@,
            1,
            occurrences(old(flags)@),
        ),
{
    let n: usize = token.unicode_len();
    let ghost goal = cluster(command, token@, 1, occurrences(flags@));
    let mut at: usize = 1;
    while at < n
        invariant
            n == token@.len(),
            1 <= at <= n,
            goal == cluster(command, token@, 1, occurrences(old(flags)@)),
            goal == cluster(command, token@, at as int, occurrences(flags@)),
        decreases n - at,
    {
        let letter: char = token.get_char(at);
        match command.short_flag(letter) {
            None => {
                let mut written: String = String::from_str("-");
                written.append(token.substring_char(at, at + 1));
                proof {
                    reveal_strlit("-");
                    assert(written@ =~= seq!['-', letter]);
                }
                return Ending::Failed(UsageError::UnknownFlag { written });
            },
            Some(flag) => {
                let ghost before = flags@;
                if !flag.takes_value() {
                    flags.push(Occurrence { flag, value: None });
                    assert(occurrences(flags@) =~= occurrences(before).push(
                        OccurrenceView { flag, value: None },
                    ));
                } else if at + 1 < n {
                    let value: String = token.substring_char(at + 1, n).to_owned();
                    flags.push(Occurrence { flag, value: Some(value) });
                    assert(occurrences(flags@) =~= occurrences(before).push(
                        OccurrenceView { flag, value: Some(value@) },
                    ));
                    return Ending::Closed;
                } else {
                    return Ending::Open(flag);
                }
            },
        }
        at += 1;
    }
    Ending::Closed
}

/// Reads the tokens that follow the subcommand's name.
///
/// The result is `scan_of` on the tokens' texts: the flags and free arguments
/// in the order given, or the first reason why the tokens are not accepted.
/// Every flag that comes back belongs to `command` and has a value exactly
/// if it takes one.
pub fn scan(command: Command, tokens: &Vec<String>) -> (result: Result<Scan, UsageError>)
    ensures
        scanned(result) == scan_of(command, texts(tokens@)),
        result matches Ok(scan) ==> well_formed(command, scan@.flags),
{
    let n: usize = tokens.len();
    let mut flags: Vec<Occurrence> = Vec::new();
    let mut arguments: Vec<String> = Vec::new();
    let mut closed: bool = false;
    let mut at: usize = 0;
    let ghost goal = scan_of(command, texts(tokens@));
    assert(occurrences(flags@) =~= Seq::empty());
    assert(texts(arguments@) =~= Seq::empty());
    while at < n
        invariant
            n == tokens@.len(),
            at <= n,
            goal == scan_of(command, texts(tokens@)),
            goal == scan_from(
                command,
                texts(tokens@),
                at as int,
                closed,
                ScanView { flags: occurrences(flags@), arguments: texts(arguments@) },
            ),
        decreases n - at,
    {
        let token: &str = tokens[at].as_str();
        assert(texts(tokens@)[at as int] == token@);
        let length: usize = token.unicode_len();
        let dashed: bool = length >= 2 && token.get_char(0) == '-';
        if closed || !dashed {
            let ghost before = arguments@;
            arguments.push(tokens[at].clone());
            assert(texts(arguments@) =~= texts(before).push(token@));
            at += 1;
        } else if length == 2 && token.get_char(1) == '-' {
            closed = true;
            at += 1;
        } else {
            let ending = if token.get_char(1) == '-' {
                read_long(command, token, &mut flags)
            } else {
                read_cluster(command, token, &mut flags)
            };
            match ending {
                Ending::Failed(error) => {
                    return Err(error);
                },
                Ending::Closed => {
                    at += 1;
                },
                Ending::Open(flag) => {
                    if at + 1 < n {
                        let ghost before = flags@;
                        let value: String = tokens[at + 1].clone();
                        assert(texts(tokens@)[at + 1] == value@);
                        flags.push(Occurrence { flag, value: Some(value) });
                        assert(occurrences(flags@) =~= occurrences(before).push(
                            OccurrenceView { flag, value: Some(value@) },
                        ));
                        at += 2;
                    } else {
                        return Err(UsageError::MissingValue { flag });
                    }
                },
            }
        }
    }
    proof {
        scan_is_well_formed(command, texts(tokens@));
    }
    Ok(Scan { flags, arguments })
}


/// The place of the first `flag` in `flags` at or after `from`; the length of
/// `flags` if there is none.
pub open spec fn find_flag(flags: Seq<OccurrenceView>, flag: Flag, from: int) -> int
    decreases flags.len() - from,
{
    if from >= flags.len() {
        flags.len() as int
    } else if flags[from].flag == flag {
        from
    } else {
        find_flag(flags, flag, from + 1)
    }
}

/// True if `flag` was given.
pub open spec fn given(flags: Seq<OccurrenceView>, flag: Flag) -> bool {
    find_flag(flags, flag, 0) < flags.len()
}

/// The value that `flag` was first given with.
pub open spec fn value_of(flags: Seq<OccurrenceView>, flag: Flag) -> Option<Seq<char>> {
    let at = find_flag(flags, flag, 0);
    if at < flags.len() {
        flags[at].value
    } else {
        None
    }
}

/// True if the flag at place `at` was given before that place too.
pub open spec fn given_before(flags: Seq<OccurrenceView>, at: int) -> bool {
    exists|i: int| 0 <= i < at && (#[trigger] flags[i]).flag == flags[at].flag
}

/// The first flag at or after `from` that was given before its place too.
pub open spec fn first_repeat(flags: Seq<OccurrenceView>, from: int) -> Option<Flag>
    decreases flags.len() - from,
{
    if from >= flags.len() {
        None
    } else if given_before(flags, from) {
        Some(flags[from].flag)
    } else {
        first_repeat(flags, from + 1)
    }
}

impl Scan {
    /// The place of the first `flag`, or the number of flags if it was not given.
    fn position(&self, flag: Flag) -> (at: usize)
        ensures
            at == find_flag(self@.flags, flag, 0),
            at <= self.flags@.len(),
    {
        let n: usize = self.flags.len();
        let mut at: usize = 0;
        while at < n
            invariant
                n == self.flags@.len(),
                at <= n,
                find_flag(self@.flags, flag, 0) == find_flag(self@.flags, flag, at as int),
            decreases n - at,
        {
            if self.flags[at].flag == flag {
                return at;
            }
            at += 1;
        }
        at
    }

    /// True if `flag` was given.
    pub fn is_given(&self, flag: Flag) -> (yes: bool)
        ensures
            yes == given(self@.flags, flag),
    {
        self.position(flag) < self.flags.len()
    }

    /// The value that `flag` was first given with.
    pub fn value_of(&self, flag: Flag) -> (value: Option<String>)
        ensures
            text_of(value) == value_of(self@.flags, flag),
    {
        let at: usize = self.position(flag);
        if at < self.flags.len() {
            match &self.flags[at].value {
                Some(text) => Some(text.clone()),
                None => None,
            }
        } else {
            None
        }
    }

    /// True if the flag at place `at` stands at an earlier place too.
    fn is_given_before(&self, at: usize) -> (yes: bool)
        requires
            at < self.flags@.len(),
        ensures
            yes == given_before(self@.flags, at as int),
    {
        let flag = self.flags[at].flag;
        let mut i: usize = 0;
        while i < at
            invariant
                at < self.flags@.len(),
                i <= at,
                flag == self@.flags[at as int].flag,
                forall|j: int| 0 <= j < i ==> (#[trigger] self@.flags[j]).flag != flag,
            decreases at - i,
        {
            if self.flags[i].flag == flag {
                assert(self@.flags[i as int].flag == flag);
                return true;
            }
            i += 1;
        }
        false
    }

    /// The first flag that was given more than once, named where it stands
    /// for the second time.
    pub fn repeated(&self) -> (flag: Option<Flag>)
        ensures
            flag == first_repeat(self@.flags, 0),
    {
        let n: usize = self.flags.len();
        let mut at: usize = 0;
        while at < n
            invariant
                n == self.flags@.len(),
                at <= n,
                first_repeat(self@.flags, 0) == first_repeat(self@.flags, at as int),
            decreases n - at,
        {
            if self.is_given_before(at) {
                return Some(self.flags[at].flag);
            }
            at += 1;
        }
        None
    }
}


/// Once `--` was seen, every token that follows is a free argument: the
/// tokens are kept as they are and in their order, the flags stay as they
/// were, and nothing that follows can make the command line unacceptable.
pub proof fn closed_scan_keeps_tokens(
    command: Command,
    tokens: Seq<Seq<char>>,
    at: int,
    seen: ScanView,
)
    requires
        0 <= at <= tokens.len(),
    ensures
        scan_from(command, tokens, at, true, seen) == Ok::<ScanView, UsageErrorView>(
            ScanView {
                flags: seen.flags,
                arguments: seen.arguments + tokens.subrange(at, tokens.len() as int),
            },
        ),
    decreases tokens.len() - at,
{
    if at == tokens.len() {
        assert(seen.arguments + tokens.subrange(at, tokens.len() as int) =~= seen.arguments);
    } else {
        let next = ScanView { flags: seen.flags, arguments: seen.arguments.push(tokens[at]) };
        closed_scan_keeps_tokens(command, tokens, at + 1, next);
        assert(next.arguments + tokens.subrange(at + 1, tokens.len() as int) =~= seen.arguments
            + tokens.subrange(at, tokens.len() as int));
    }
}

/// A flag that was not given has no value.
pub proof fn absent_flag_has_no_value(flags: Seq<OccurrenceView>, flag: Flag)
    requires
        !given(flags, flag),
    ensures
        value_of(flags, flag) is None,
{
}


/// True if every flag of the list belongs to `command` and has a value
/// exactly if it takes one.
pub open spec fn well_formed(command: Command, flags: Seq<OccurrenceView>) -> bool {
    forall|i: int|
        0 <= i < flags.len() ==> accepts(command, (#[trigger] flags[i]).flag) && (
        flags[i].value is Some <==> takes_value(flags[i].flag))
}

/// The flags that a token closes are well formed if those before it were.
proof fn token_keeps_well_formed(
    command: Command,
    token: Seq<char>,
    at: int,
    seen: Seq<OccurrenceView>,
)
    requires
        well_formed(command, seen),
        0 <= at,
    ensures
        match cluster(command, token, at, seen) {
            TokenEnd::Closed(flags) => well_formed(command, flags),
            TokenEnd::Open(flags, flag) => well_formed(command, flags) && accepts(command, flag)
                && takes_value(flag),
            TokenEnd::Failed(_) => true,
        },
        match long_token(command, token, seen) {
            TokenEnd::Closed(flags) => well_formed(command, flags),
            TokenEnd::Open(flags, flag) => well_formed(command, flags) && accepts(command, flag)
                && takes_value(flag),
            TokenEnd::Failed(_) => true,
        },
    decreases token.len() - at,
{
    if at < token.len() {
        match short_flag(command, token[at]) {
            Some(flag) => {
                if !takes_value(flag) {
                    token_keeps_well_formed(
                        command,
                        token,
                        at + 1,
                        seen.push(OccurrenceView { flag, value: None }),
                    );
                }
            },
            None => {},
        }
    }
}

/// Whatever is scanned from well-formed flags on is well formed.
proof fn scan_keeps_well_formed(
    command: Command,
    tokens: Seq<Seq<char>>,
    at: int,
    closed: bool,
    seen: ScanView,
)
    requires
        well_formed(command, seen.flags),
        0 <= at,
    ensures
        scan_from(command, tokens, at, closed, seen) matches Ok(scan) ==> well_formed(
            command,
            scan.flags,
        ),
    decreases tokens.len() - at,
{
    if at < tokens.len() {
        if closed || token_kind(tokens[at]) is Argument {
            scan_keeps_well_formed(
                command,
                tokens,
                at + 1,
                closed,
                ScanView { flags: seen.flags, arguments: seen.arguments.push(tokens[at]) },
            );
        } else if token_kind(tokens[at]) is Separator {
            scan_keeps_well_formed(command, tokens, at + 1, true, seen);
        } else {
            token_keeps_well_formed(command, tokens[at], 1, seen.flags);
            match flag_token(command, tokens[at], seen.flags) {
                TokenEnd::Failed(_) => {},
                TokenEnd::Closed(flags) => {
                    scan_keeps_well_formed(
                        command,
                        tokens,
                        at + 1,
                        false,
                        ScanView { flags, arguments: seen.arguments },
                    );
                },
                TokenEnd::Open(flags, flag) => {
                    if at + 1 < tokens.len() {
                        scan_keeps_well_formed(
                            command,
                            tokens,
                            at + 2,
                            false,
                            ScanView {
                                flags: flags.push(
                                    OccurrenceView { flag, value: Some(tokens[at + 1]) },
                                ),
                                arguments: seen.arguments,
                            },
                        );
                    }
                },
            }
        }
    }
}

/// Every flag of an accepted command line belongs to the subcommand, and
/// has a value exactly if it takes one.
pub proof fn scan_is_well_formed(command: Command, tokens: Seq<Seq<char>>)
    ensures
        scan_of(command, tokens) matches Ok(scan) ==> well_formed(command, scan.flags),
{
    scan_keeps_well_formed(
        command,
        tokens,
        0,
        false,
        ScanView { flags: Seq::empty(), arguments: Seq::empty() },
    );
}


/// `find_equals` finds the first `=` at or after `from`: no `=` stands
/// between `from` and the place found, and one stands at that place unless
/// the place is the end of the token.
pub proof fn find_equals_is_first(token: Seq<char>, from: int)
    requires
        0 <= from <= token.len(),
    ensures
        from <= find_equals(token, from) <= token.len(),
        find_equals(token, from) < token.len() ==> token[find_equals(token, from)] == '=',
        forall|i: int| from <= i < find_equals(token, from) ==> token[i] != '=',
    decreases token.len() - from,
{
    if from < token.len() && token[from] != '=' {
        find_equals_is_first(token, from + 1);
    }
}

/// `find_flag` finds the first place of `flag` at or after `from`.
pub proof fn find_flag_is_first(flags: Seq<OccurrenceView>, flag: Flag, from: int)
    requires
        0 <= from <= flags.len(),
    ensures
        from <= find_flag(flags, flag, from) <= flags.len(),
        find_flag(flags, flag, from) < flags.len() ==> flags[find_flag(flags, flag, from)].flag
            == flag,
        forall|i: int| from <= i < find_flag(flags, flag, from) ==> (#[trigger] flags[i]).flag != flag,
    decreases flags.len() - from,
{
    if from < flags.len() && flags[from].flag != flag {
        find_flag_is_first(flags, flag, from + 1);
    }
}

/// A flag is given exactly if it stands somewhere among the flags.
pub proof fn given_means_present(flags: Seq<OccurrenceView>, flag: Flag)
    ensures
        given(flags, flag) <==> exists|i: int| 0 <= i < flags.len() && (#[trigger] flags[i]).flag == flag,
{
    find_flag_is_first(flags, flag, 0);
    let first = find_flag(flags, flag, 0);
    if first < flags.len() {
        assert(flags[first].flag == flag);
    }
}

/// No flag is reported as repeated from `from` on exactly if none of the
/// flags from there on stands at an earlier place too.
proof fn first_repeat_is_none(flags: Seq<OccurrenceView>, from: int)
    requires
        0 <= from,
    ensures
        first_repeat(flags, from) is None <==> forall|j: int|
            from <= j < flags.len() ==> !#[trigger] given_before(flags, j),
    decreases flags.len() - from,
{
    if from < flags.len() {
        first_repeat_is_none(flags, from + 1);
    }
}

/// No flag is reported as repeated exactly if no two places hold the same flag.
pub proof fn no_repeat_means_distinct(flags: Seq<OccurrenceView>)
    ensures
        first_repeat(flags, 0) is None <==> forall|i: int, j: int|
            0 <= i < j < flags.len() ==> (#[trigger] flags[i]).flag != (#[trigger] flags[j]).flag,
{
    first_repeat_is_none(flags, 0);
    if first_repeat(flags, 0) is None {
        assert forall|i: int, j: int| 0 <= i < j < flags.len() implies (#[trigger] flags[i]).flag
            != (#[trigger] flags[j]).flag by {
            assert(!given_before(flags, j));
        }
    } else {
        let j = choose|j: int| 0 <= j < flags.len() && given_before(flags, j);
        let i = choose|i: int| 0 <= i < j && (#[trigger] flags[i]).flag == flags[j].flag;
        assert(flags[i].flag == flags[j].flag);
    }
}

} // verus!
