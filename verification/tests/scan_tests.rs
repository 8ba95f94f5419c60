use cargo_cmd::flags::{Command, Flag};
use cargo_cmd::scan::{scan, Occurrence, Scan, UsageError};

fn line(tokens: &[&str]) -> Vec<String> {
    tokens.iter().map(|t| t.to_string()).collect()
}

fn switch(flag: Flag) -> Occurrence {
    Occurrence { flag, value: None }
}

fn valued(flag: Flag, value: &str) -> Occurrence {
    Occurrence { flag, value: Some(value.to_string()) }
}

#[test]
fn scan_of_nothing_is_empty() {
    assert_eq!(scan(Command::Bench, &line(&[])), Ok(Scan { flags: vec![], arguments: vec![] }));
}

#[test]
fn scan_keeps_flags_and_arguments_in_order() {
    let scanned = scan(
        Command::Bench,
        &line(&["first", "--verbose", "second", "-p", "foo", "--jobs=3", "third"]),
    );
    assert_eq!(
        scanned,
        Ok(Scan {
            flags: vec![
                switch(Flag::Verbose),
                valued(Flag::Package, "foo"),
                valued(Flag::Jobs, "3"),
            ],
            arguments: line(&["first", "second", "third"]),
        })
    );
}

#[test]
fn scan_stops_reading_flags_at_double_dash() {
    let scanned = scan(Command::Bench, &line(&["-v", "--", "--no-run", "-h", "--", "x"]));
    assert_eq!(
        scanned,
        Ok(Scan { flags: vec![switch(Flag::Verbose)], arguments: line(&["--no-run", "-h", "--", "x"]) })
    );
}

#[test]
fn scan_takes_lone_dash_and_empty_token_as_arguments() {
    let scanned = scan(Command::Bench, &line(&["-", "", "a-b"]));
    assert_eq!(scanned, Ok(Scan { flags: vec![], arguments: line(&["-", "", "a-b"]) }));
}

#[test]
fn scan_reads_a_run_of_short_flags() {
    let scanned = scan(Command::Bench, &line(&["-vh"]));
    assert_eq!(
        scanned,
        Ok(Scan { flags: vec![switch(Flag::Verbose), switch(Flag::Help)], arguments: vec![] })
    );
}

#[test]
fn scan_gives_the_rest_of_a_run_to_the_flag_that_takes_a_value() {
    let scanned = scan(Command::Bench, &line(&["-vj4", "-pv", "-tname=x"]));
    assert_eq!(
        scanned,
        Ok(Scan {
            flags: vec![
                switch(Flag::Verbose),
                valued(Flag::Jobs, "4"),
                valued(Flag::Package, "v"),
                valued(Flag::TargetName, "name=x"),
            ],
            arguments: vec![],
        })
    );
}

#[test]
fn scan_takes_the_next_token_as_value_whatever_it_looks_like() {
    let scanned = scan(Command::Bench, &line(&["-p", "--verbose", "--target", "--", "-vj", "-h"]));
    assert_eq!(
        scanned,
        Ok(Scan {
            flags: vec![
                valued(Flag::Package, "--verbose"),
                valued(Flag::Target, "--"),
                switch(Flag::Verbose),
                valued(Flag::Jobs, "-h"),
            ],
            arguments: vec![],
        })
    );
}

#[test]
fn scan_splits_a_long_flag_at_the_first_equals_sign() {
    let scanned = scan(Command::Bench, &line(&["--features=a=b c", "--target="]));
    assert_eq!(
        scanned,
        Ok(Scan {
            flags: vec![valued(Flag::Features, "a=b c"), valued(Flag::Target, "")],
            arguments: vec![],
        })
    );
}

#[test]
fn scan_refuses_an_unknown_long_flag() {
    assert_eq!(
        scan(Command::Bench, &line(&["-v", "--bogus=1", "--also-bogus"])),
        Err(UsageError::UnknownFlag { written: "--bogus".to_string() })
    );
    assert_eq!(
        scan(Command::Bench, &line(&["--verb"])),
        Err(UsageError::UnknownFlag { written: "--verb".to_string() })
    );
    assert_eq!(
        scan(Command::Bench, &line(&["--=x"])),
        Err(UsageError::UnknownFlag { written: "--".to_string() })
    );
    assert_eq!(
        scan(Command::Bench, &line(&["---"])),
        Err(UsageError::UnknownFlag { written: "---".to_string() })
    );
}

#[test]
fn scan_refuses_an_unknown_short_flag() {
    assert_eq!(
        scan(Command::Bench, &line(&["-vx"])),
        Err(UsageError::UnknownFlag { written: "-x".to_string() })
    );
    assert_eq!(
        scan(Command::Bench, &line(&["-é"])),
        Err(UsageError::UnknownFlag { written: "-é".to_string() })
    );
}

#[test]
fn scan_refuses_a_flag_of_the_other_subcommand() {
    assert_eq!(
        scan(Command::Update, &line(&["--jobs", "4"])),
        Err(UsageError::UnknownFlag { written: "--jobs".to_string() })
    );
    assert_eq!(
        scan(Command::Update, &line(&["-j4"])),
        Err(UsageError::UnknownFlag { written: "-j".to_string() })
    );
    assert_eq!(
        scan(Command::Bench, &line(&["--aggressive"])),
        Err(UsageError::UnknownFlag { written: "--aggressive".to_string() })
    );
}

#[test]
fn scan_refuses_a_flag_without_its_value() {
    assert_eq!(
        scan(Command::Bench, &line(&["--jobs"])),
        Err(UsageError::MissingValue { flag: Flag::Jobs })
    );
    assert_eq!(
        scan(Command::Bench, &line(&["x", "-vp"])),
        Err(UsageError::MissingValue { flag: Flag::Package })
    );
    assert_eq!(
        scan(Command::Update, &line(&["--precise"])),
        Err(UsageError::MissingValue { flag: Flag::Precise })
    );
}

#[test]
fn scan_refuses_a_value_for_a_switch() {
    assert_eq!(
        scan(Command::Bench, &line(&["--no-run=yes"])),
        Err(UsageError::UnexpectedValue { flag: Flag::NoRun, value: "yes".to_string() })
    );
    assert_eq!(
        scan(Command::Update, &line(&["--aggressive="])),
        Err(UsageError::UnexpectedValue { flag: Flag::Aggressive, value: "".to_string() })
    );
}

#[test]
fn scan_reports_the_first_fault() {
    assert_eq!(
        scan(Command::Bench, &line(&["--no-run=1", "--bogus"])),
        Err(UsageError::UnexpectedValue { flag: Flag::NoRun, value: "1".to_string() })
    );
    assert_eq!(
        scan(Command::Bench, &line(&["--bogus", "--no-run=1"])),
        Err(UsageError::UnknownFlag { written: "--bogus".to_string() })
    );
}

#[test]
fn scan_lookups() {
    let scanned = scan(Command::Bench, &line(&["-p", "one", "-v", "-p", "two", "-v", "-h"])).unwrap();
    assert!(scanned.is_given(Flag::Verbose));
    assert!(scanned.is_given(Flag::Package));
    assert!(!scanned.is_given(Flag::NoRun));
    assert_eq!(scanned.value_of(Flag::Package), Some("one".to_string()));
    assert_eq!(scanned.value_of(Flag::Verbose), None);
    assert_eq!(scanned.value_of(Flag::Jobs), None);
    assert_eq!(scanned.repeated(), Some(Flag::Package));
    let single = scan(Command::Bench, &line(&["-p", "one", "-v", "-h"])).unwrap();
    assert_eq!(single.repeated(), None);
    let later = scan(Command::Bench, &line(&["-h", "-v", "-p", "x", "-v", "-h"])).unwrap();
    assert_eq!(later.repeated(), Some(Flag::Verbose));
}
