use cargo_cmd::bench::{execute, Action, Event, Options, Report, Request, ENV, USAGE};
use cargo_cmd::flags::{Command, Flag};
use cargo_cmd::manifest::Locate;
use cargo_cmd::outcome::{
    ChildFailure, ChildStatus, EngineError, Failure, FailureKind, Outcome, TOOL_FAILURE_CODE,
};
use cargo_cmd::scan::{Parsed, UsageError};
use cargo_cmd::shell::Shell;
use cargo_cmd::usage::{usage, USAGE_FAILURE_CODE};

fn bench_line(tokens: &[&str]) -> Vec<String> {
    tokens.iter().map(|t| t.to_string()).collect()
}

fn bench_defaults() -> Options {
    Options {
        flag_no_run: false,
        flag_package: None,
        flag_jobs: None,
        flag_features: vec![],
        flag_no_default_features: false,
        flag_target: None,
        flag_target_name: None,
        flag_manifest_path: None,
        flag_verbose: false,
        arg_args: vec![],
    }
}

fn bench_options(tokens: &[&str]) -> Options {
    match Options::parse(&bench_line(tokens)) {
        Ok(Parsed::Options(options)) => options,
        other => panic!("no options: {:?}", other),
    }
}

#[test]
fn bench_without_tokens_has_every_default() {
    assert_eq!(bench_options(&[]), bench_defaults());
}

#[test]
fn bench_reads_every_flag() {
    let options = bench_options(&[
        "--no-run",
        "--package",
        "foo:1.0",
        "--jobs",
        "8",
        "--features",
        "a b",
        "--no-default-features",
        "--target",
        "x86_64-unknown-linux-gnu",
        "--target-name",
        "speed",
        "--manifest-path",
        "/p/Cargo.toml",
        "--verbose",
        "filter",
    ]);
    assert_eq!(
        options,
        Options {
            flag_no_run: true,
            flag_package: Some("foo:1.0".to_string()),
            flag_jobs: Some(8),
            flag_features: vec!["a b".to_string()],
            flag_no_default_features: true,
            flag_target: Some("x86_64-unknown-linux-gnu".to_string()),
            flag_target_name: Some("speed".to_string()),
            flag_manifest_path: Some("/p/Cargo.toml".to_string()),
            flag_verbose: true,
            arg_args: vec!["filter".to_string()],
        }
    );
}

#[test]
fn bench_reads_short_flags() {
    let options = bench_options(&["-p", "foo", "-j", "2", "-t", "speed", "-v"]);
    assert_eq!(
        options,
        Options {
            flag_package: Some("foo".to_string()),
            flag_jobs: Some(2),
            flag_target_name: Some("speed".to_string()),
            flag_verbose: true,
            ..bench_defaults()
        }
    );
    assert_eq!(bench_options(&["-vj16"]).flag_jobs, Some(16));
    assert_eq!(bench_options(&["--jobs=+3"]).flag_jobs, Some(3));
}

#[test]
fn bench_passes_free_arguments_through_untouched() {
    let options = bench_options(&["one", "-v", "two", "--", "--no-run", "-x", "--", "", "thr ee"]);
    assert!(options.flag_verbose);
    assert!(!options.flag_no_run);
    assert_eq!(options.arg_args, bench_line(&["one", "two", "--no-run", "-x", "--", "", "thr ee"]));
}

#[test]
fn bench_parsing_is_repeatable() {
    let tokens = bench_line(&["-vj4", "--features=x y", "a", "--", "-b"]);
    assert_eq!(Options::parse(&tokens), Options::parse(&tokens));
    assert_eq!(Options::parse(&tokens), Options::parse(&tokens.clone()));
}

#[test]
fn bench_help_is_asked_with_either_flag() {
    assert_eq!(Options::parse(&bench_line(&["-h"])), Ok(Parsed::Help));
    assert_eq!(Options::parse(&bench_line(&["--help"])), Ok(Parsed::Help));
    assert_eq!(Options::parse(&bench_line(&["-v", "x", "--help", "-j", "no"])), Ok(Parsed::Help));
    assert_eq!(bench_options(&["--", "--help"]).arg_args, bench_line(&["--help"]));
}

#[test]
fn bench_refuses_a_job_count_that_is_no_number() {
    assert_eq!(
        Options::parse(&bench_line(&["--jobs", "many"])),
        Err(UsageError::InvalidNumber { flag: Flag::Jobs, value: "many".to_string() })
    );
    assert_eq!(
        Options::parse(&bench_line(&["-j-1"])),
        Err(UsageError::InvalidNumber { flag: Flag::Jobs, value: "-1".to_string() })
    );
    assert_eq!(
        Options::parse(&bench_line(&["--jobs="])),
        Err(UsageError::InvalidNumber { flag: Flag::Jobs, value: "".to_string() })
    );
    assert_eq!(
        Options::parse(&bench_line(&["-j", "1.5"])),
        Err(UsageError::InvalidNumber { flag: Flag::Jobs, value: "1.5".to_string() })
    );
}

#[test]
fn bench_refuses_unknown_and_malformed_flags() {
    assert_eq!(
        Options::parse(&bench_line(&["--nope"])),
        Err(UsageError::UnknownFlag { written: "--nope".to_string() })
    );
    assert_eq!(
        Options::parse(&bench_line(&["--precise", "1"])),
        Err(UsageError::UnknownFlag { written: "--precise".to_string() })
    );
    assert_eq!(
        Options::parse(&bench_line(&["-q"])),
        Err(UsageError::UnknownFlag { written: "-q".to_string() })
    );
    assert_eq!(
        Options::parse(&bench_line(&["--target"])),
        Err(UsageError::MissingValue { flag: Flag::Target })
    );
    assert_eq!(
        Options::parse(&bench_line(&["--verbose=1"])),
        Err(UsageError::UnexpectedValue { flag: Flag::Verbose, value: "1".to_string() })
    );
}

#[test]
fn bench_refuses_a_flag_given_twice() {
    assert_eq!(
        Options::parse(&bench_line(&["-v", "--verbose"])),
        Err(UsageError::Repeated { flag: Flag::Verbose })
    );
    assert_eq!(
        Options::parse(&bench_line(&["--features", "a", "--features", "b"])),
        Err(UsageError::Repeated { flag: Flag::Features })
    );
    assert_eq!(
        Options::parse(&bench_line(&["-h", "-j", "1", "-j", "2"])),
        Err(UsageError::Repeated { flag: Flag::Jobs })
    );
}

#[test]
fn bench_usage_error_renders_the_help_text() {
    let error = UsageError::UnknownFlag { written: "--nope".to_string() };
    assert_eq!(error.message(), "Unknown flag: '--nope'");
    assert_eq!(error.render(Command::Bench), format!("Unknown flag: '--nope'\n\n{}", USAGE));
    assert_eq!(usage(Command::Bench), USAGE);
    assert!(USAGE.contains("cargo bench [options] [--] [<args>...]"));
    assert_eq!(USAGE_FAILURE_CODE, 1);
}

#[test]
fn bench_invocation_sets_verbosity_and_asks_for_the_manifest() {
    let mut shell = Shell::new();
    let options = bench_options(&["-v"]);
    assert_eq!(execute(&options, &mut shell, Event::Invoked), Action::Locate(Locate::FromWorkingDirectory));
    assert_eq!(shell, Shell { verbose: true, warnings: vec![] });
    let quiet = bench_options(&[]);
    assert_eq!(execute(&quiet, &mut shell, Event::Invoked), Action::Locate(Locate::FromWorkingDirectory));
    assert_eq!(shell, Shell { verbose: false, warnings: vec![] });
}

#[test]
fn bench_manifest_path_overrides_the_working_directory() {
    let mut shell = Shell::new();
    let options = bench_options(&["--manifest-path", "/elsewhere/Cargo.toml"]);
    assert_eq!(
        execute(&options, &mut shell, Event::Invoked),
        Action::Locate(Locate::Given("/elsewhere/Cargo.toml".to_string()))
    );
    let joined = bench_options(&["--manifest-path=rel/Cargo.toml", "x"]);
    assert_eq!(
        execute(&joined, &mut shell, Event::Invoked),
        Action::Locate(Locate::Given("rel/Cargo.toml".to_string()))
    );
}

#[test]
fn bench_without_manifest_fails_before_the_engine() {
    let mut shell = Shell::new();
    let options = bench_options(&["-v"]);
    let action = execute(
        &options,
        &mut shell,
        Event::Located(Err("could not find `Cargo.toml`".to_string())),
    );
    let expected = Outcome::Failed(Failure::Tool {
        kind: FailureKind::ManifestNotFound,
        message: "could not find `Cargo.toml`".to_string(),
    });
    assert_eq!(action, Action::Exit(expected.clone()));
    assert_eq!(expected.exit_code(), 101);
    assert_eq!(expected.message(), "could not find `Cargo.toml`");
    assert_eq!(shell, Shell::new());
}

#[test]
fn bench_request_carries_every_option() {
    let mut shell = Shell::new();
    let options = bench_options(&[
        "--no-run", "-p", "foo", "-j", "3", "--features", "a b", "--no-default-features",
        "--target", "arm", "-t", "speed", "x", "y",
    ]);
    let action = execute(&options, &mut shell, Event::Located(Ok("/p/Cargo.toml".to_string())));
    assert_eq!(
        action,
        Action::Run(Request {
            root: "/p/Cargo.toml".to_string(),
            no_run: true,
            env: "bench".to_string(),
            jobs: Some(3),
            target: Some("arm".to_string()),
            target_name: Some("speed".to_string()),
            dev_deps: true,
            features: vec!["a b".to_string()],
            no_default_features: true,
            spec: Some("foo".to_string()),
            args: vec!["x".to_string(), "y".to_string()],
        })
    );
    assert_eq!(shell, Shell::new());
    assert_eq!(ENV, "bench");
}

#[test]
fn bench_request_of_defaults() {
    let request = Request::new(&bench_defaults(), "Cargo.toml".to_string());
    assert_eq!(
        request,
        Request {
            root: "Cargo.toml".to_string(),
            no_run: false,
            env: "bench".to_string(),
            jobs: None,
            target: None,
            target_name: None,
            dev_deps: true,
            features: vec![],
            no_default_features: false,
            spec: None,
            args: vec![],
        }
    );
}

#[test]
fn bench_success_exits_with_zero() {
    let mut shell = Shell::new();
    let action = execute(&bench_defaults(), &mut shell, Event::Ran(Report::Finished));
    assert_eq!(action, Action::Exit(Outcome::Success));
    assert_eq!(Outcome::Success.exit_code(), 0);
    assert_eq!(Outcome::Success.message(), "");
    assert!(Outcome::Success.is_success());
}

#[test]
fn bench_child_exit_status_passes_through_silently() {
    let mut shell = Shell::new();
    for code in [1, 2, 3, 42, 100, 101, 102, 255, -1, i32::MAX, i32::MIN] {
        let report = Report::ChildFailed(ChildFailure {
            status: ChildStatus::Exited(code),
            message: "process didn't exit successfully".to_string(),
        });
        match execute(&bench_defaults(), &mut shell, Event::Ran(report)) {
            Action::Exit(outcome) => {
                assert_eq!(outcome, Outcome::Failed(Failure::Child { code }));
                assert_eq!(outcome.exit_code(), code);
                assert_eq!(outcome.message(), "");
                assert!(!outcome.is_success());
            }
            other => panic!("no exit: {:?}", other),
        }
    }
    assert_eq!(shell, Shell::new());
}

#[test]
fn bench_child_without_exit_status_is_a_tool_failure() {
    let mut shell = Shell::new();
    for status in [ChildStatus::Signaled(9), ChildStatus::NotLaunched] {
        let report = Report::ChildFailed(ChildFailure { status, message: "killed".to_string() });
        match execute(&bench_defaults(), &mut shell, Event::Ran(report)) {
            Action::Exit(outcome) => {
                assert_eq!(
                    outcome,
                    Outcome::Failed(Failure::Tool {
                        kind: FailureKind::Engine,
                        message: "killed".to_string()
                    })
                );
                assert_eq!(outcome.exit_code(), 101);
                assert_eq!(outcome.message(), "killed");
            }
            other => panic!("no exit: {:?}", other),
        }
    }
}

#[test]
fn bench_engine_failure_is_a_tool_failure() {
    let mut shell = Shell::new();
    let report = Report::Failed(EngineError {
        conflicting_options: false,
        message: "could not compile `foo`".to_string(),
    });
    match execute(&bench_defaults(), &mut shell, Event::Ran(report)) {
        Action::Exit(outcome) => {
            assert_eq!(outcome.exit_code(), TOOL_FAILURE_CODE);
            assert_eq!(outcome.exit_code(), 101);
            assert_eq!(outcome.message(), "could not compile `foo`");
            assert!(!outcome.is_success());
        }
        other => panic!("no exit: {:?}", other),
    }
}

#[test]
fn bench_report_interpreted_alone() {
    assert_eq!(Report::Finished.interpret(), Outcome::Success);
    assert_eq!(
        Report::ChildFailed(ChildFailure { status: ChildStatus::Exited(0), message: "m".to_string() })
            .interpret(),
        Outcome::Failed(Failure::Child { code: 0 })
    );
    assert_eq!(
        Failure::from_child(ChildFailure { status: ChildStatus::Exited(7), message: "m".to_string() }),
        Failure::Child { code: 7 }
    );
    assert_eq!(
        Failure::from_engine(EngineError { conflicting_options: true, message: "m".to_string() }),
        Failure::Tool { kind: FailureKind::ConflictingOptions, message: "m".to_string() }
    );
    assert_eq!(
        Failure::manifest_not_found("none".to_string()),
        Failure::Tool { kind: FailureKind::ManifestNotFound, message: "none".to_string() }
    );
    assert_eq!(Failure::Child { code: 7 }.exit_code(), 7);
    assert_eq!(Failure::Child { code: 7 }.message(), "");
}
