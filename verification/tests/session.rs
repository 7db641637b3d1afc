use luajit_src::artifacts::collection_ops;
use luajit_src::config::Settings;
use luajit_src::error::{Setting, Tool};
use luajit_src::stage::staging_ops;
use luajit_src::session::{after_step, begin};
use luajit_src::{
    Action, Artifacts, BuildError, EnvVar, Environment, ErrorKind, Event, FsOp, Invocation,
    Location, Phase, Program, Progress, Session,
};

fn settings(target: &str) -> Settings {
    Settings {
        out_dir: String::from("/out"),
        target: String::from(target),
        host: String::from("x86_64-unknown-linux-gnu"),
        package_dir: String::from("/pkg"),
        compat: false,
        debug: false,
    }
}

fn linux() -> Session {
    Session::new(settings("x86_64-unknown-linux-gnu"), Environment::new())
}

fn a_run() -> Invocation {
    Invocation {
        program: Program::Named(String::from("make")),
        args: vec![String::from("-e")],
        dir: Location::new("/out").join("luajit-build").join("src"),
        env: vec![EnvVar::new("BUILDMODE", "static")],
        native_env: Vec::new(),
    }
}

fn unused() -> Result<Invocation, BuildError> {
    Err(BuildError::OutOfTurn)
}

fn exited(success: bool) -> Event {
    Event::Exited {
        success,
        command: String::from("make -e"),
        status: String::from("exit status: 2"),
    }
}

fn running() -> Session {
    let mut session = linux();
    session.react(Event::Started, unused());
    session.react(Event::Completed, Ok(a_run()));
    assert_eq!(session.phase(), Phase::Running);
    session
}

#[test]
fn a_build_from_start_to_results() {
    let mut session = linux();
    assert_eq!(session.phase(), Phase::Configured);
    assert!(!session.is_over());

    let first = session.react(Event::Started, unused());
    assert_eq!(first, Action::Perform(staging_ops(&settings("x86_64-unknown-linux-gnu"), false)));
    assert_eq!(session.phase(), Phase::Staging);

    assert!(session.awaits_resolution(&Event::Completed));
    let second = session.react(Event::Completed, Ok(a_run()));
    assert_eq!(second, Action::Run(a_run()));
    assert_eq!(session.phase(), Phase::Running);

    let third = session.react(exited(true), unused());
    assert_eq!(
        third,
        Action::Perform(collection_ops(&settings("x86_64-unknown-linux-gnu"), false))
    );
    assert_eq!(session.phase(), Phase::Collecting);

    let last = session.react(Event::Completed, unused());
    assert_eq!(
        last,
        Action::Finish(Artifacts::of(&settings("x86_64-unknown-linux-gnu"), false))
    );
    assert_eq!(session.phase(), Phase::Succeeded);
    assert!(session.is_over());
    match last {
        Action::Finish(artifacts) => assert_eq!(artifacts.libs(), [String::from("luajit")]),
        _ => unreachable!(),
    }
}

#[test]
fn an_msvc_target_takes_the_windows_path_on_any_host() {
    let mut session = Session::new(settings("x86_64-pc-windows-msvc"), Environment::new());
    let first = session.react(Event::Started, unused());
    assert_eq!(first, Action::Perform(staging_ops(&settings("x86_64-pc-windows-msvc"), true)));
    session.react(Event::Completed, Ok(a_run()));
    let third = session.react(exited(true), unused());
    assert_eq!(third, Action::Perform(collection_ops(&settings("x86_64-pc-windows-msvc"), true)));
    match session.react(Event::Completed, unused()) {
        Action::Finish(artifacts) => assert_eq!(artifacts.libs(), [String::from("lua51")]),
        other => panic!("{other:?}"),
    }
}

#[test]
fn a_failed_resolution_ends_the_build() {
    let mut session = linux();
    session.react(Event::Started, unused());
    let error = BuildError::NotFound {
        tool: Tool::Compiler,
        name: String::from("cc"),
        reason: String::from("cannot find binary path"),
    };
    let action = session.react(Event::Completed, Err(error.clone()));
    assert_eq!(action, Action::Abort(error));
    assert_eq!(session.phase(), Phase::Failed);
}

#[test]
fn a_failed_step_ends_the_build_while_staging() {
    let mut session = linux();
    session.react(Event::Started, unused());
    let op = FsOp::RemoveDir(Location::new("/out").join("lib"));
    let action = session.react(
        Event::Failed { op: op.duplicate(), reason: String::from("denied") },
        Ok(a_run()),
    );
    assert_eq!(
        action,
        Action::Abort(BuildError::Filesystem { op, reason: String::from("denied") })
    );
    assert_eq!(session.phase(), Phase::Failed);
}

#[test]
fn a_failed_step_ends_the_build_while_collecting() {
    let mut session = running();
    session.react(exited(true), unused());
    let op = FsOp::CopyFile { from: Location::new("/a"), to: Location::new("/b") };
    let action =
        session.react(Event::Failed { op: op.duplicate(), reason: String::from("gone") }, unused());
    match action {
        Action::Abort(error) => {
            assert_eq!(error.kind(), ErrorKind::Filesystem);
            assert_eq!(error.message(), "Cannot copy /a to /b: gone");
        }
        other => panic!("{other:?}"),
    }
    assert_eq!(session.phase(), Phase::Failed);
}

#[test]
fn a_process_that_fails_ends_the_build() {
    let mut session = running();
    let action = session.react(exited(false), unused());
    assert_eq!(
        action,
        Action::Abort(BuildError::Process {
            command: String::from("make -e"),
            reason: String::from("exited with status exit status: 2"),
        })
    );
    assert_eq!(session.phase(), Phase::Failed);
}

#[test]
fn a_process_that_does_not_start_ends_the_build() {
    let mut session = running();
    let action = session.react(
        Event::NotStarted { command: String::from("make -e"), reason: String::from("not found") },
        unused(),
    );
    assert_eq!(
        action,
        Action::Abort(BuildError::Process {
            command: String::from("make -e"),
            reason: String::from("not found"),
        })
    );
    assert_eq!(session.phase(), Phase::Failed);
}

#[test]
fn a_report_out_of_turn_ends_the_build() {
    let mut early = linux();
    assert_eq!(early.react(Event::Completed, Ok(a_run())), Action::Abort(BuildError::OutOfTurn));
    assert_eq!(early.phase(), Phase::Failed);

    let mut staging = linux();
    staging.react(Event::Started, unused());
    assert_eq!(staging.react(exited(true), unused()), Action::Abort(BuildError::OutOfTurn));

    let mut session = running();
    assert_eq!(session.react(Event::Completed, unused()), Action::Abort(BuildError::OutOfTurn));
    assert_eq!(session.phase(), Phase::Failed);
}

#[test]
fn a_build_that_is_over_stays_over() {
    let mut failed = linux();
    failed.react(Event::Completed, unused());
    assert_eq!(failed.phase(), Phase::Failed);
    assert_eq!(failed.react(Event::Started, Ok(a_run())), Action::Halt);
    assert_eq!(failed.advance(Event::Completed), Action::Halt);
    assert_eq!(failed.phase(), Phase::Failed);

    let mut done = running();
    done.react(exited(true), unused());
    done.react(Event::Completed, unused());
    assert_eq!(done.phase(), Phase::Succeeded);
    assert_eq!(done.advance(Event::Started), Action::Halt);
    assert_eq!(done.advance(exited(false)), Action::Halt);
    assert_eq!(done.phase(), Phase::Succeeded);
}

#[test]
fn only_the_end_of_staging_awaits_a_resolution() {
    let mut session = linux();
    assert!(!session.awaits_resolution(&Event::Started));
    assert!(!session.awaits_resolution(&Event::Completed));
    session.react(Event::Started, unused());
    assert!(session.awaits_resolution(&Event::Completed));
    assert!(!session.awaits_resolution(&exited(true)));
    session.react(Event::Completed, Ok(a_run()));
    assert!(!session.awaits_resolution(&Event::Completed));
}

#[test]
fn advance_agrees_with_react_where_nothing_is_resolved() {
    let mut one = linux();
    let mut two = linux();
    assert_eq!(one.advance(Event::Started), two.react(Event::Started, unused()));
    assert_eq!(one, two);
    let failure = Event::Failed {
        op: FsOp::CreateDir(Location::new("/out").join("lib")),
        reason: String::from("read-only"),
    };
    assert_eq!(one.advance(failure.clone()), two.react(failure, unused()));
    assert_eq!(one, two);
}

#[test]
fn advance_resolves_when_staging_is_complete() {
    let mut env = Environment::new();
    env.set("TARGET_AR", "my-ar rc");
    env.set("TARGET_STRIP", "my-strip");
    let mut session = Session::new(settings("x86_64-unknown-linux-gnu"), env);
    session.advance(Event::Started);
    match session.advance(Event::Completed) {
        Action::Run(run) => {
            assert_eq!(session.phase(), Phase::Running);
            assert_eq!(run.program, Program::Named(String::from("make")));
            assert_eq!(run.args, vec![String::from("-e")]);
            assert_eq!(run.dir, Location::new("/out").join("luajit-build").join("src"));
            assert!(run.env.contains(&EnvVar::new("BUILDMODE", "static")));
            assert!(run.env.iter().all(|v| v.name != "TARGET_AR" && v.name != "TARGET_STRIP"));
        }
        Action::Abort(error) => {
            assert_eq!(session.phase(), Phase::Failed);
            assert!(
                error == BuildError::Missing(Setting::PointerWidth)
                    || error.kind() == ErrorKind::Toolchain
            );
        }
        other => panic!("{other:?}"),
    }
}

#[test]
fn steps_are_taken_in_order_and_the_first_failure_ends_them() {
    let ops = staging_ops(&settings("x86_64-unknown-linux-gnu"), false);
    assert_eq!(begin(&ops), Progress::Perform(0));
    assert_eq!(after_step(&ops, 0, None), Progress::Perform(1));
    assert_eq!(after_step(&ops, 7, None), Progress::Perform(8));
    assert_eq!(after_step(&ops, 8, None), Progress::Report(Event::Completed));
    let failure = Event::Failed { op: ops[3].duplicate(), reason: String::from("denied") };
    assert_eq!(after_step(&ops, 3, Some(failure.clone())), Progress::Report(failure.clone()));
    assert_eq!(after_step(&ops, 8, Some(failure.clone())), Progress::Report(failure));
    assert_eq!(begin(&Vec::new()), Progress::Report(Event::Completed));
    assert_eq!(after_step(&Vec::new(), 0, None), Progress::Report(Event::Completed));
}
