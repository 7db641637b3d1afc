use luajit_src::config::Settings;
use luajit_src::discover::{
    asked_compiler, asked_location, compiler_of, discover, discovery_of, first_found, located_of,
    probe_vars, resolve, unix_resolution, Answers, Compiler, Lookup, Question,
};
use luajit_src::toolchain::Discovery;
use luajit_src::error::{Setting, Tool};
use luajit_src::probe::CompilerProbe;
use luajit_src::{BuildError, EnvVar, Environment, ErrorKind, Location, Program};

fn settings(target: &str, compat: bool) -> Settings {
    Settings {
        out_dir: String::from("/out"),
        target: String::from(target),
        host: String::from("x86_64-unknown-linux-gnu"),
        package_dir: String::from("/pkg"),
        compat,
        debug: false,
    }
}

#[test]
fn a_probe_in_text_names_a_compiler() {
    let probe = CompilerProbe {
        path: Some(String::from("arm-linux-gnueabihf-gcc")),
        flags: Some(String::from("-O2")),
        like_gnu: true,
        like_clang: false,
    };
    assert_eq!(
        compiler_of(Ok(probe)),
        Ok(Compiler {
            path: String::from("arm-linux-gnueabihf-gcc"),
            flags: String::from("-O2"),
            like_gnu: true,
            like_clang: false,
        })
    );
}

#[test]
fn a_probe_that_is_not_text_names_none() {
    let error =
        BuildError::CompilerUnknown { reason: String::from("it is not named in valid Unicode") };
    let no_path =
        CompilerProbe { path: None, flags: Some(String::new()), like_gnu: false, like_clang: true };
    assert_eq!(compiler_of(Ok(no_path)), Err(error.clone()));
    let no_flags = CompilerProbe {
        path: Some(String::from("cc")),
        flags: None,
        like_gnu: false,
        like_clang: false,
    };
    assert_eq!(compiler_of(Ok(no_flags)), Err(error));
}

#[test]
fn a_probe_that_failed_names_none_and_tells_why() {
    assert_eq!(
        compiler_of(Err(String::from("ToolNotFound: no compiler"))),
        Err(BuildError::CompilerUnknown { reason: String::from("ToolNotFound: no compiler") })
    );
}

fn beside(name: &str, found: Option<&str>) -> Lookup {
    Lookup {
        asked: Question::Beside { dir: String::from("/opt/cross/bin"), name: String::from(name) },
        found: found.map(String::from),
    }
}

fn on_path(name: &str, found: Option<&str>) -> Lookup {
    Lookup { asked: Question::OnPath { name: String::from(name) }, found: found.map(String::from) }
}

#[test]
fn the_first_lookup_that_found_the_tool_wins() {
    let prefixed = beside("arm-ar", Some("/opt/cross/bin/arm-ar"));
    let plain = beside("ar", Some("/opt/cross/bin/ar"));
    let searched = on_path("arm-ar", Some("/usr/bin/arm-ar"));
    assert_eq!(
        first_found(&vec![prefixed.clone(), plain.clone(), searched.clone()]),
        Some(String::from("/opt/cross/bin/arm-ar"))
    );
    assert_eq!(
        first_found(&vec![beside("arm-ar", None), plain.clone(), searched.clone()]),
        Some(String::from("/opt/cross/bin/ar"))
    );
    assert_eq!(
        first_found(&vec![beside("arm-ar", None), beside("ar", None), searched]),
        Some(String::from("/usr/bin/arm-ar"))
    );
    assert_eq!(first_found(&vec![beside("arm-ar", None), on_path("arm-ar", None)]), None);
    assert_eq!(first_found(&Vec::new()), None);
}

#[test]
fn a_compiler_that_was_found_is_located() {
    assert_eq!(
        located_of("cc", Ok(Some(String::from("/usr/bin/cc")))),
        Ok(String::from("/usr/bin/cc"))
    );
}

#[test]
fn a_compiler_that_was_not_found_is_named() {
    assert_eq!(
        located_of("arm-gcc", Err(String::from("cannot find binary path"))),
        Err(BuildError::NotFound {
            tool: Tool::Compiler,
            name: String::from("arm-gcc"),
            reason: String::from("cannot find binary path"),
        })
    );
    assert_eq!(
        located_of("arm-gcc", Ok(None)),
        Err(BuildError::NotFound {
            tool: Tool::Compiler,
            name: String::from("arm-gcc"),
            reason: String::from("it is not named in valid Unicode"),
        })
    );
}

#[test]
fn discovery_leaves_overridden_slots_alone() {
    let mut env = Environment::new();
    env.set("CARGO_CFG_TARGET_POINTER_WIDTH", "32");
    env.set("HOST_CC", "my-host-cc");
    env.set("TARGET_AR", "my-ar rc");
    env.set("TARGET_STRIP", "my-strip");
    match discover(&settings("x86_64-unknown-linux-gnu", false), &env) {
        Ok(found) => {
            assert_eq!(found.host_compiler, None);
            assert_eq!(found.archiver, None);
            assert_eq!(found.strip, None);
            assert!(!found.located.is_empty());
        }
        Err(error) => assert_eq!(error.kind(), ErrorKind::Toolchain),
    }
}

#[test]
fn discovery_ends_with_a_plan_or_a_categorized_error() {
    let targets = [
        "x86_64-unknown-linux-gnu",
        "arm-unknown-linux-gnueabihf",
        "x86_64-apple-darwin",
        "aarch64-apple-darwin",
        "x86_64-unknown-freebsd",
        "x86_64-unknown-dragonfly",
    ];
    let mut env = Environment::new();
    env.set("CARGO_CFG_TARGET_POINTER_WIDTH", "64");
    for target in targets {
        match resolve(&settings(target, false), &env) {
            Ok(run) => {
                assert_eq!(run.program, Program::Named(String::from("make")));
                assert_eq!(run.args, vec![String::from("-e")]);
                for name in ["STATIC_CC", "TARGET_LD", "TARGET_AR", "TARGET_STRIP", "XCFLAGS"] {
                    assert!(run.env.iter().any(|v| v.name == name));
                }
            }
            Err(error) => assert_eq!(error.kind(), ErrorKind::Toolchain),
        }
    }
}

#[test]
fn resolution_without_pointer_width_cannot_succeed() {
    match resolve(&settings("x86_64-unknown-linux-gnu", false), &Environment::new()) {
        Ok(run) => panic!("{run:?}"),
        Err(error) => assert!(
            error == BuildError::Missing(Setting::PointerWidth)
                || error.kind() == ErrorKind::Toolchain
        ),
    }
}

#[test]
fn an_msvc_target_resolves_to_the_batch_script() {
    match resolve(&settings("x86_64-pc-windows-msvc", true), &Environment::new()) {
        Ok(run) => {
            let work = Location::new("/out").join("luajit-build").join("src");
            assert_eq!(run.program, Program::At(work.join("msvcbuild.bat")));
            assert_eq!(run.args, vec![String::from("lua52compat"), String::from("static")]);
            assert_eq!(run.dir, work);
        }
        Err(error) => {
            assert_eq!(error.kind(), ErrorKind::Toolchain);
            assert!(matches!(error, BuildError::NotFound { tool: Tool::MsvcCompiler, .. }));
        }
    }
}

#[test]
fn the_run_of_make_follows_the_outcome_of_discovery() {
    let s = settings("x86_64-unknown-linux-gnu", false);
    let mut env = Environment::new();
    env.set("CARGO_CFG_TARGET_POINTER_WIDTH", "64");
    let found = Discovery {
        compiler: String::from("cc"),
        flags: String::from("-O2"),
        located: String::from("/usr/bin/cc"),
        host_compiler: None,
        archiver: Some(String::from("/usr/bin/ar")),
        strip: None,
    };
    let failed = BuildError::CompilerUnknown { reason: String::from("no compiler") };
    assert_eq!(unix_resolution(&s, &env, Err(failed.clone())), Err(failed));
    assert_eq!(
        unix_resolution(&s, &env, Ok(found.clone())),
        Err(BuildError::NotFound {
            tool: Tool::Strip,
            name: String::from("strip"),
            reason: String::from("it is neither beside the compiler nor on the search path"),
        })
    );
    let complete = Discovery { strip: Some(String::from("/usr/bin/strip")), ..found };
    let run = unix_resolution(&s, &env, Ok(complete)).unwrap();
    assert_eq!(run.program, Program::Named(String::from("make")));
    assert_eq!(
        run.env,
        vec![
            EnvVar::new("TARGET_SYS", "Linux"),
            EnvVar::new("STATIC_CC", "/usr/bin/cc -O2"),
            EnvVar::new("TARGET_LD", "/usr/bin/cc -O2"),
            EnvVar::new("TARGET_AR", "/usr/bin/ar rcus"),
            EnvVar::new("TARGET_STRIP", "/usr/bin/strip"),
            EnvVar::new("BUILDMODE", "static"),
            EnvVar::new("XCFLAGS", "-fPIC"),
        ]
    );
}

fn gcc() -> CompilerProbe {
    CompilerProbe {
        path: Some(String::from("/opt/cross/bin/arm-linux-gnueabihf-gcc")),
        flags: Some(String::from("-march=armv6")),
        like_gnu: true,
        like_clang: false,
    }
}

fn answers() -> Answers {
    Answers {
        compiler: Some(Ok(gcc())),
        host_compiler: None,
        located: Some(Ok(Some(String::from("/opt/cross/bin/arm-linux-gnueabihf-gcc")))),
        directory: Some(Some(String::from("/opt/cross/bin"))),
        file_name: Some(Some(String::from("arm-linux-gnueabihf-gcc"))),
        archiver: vec![
            beside("arm-linux-gnueabihf-ar", None),
            beside("ar", Some("/opt/cross/bin/ar")),
        ],
        strip: vec![beside(
            "arm-linux-gnueabihf-strip",
            Some("/opt/cross/bin/arm-linux-gnueabihf-strip"),
        )],
    }
}

fn width(bits: &str) -> Environment {
    let mut env = Environment::new();
    env.set("CARGO_CFG_TARGET_POINTER_WIDTH", bits);
    env
}

#[test]
fn each_answer_goes_into_its_field() {
    let found = discovery_of(&settings("arm-unknown-linux-gnueabihf", false), &width("64"), answers());
    assert_eq!(
        found,
        Ok(Discovery {
            compiler: String::from("arm-linux-gnueabihf-gcc"),
            flags: String::from("-march=armv6"),
            located: String::from("/opt/cross/bin/arm-linux-gnueabihf-gcc"),
            host_compiler: None,
            archiver: Some(String::from("/opt/cross/bin/ar")),
            strip: Some(String::from("/opt/cross/bin/arm-linux-gnueabihf-strip")),
        })
    );
}

#[test]
fn the_whole_name_stands_in_for_a_missing_file_name() {
    let a = Answers { file_name: Some(None), ..answers() };
    let found = discovery_of(&settings("arm-unknown-linux-gnueabihf", false), &width("64"), a);
    assert_eq!(found.unwrap().compiler, "/opt/cross/bin/arm-linux-gnueabihf-gcc");
}

#[test]
fn a_tool_that_the_environment_names_is_not_taken_from_the_lookups() {
    let mut env = width("64");
    env.set("TARGET_AR", "my-ar rc");
    let found = discovery_of(&settings("arm-unknown-linux-gnueabihf", false), &env, answers());
    let found = found.unwrap();
    assert_eq!(found.archiver, None);
    assert_eq!(found.strip, Some(String::from("/opt/cross/bin/arm-linux-gnueabihf-strip")));
}

#[test]
fn lookups_that_found_nothing_leave_the_slot_empty() {
    let nowhere = vec![
        beside("arm-linux-gnueabihf-ar", None),
        beside("ar", None),
        on_path("arm-linux-gnueabihf-ar", None),
    ];
    let a = Answers { archiver: nowhere, strip: Vec::new(), ..answers() };
    let found = discovery_of(&settings("arm-unknown-linux-gnueabihf", false), &width("64"), a);
    let found = found.unwrap();
    assert_eq!(found.archiver, None);
    assert_eq!(found.strip, None);
}

#[test]
fn the_host_compiler_is_taken_where_one_is_wanted() {
    let host = CompilerProbe {
        path: Some(String::from("cc")),
        flags: Some(String::new()),
        like_gnu: true,
        like_clang: false,
    };
    let a = Answers { host_compiler: Some(Ok(host)), ..answers() };
    let s = settings("arm-unknown-linux-gnueabihf", false);
    assert_eq!(
        discovery_of(&s, &width("32"), a.clone()).unwrap().host_compiler,
        Some(String::from("cc"))
    );
    assert_eq!(discovery_of(&s, &width("64"), a).unwrap().host_compiler, None);
    assert_eq!(
        discovery_of(&s, &width("32"), answers()),
        Err(BuildError::CompilerUnknown { reason: String::from("the machine was not asked") })
    );
    let failed = Answers { host_compiler: Some(Err(String::from("no cc"))), ..answers() };
    assert_eq!(
        discovery_of(&s, &width("32"), failed),
        Err(BuildError::CompilerUnknown { reason: String::from("no cc") })
    );
}

#[test]
fn a_failed_probe_ends_discovery_with_its_own_reason() {
    let a = Answers { compiler: Some(Err(String::from("ToolNotFound: cc"))), ..answers() };
    assert_eq!(
        discovery_of(&settings("x86_64-unknown-linux-gnu", false), &width("64"), a),
        Err(BuildError::CompilerUnknown { reason: String::from("ToolNotFound: cc") })
    );
}

#[test]
fn the_pointer_width_is_asked_for_after_the_compiler() {
    let s = settings("x86_64-unknown-linux-gnu", false);
    assert_eq!(
        discovery_of(&s, &Environment::new(), answers()),
        Err(BuildError::Missing(Setting::PointerWidth))
    );
    let a = Answers { compiler: Some(Err(String::from("no cc"))), ..answers() };
    assert_eq!(
        discovery_of(&s, &Environment::new(), a),
        Err(BuildError::CompilerUnknown { reason: String::from("no cc") })
    );
}

#[test]
fn a_failed_search_ends_discovery_with_its_own_reason() {
    let a = Answers { located: Some(Err(String::from("cannot find binary path"))), ..answers() };
    assert_eq!(
        discovery_of(&settings("x86_64-unknown-linux-gnu", false), &width("64"), a),
        Err(BuildError::NotFound {
            tool: Tool::Compiler,
            name: String::from("/opt/cross/bin/arm-linux-gnueabihf-gcc"),
            reason: String::from("cannot find binary path"),
        })
    );
}

#[test]
fn a_compiler_in_no_directory_ends_discovery() {
    let expected = Err(BuildError::NotFound {
        tool: Tool::Compiler,
        name: String::from("/opt/cross/bin/arm-linux-gnueabihf-gcc"),
        reason: String::from("it lies in no directory"),
    });
    let s = settings("x86_64-unknown-linux-gnu", false);
    let a = Answers { directory: Some(None), ..answers() };
    assert_eq!(discovery_of(&s, &width("64"), a), expected);
    let b = Answers { directory: None, ..answers() };
    assert_eq!(discovery_of(&s, &width("64"), b), expected);
}

#[test]
fn an_apple_target_of_an_unknown_system_is_not_probed() {
    let not_taken = BuildError::CompilerUnknown {
        reason: String::from("the probe does not know the system of this Apple target"),
    };
    assert_eq!(asked_compiler("x86_64-apple-linux", Some(Ok(gcc()))), Err(not_taken.clone()));
    assert_eq!(asked_compiler("x86_64-apple-linux", None), Err(not_taken.clone()));
    let s = settings("x86_64-apple-linux", false);
    assert_eq!(discovery_of(&s, &width("64"), answers()), Err(not_taken.clone()));
    assert_eq!(discover(&s, &width("64")), Err(not_taken.clone()));
    assert_eq!(resolve(&s, &width("64")), Err(not_taken));
}

#[test]
fn an_apple_host_of_an_unknown_system_is_not_probed() {
    let s = Settings {
        host: String::from("x86_64-apple-linux"),
        ..settings("i686-unknown-linux-gnu", false)
    };
    let error = discovery_of(&s, &width("32"), answers()).unwrap_err();
    assert_eq!(
        error,
        BuildError::CompilerUnknown {
            reason: String::from("the probe does not know the system of this Apple target"),
        }
    );
    assert_eq!(discover(&s, &width("32")).unwrap_err().kind(), ErrorKind::Toolchain);
}

#[test]
fn answers_without_the_probe_name_no_compiler() {
    assert_eq!(
        asked_compiler("x86_64-unknown-linux-gnu", None),
        Err(BuildError::CompilerUnknown { reason: String::from("the machine was not asked") })
    );
    assert_eq!(
        asked_location("cc", None),
        Err(BuildError::NotFound {
            tool: Tool::Compiler,
            name: String::from("cc"),
            reason: String::from("the machine was not asked"),
        })
    );
    assert_eq!(asked_location("cc", Some(Ok(Some(String::from("/bin/cc"))))), Ok(String::from("/bin/cc")));
}

#[test]
fn discovery_reports_a_missing_width_only_where_it_is_missing() {
    let s = settings("x86_64-unknown-linux-gnu", false);
    match discover(&s, &width("64")) {
        Err(error) => assert!(error != BuildError::Missing(Setting::PointerWidth)),
        Ok(found) => assert!(!found.located.is_empty()),
    }
}

#[test]
fn the_prefixed_tool_beside_the_compiler_wins_over_every_fallback() {
    let all_there = vec![
        beside("arm-linux-gnueabihf-ar", Some("/opt/cross/bin/arm-linux-gnueabihf-ar")),
        beside("ar", Some("/opt/cross/bin/ar")),
        on_path("arm-linux-gnueabihf-ar", Some("/usr/bin/arm-linux-gnueabihf-ar")),
    ];
    let a = Answers { archiver: all_there, ..answers() };
    let s = settings("arm-unknown-linux-gnueabihf", false);
    let env = width("64");
    let found = discovery_of(&s, &env, a).unwrap();
    assert_eq!(found.archiver, Some(String::from("/opt/cross/bin/arm-linux-gnueabihf-ar")));
    let run = unix_resolution(&s, &env, Ok(found)).unwrap();
    assert!(run
        .env
        .contains(&EnvVar::new("TARGET_AR", "/opt/cross/bin/arm-linux-gnueabihf-ar rcus")));
}

#[test]
fn the_probe_is_handed_the_snapshot_and_a_target_of_its_own() {
    let mut env = Environment::new();
    env.set("CC", "my-cc");
    env.set("TARGET", "x86_64-unknown-linux-gnu");
    assert_eq!(
        probe_vars(&env),
        vec![
            EnvVar::new("CC", "my-cc"),
            EnvVar::new("TARGET", "x86_64-unknown-linux-gnu"),
            EnvVar::new("TARGET", ""),
        ]
    );
    assert_eq!(probe_vars(&Environment::new()), vec![EnvVar::new("TARGET", "")]);
}

#[test]
fn a_target_with_the_catalyst_environment_is_not_probed_on_another_system() {
    let s = settings("x86_64-unknown-linux-macabi", false);
    let error = discover(&s, &width("64")).unwrap_err();
    assert_eq!(
        error,
        BuildError::CompilerUnknown {
            reason: String::from("the probe does not know the system of this Apple target"),
        }
    );
}
