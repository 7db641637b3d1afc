use luajit_src::error::Setting;
use luajit_src::{Ambient, Build, BuildError, Environment, ErrorKind, Phase};

fn ambient(vars: &[(&str, &str)], debug: bool) -> Ambient {
    let mut env = Environment::new();
    for (name, value) in vars {
        env.set(name, value);
    }
    Ambient { env, package_dir: String::from("/pkg"), debug }
}

const LINUX: &str = "x86_64-unknown-linux-gnu";

#[test]
fn a_build_inherits_from_the_environment() {
    let mut build =
        Build::new(ambient(&[("OUT_DIR", "/out"), ("TARGET", LINUX), ("HOST", "h")], false));
    let session = build.try_build().unwrap();
    assert_eq!(session.phase(), Phase::Configured);
    assert_eq!(session.settings().out_dir, "/out");
    assert_eq!(session.settings().target, LINUX);
    assert_eq!(session.settings().host, "h");
    assert_eq!(session.settings().package_dir, "/pkg");
    assert!(!session.settings().compat);
    assert!(!session.settings().debug);
}

#[test]
fn what_is_set_wins_over_what_is_inherited() {
    let mut build =
        Build::new(ambient(&[("OUT_DIR", "/out"), ("TARGET", LINUX), ("HOST", LINUX)], false));
    build.out_dir("/elsewhere").target("aarch64-apple-darwin").host("x86_64-apple-darwin");
    let session = build.build();
    assert_eq!(session.settings().out_dir, "/elsewhere");
    assert_eq!(session.settings().target, "aarch64-apple-darwin");
    assert_eq!(session.settings().host, "x86_64-apple-darwin");
}

#[test]
fn setters_chain_and_the_last_call_counts() {
    let mut build = Build::new(ambient(&[], false));
    build.out_dir("/a").out_dir("/b").target(LINUX).host(LINUX).lua52compat(true).debug(true);
    build.lua52compat(false);
    let session = build.build();
    assert_eq!(session.settings().out_dir, "/b");
    assert!(!session.settings().compat);
    assert!(session.settings().debug);
}

#[test]
fn debugging_follows_the_surroundings_unless_said() {
    let complete = [("OUT_DIR", "/out"), ("TARGET", LINUX), ("HOST", LINUX)];
    assert!(Build::new(ambient(&complete, true)).build().settings().debug);
    assert!(!Build::new(ambient(&complete, false)).build().settings().debug);
    assert!(!Build::new(ambient(&complete, true)).debug(false).build().settings().debug);
    assert!(Build::new(ambient(&complete, false)).debug(true).build().settings().debug);
}

#[test]
fn a_build_without_output_directory_fails_before_anything_is_done() {
    let mut build = Build::new(ambient(&[], false));
    build.target(LINUX).host(LINUX);
    let error = build.try_build().unwrap_err();
    assert_eq!(error, BuildError::Missing(Setting::OutDir));
    assert_eq!(error.kind(), ErrorKind::Configuration);
    assert_eq!(error.message(), "OUT_DIR is not set");
}

#[test]
fn the_target_is_asked_for_first() {
    let mut build = Build::new(ambient(&[], false));
    assert_eq!(build.try_build(), Err(BuildError::Missing(Setting::Target)));
    build.out_dir("/out").host(LINUX);
    assert_eq!(build.try_build(), Err(BuildError::Missing(Setting::Target)));
}

#[test]
fn the_host_is_asked_for_second() {
    let mut build = Build::new(ambient(&[("TARGET", LINUX)], false));
    assert_eq!(build.try_build(), Err(BuildError::Missing(Setting::Host)));
    build.out_dir("/out");
    assert_eq!(build.try_build(), Err(BuildError::Missing(Setting::Host)));
}

#[test]
fn the_msvc_tools_need_a_host_too() {
    let mut build = Build::new(ambient(&[("OUT_DIR", "/out")], false));
    build.target("x86_64-pc-windows-msvc");
    assert_eq!(build.try_build(), Err(BuildError::Missing(Setting::Host)));
}

#[test]
fn trying_leaves_the_configuration_as_it_was() {
    let mut build = Build::new(ambient(&[("OUT_DIR", "/out"), ("TARGET", LINUX)], false));
    let before = build.clone();
    assert!(build.try_build().is_err());
    assert_eq!(build, before);
    build.host(LINUX);
    let first = build.try_build().unwrap();
    let second = build.try_build().unwrap();
    assert_eq!(first, second);
}
