use luajit_src::{EnvVar, Environment};

#[test]
fn an_empty_environment_has_no_variable() {
    let env = Environment::new();
    assert_eq!(env.get("TARGET"), None);
    assert!(!env.is_set("TARGET"));
}

#[test]
fn set_then_get() {
    let mut env = Environment::new();
    env.set("TARGET_AR", "/opt/bin/ar rc");
    env.set("HOST", "x86_64-unknown-linux-gnu");
    assert_eq!(env.get("TARGET_AR"), Some(String::from("/opt/bin/ar rc")));
    assert_eq!(env.get("HOST"), Some(String::from("x86_64-unknown-linux-gnu")));
    assert_eq!(env.get("TARGET"), None);
    assert!(env.is_set("TARGET_AR"));
    assert!(!env.is_set("TARGET_A"));
    assert!(!env.is_set("target_ar"));
}

#[test]
fn the_last_entry_of_a_name_wins() {
    let mut env = Environment::new();
    env.set("MACOSX_DEPLOYMENT_TARGET", "11.0");
    env.set("OTHER", "x");
    env.set("MACOSX_DEPLOYMENT_TARGET", "12.0");
    assert_eq!(env.get("MACOSX_DEPLOYMENT_TARGET"), Some(String::from("12.0")));
    assert_eq!(env.vars.len(), 3);
}

#[test]
fn a_variable_may_be_empty() {
    let mut env = Environment::new();
    env.set("HOST_CC", "");
    assert!(env.is_set("HOST_CC"));
    assert_eq!(env.get("HOST_CC"), Some(String::new()));
}

#[test]
fn duplicate_keeps_every_entry() {
    let mut env = Environment::new();
    env.set("A", "1");
    env.set("B", "2");
    let copy = env.duplicate();
    assert_eq!(copy, env);
    assert_eq!(copy.vars, vec![EnvVar::new("A", "1"), EnvVar::new("B", "2")]);
}

#[test]
fn what_is_set_on_top_wins_over_what_is_inherited() {
    let mut env = Environment::new();
    env.set("A", "1");
    env.set("B", "2");
    let all = env.overlaid(&vec![EnvVar::new("B", "3"), EnvVar::new("C", "4")]);
    assert_eq!(all.get("A"), Some(String::from("1")));
    assert_eq!(all.get("B"), Some(String::from("3")));
    assert_eq!(all.get("C"), Some(String::from("4")));
    assert_eq!(all.vars.len(), 4);
    assert_eq!(env.overlaid(&Vec::new()), env);
}
