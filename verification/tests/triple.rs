use luajit_src::text::chars_of;
use luajit_src::triple::{apple_shape, next_dash, probe_takes, range_is};

#[test]
fn the_next_hyphen_is_found_from_a_place_on() {
    let chars = chars_of("x86_64-apple-darwin");
    assert_eq!(next_dash(&chars, 0), 6);
    assert_eq!(next_dash(&chars, 6), 6);
    assert_eq!(next_dash(&chars, 7), 12);
    assert_eq!(next_dash(&chars, 13), 19);
    assert_eq!(next_dash(&chars, 19), 19);
    assert_eq!(next_dash(&chars, 40), 19);
    assert_eq!(next_dash(&chars_of(""), 0), 0);
}

#[test]
fn a_range_spells_a_word() {
    let chars = chars_of("x86_64-apple-darwin");
    assert!(range_is(&chars, 7, 12, "apple"));
    assert!(!range_is(&chars, 7, 12, "appl"));
    assert!(!range_is(&chars, 7, 11, "apple"));
    assert!(!range_is(&chars, 7, 12, "grape"));
    assert!(range_is(&chars, 3, 3, ""));
    assert!(!range_is(&chars, 12, 7, ""));
    assert!(!range_is(&chars, 13, 20, "darwin-"));
}

#[test]
fn the_probe_takes_the_targets_that_are_built_for() {
    for target in [
        "x86_64-unknown-linux-gnu",
        "arm-unknown-linux-gnueabihf",
        "x86_64-apple-darwin",
        "aarch64-apple-darwin",
        "aarch64-apple-ios",
        "aarch64-apple-ios-sim",
        "aarch64-apple-ios-macabi",
        "aarch64-apple-tvos",
        "aarch64-apple-watchos",
        "aarch64-apple-visionos",
        "x86_64-apple-macos",
        "x86_64-pc-windows-msvc",
        "x86_64-pc-windows-gnu",
        "x86_64-unknown-freebsd",
        "wasm32-wasip1",
        "x86_64-apple-darwin-macabi",
    ] {
        assert!(probe_takes(target), "{target}");
    }
}

#[test]
fn the_shape_of_an_apple_target() {
    assert!(apple_shape("aarch64-apple-darwin"));
    assert!(apple_shape("aarch64-apple-ios-sim"));
    assert!(!apple_shape("aarch64-apple"));
    assert!(!apple_shape("aarch64-apple-linux"));
    assert!(!apple_shape("aarch64-unknown-darwin"));
    assert!(!apple_shape("apple-darwin"));
    assert!(!apple_shape(""));
}

#[test]
fn the_probe_does_not_take_an_apple_target_of_another_system() {
    for target in [
        "x86_64-apple-linux",
        "x86_64-apple-linux-gnu",
        "x86_64-apple-darwinx",
        "x86_64-apple-",
        "x86_64-apple--darwin",
        "a-apple-windows-msvc",
        "x86_64-unknown-linux-macabi",
        "x86_64-unknown-wasimacabi",
        "x86_64-pineapple-linux-gnu",
        "x86_64-apple",
        "apple",
        "",
    ] {
        assert!(!probe_takes(target), "{target}");
    }
}
