use luajit_src::artifacts::{collection_ops, headers, lib_file, lib_name};
use luajit_src::config::Settings;
use luajit_src::{Artifacts, FsOp, Location};

fn settings() -> Settings {
    Settings {
        out_dir: String::from("/out"),
        target: String::from("x86_64-unknown-linux-gnu"),
        host: String::from("x86_64-unknown-linux-gnu"),
        package_dir: String::from("/pkg"),
        compat: false,
        debug: false,
    }
}

#[test]
fn the_public_headers() {
    assert_eq!(headers(), vec!["lauxlib.h", "lua.h", "luaconf.h", "luajit.h", "lualib.h"]);
}

#[test]
fn the_library_by_family() {
    assert_eq!(lib_name(false), "luajit");
    assert_eq!(lib_file(false), "libluajit.a");
    assert_eq!(lib_name(true), "lua51");
    assert_eq!(lib_file(true), "lua51.lib");
}

#[test]
fn collection_after_make() {
    let src = Location::new("/out").join("luajit-build").join("src");
    let inc = Location::new("/out").join("include");
    let lib = Location::new("/out").join("lib");
    let mut expected = Vec::new();
    for header in ["lauxlib.h", "lua.h", "luaconf.h", "luajit.h", "lualib.h"] {
        expected.push(FsOp::CopyFile { from: src.join(header), to: inc.join(header) });
    }
    expected.push(FsOp::CopyIfPresent { from: src.join("libluajit.a"), to: lib.join("libluajit.a") });
    assert_eq!(collection_ops(&settings(), false), expected);
}

#[test]
fn collection_after_the_batch_script() {
    let ops = collection_ops(&settings(), true);
    assert_eq!(ops.len(), 6);
    assert_eq!(
        ops[5],
        FsOp::CopyIfPresent {
            from: Location::new("/out").join("luajit-build").join("src").join("lua51.lib"),
            to: Location::new("/out").join("lib").join("lua51.lib"),
        }
    );
    assert_eq!(ops[..5], collection_ops(&settings(), false)[..5]);
}

#[test]
fn artifacts_name_the_library_without_decoration() {
    let made = Artifacts::make(Location::new("/i"), Location::new("/l"), false);
    assert_eq!(made.include_dir(), &Location::new("/i"));
    assert_eq!(made.lib_dir(), &Location::new("/l"));
    assert_eq!(made.libs(), [String::from("luajit")]);
    let msvc = Artifacts::make(Location::new("/i"), Location::new("/l"), true);
    assert_eq!(msvc.libs(), [String::from("lua51")]);
}

#[test]
fn artifacts_of_settings() {
    let made = Artifacts::of(&settings(), false);
    assert_eq!(made.include_dir(), &Location::new("/out").join("include"));
    assert_eq!(made.lib_dir(), &Location::new("/out").join("lib"));
    assert_eq!(made.libs(), [String::from("luajit")]);
    assert_eq!(made, Artifacts::make(settings().include_dir(), settings().lib_dir(), false));
}

#[test]
fn cargo_is_told_how_to_link() {
    let made = Artifacts::of(&settings(), false);
    assert_eq!(
        made.cargo_metadata("/out/lib"),
        vec![
            "cargo:rerun-if-env-changed=HOST_CC",
            "cargo:rerun-if-env-changed=STATIC_CC",
            "cargo:rerun-if-env-changed=TARGET_LD",
            "cargo:rerun-if-env-changed=TARGET_AR",
            "cargo:rerun-if-env-changed=TARGET_STRIP",
            "cargo:rerun-if-env-changed=MACOSX_DEPLOYMENT_TARGET",
            "cargo:rustc-link-search=native=/out/lib",
            "cargo:rustc-link-lib=static=luajit",
        ]
    );
    let msvc = Artifacts::of(&settings(), true);
    assert_eq!(msvc.cargo_metadata("C:\\out\\lib")[6], "cargo:rustc-link-search=native=C:\\out\\lib");
    assert_eq!(msvc.cargo_metadata("C:\\out\\lib")[7], "cargo:rustc-link-lib=static=lua51");
}
