use luajit_src::config::Settings;
use luajit_src::stage::{entry_action, entry_ops, stage_ops, staging_ops, EntryAction};
use luajit_src::{FsOp, Location};

fn settings() -> Settings {
    Settings {
        out_dir: String::from("/out"),
        target: String::from("x86_64-unknown-linux-gnu"),
        host: String::from("x86_64-unknown-linux-gnu"),
        package_dir: String::from("/pkg"),
        compat: false,
        debug: false,
    }
}

#[test]
fn version_control_metadata_is_left_out() {
    let from = Location::new("/pkg").join("luajit2");
    let to = Location::new("/out").join("luajit-build");
    assert_eq!(entry_ops(&from, &to, ".git", ".git", true), Vec::<FsOp>::new());
    assert_eq!(entry_ops(&from, &to, ".git", ".git", false), Vec::<FsOp>::new());
}

#[test]
fn names_that_only_resemble_the_metadata_are_copied() {
    let from = Location::new("/pkg");
    let to = Location::new("/out");
    assert_eq!(
        entry_ops(&from, &to, ".git", ".gitignore", false),
        vec![FsOp::ReplaceFile { from: from.join(".gitignore"), to: to.join(".gitignore") }]
    );
    assert_eq!(entry_ops(&from, &to, ".git", "git", false).len(), 1);
    assert_eq!(entry_ops(&from, &to, ".git", ".GIT", true).len(), 2);
}

#[test]
fn a_directory_is_created_and_then_copied() {
    let from = Location::new("/pkg").join("luajit2");
    let to = Location::new("/out").join("luajit-build");
    assert_eq!(
        entry_ops(&from, &to, ".git", "src", true),
        vec![
            FsOp::CreateDir(to.join("src")),
            FsOp::CopyTree { from: from.join("src"), to: to.join("src"), skip: String::from(".git") },
        ]
    );
}

#[test]
fn a_file_replaces_what_is_there() {
    let from = Location::new("/pkg").join("luajit2").join("src");
    let to = Location::new("/out").join("luajit-build").join("src");
    assert_eq!(
        entry_ops(&from, &to, ".git", "lua.h", false),
        vec![FsOp::ReplaceFile { from: from.join("lua.h"), to: to.join("lua.h") }]
    );
}

#[test]
fn staging_a_tree_empties_the_destination_first() {
    let from = Location::new("/a");
    let to = Location::new("/b");
    assert_eq!(
        stage_ops(&from, &to, ".hg"),
        vec![
            FsOp::RemoveDir(to.duplicate()),
            FsOp::CreateDir(to.duplicate()),
            FsOp::CopyTree { from, to, skip: String::from(".hg") },
        ]
    );
}

#[test]
fn staging_for_make() {
    let out = Location::new("/out");
    let pkg = Location::new("/pkg");
    let build = out.join("luajit-build");
    assert_eq!(
        staging_ops(&settings(), false),
        vec![
            FsOp::RemoveDir(build.duplicate()),
            FsOp::CreateDir(build.duplicate()),
            FsOp::RemoveDir(out.join("lib")),
            FsOp::CreateDir(out.join("lib")),
            FsOp::RemoveDir(out.join("include")),
            FsOp::CreateDir(out.join("include")),
            FsOp::CopyTree {
                from: pkg.join("luajit2"),
                to: build.duplicate(),
                skip: String::from(".git"),
            },
            FsOp::CopyFile { from: pkg.join("luajit_relver.txt"), to: build.join(".relver") },
            FsOp::MakeWritable(build.join(".relver")),
        ]
    );
}

#[test]
fn staging_for_the_msvc_tools_makes_the_marker_writable_too() {
    let ops = staging_ops(&settings(), true);
    assert_eq!(ops.len(), 9);
    assert_eq!(
        ops[8],
        FsOp::MakeWritable(Location::new("/out").join("luajit-build").join(".relver"))
    );
    assert_eq!(ops, staging_ops(&settings(), false));
}

#[test]
fn staging_twice_asks_for_the_same_steps() {
    assert_eq!(staging_ops(&settings(), false), staging_ops(&settings(), false));
}

#[test]
fn what_is_done_with_an_entry() {
    assert_eq!(entry_action(".git", ".git", true), EntryAction::Skip);
    assert_eq!(entry_action(".git", ".git", false), EntryAction::Skip);
    assert_eq!(entry_action(".git", "src", true), EntryAction::Descend);
    assert_eq!(entry_action(".git", "lua.h", false), EntryAction::Replace);
    assert_eq!(entry_action(".git", ".git\u{fffd}", false), EntryAction::Replace);
    assert_eq!(entry_action("", "", true), EntryAction::Skip);
}
