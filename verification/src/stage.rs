//! Staging: a fresh copy of the vendored sources in the scratch directory.
//!
//! Every build wipes what an earlier one left and copies the sources anew, without the
//! metadata of version control. The steps are listed here; the caller performs them.

use vstd::prelude::*;
use vstd::string::*;
use crate::config::{
    spec_build_dir, spec_include_dir, spec_lib_dir, Settings, SettingsView,
};
use crate::location::Location;
use crate::ops::{lemma_ops_push, spec_ops, FsOp, FsOpView};
use crate::text::same_text;

verus! {

/// The name of the entries that hold the metadata of version control.
pub open spec fn spec_metadata() -> Seq<char> {
    ".git"@
}

/// What is done with one entry of a directory that is being copied.
#[derive(Debug, Clone, Copy, PartialEq, Eq, Structural)]
pub enum EntryAction {
    /// Leave the entry out.
    Skip,
    /// Create the directory and copy what it holds in the same way.
    Descend,
    /// Put the file in the place of what may be there.
    Replace,
}

/// What is done with the entry `name` of a directory that is copied without the entries
/// named `skip`: nothing for an entry of that name, be it a file or a directory; else a
/// directory is descended into and anything else replaces what is there.
pub open spec fn spec_entry_action(skip: Seq<char>, name: Seq<char>, is_dir: bool) -> EntryAction {
    if name == skip {
        EntryAction::Skip
    } else if is_dir {
        EntryAction::Descend
    } else {
        EntryAction::Replace
    }
}

/// The steps that [`spec_entry_action`] stands for, with their places.
pub open spec fn spec_entry_ops(
    from: Seq<Seq<char>>,
    to: Seq<Seq<char>>,
    skip: Seq<char>,
    name: Seq<char>,
    is_dir: bool,
) -> Seq<FsOpView> {
    match spec_entry_action(skip, name, is_dir) {
        EntryAction::Skip => Seq::empty(),
        EntryAction::Descend => seq![
            FsOpView::CreateDir(to.push(name)),
            FsOpView::CopyTree { from: from.push(name), to: to.push(name), skip },
        ],
        EntryAction::Replace => seq![
            FsOpView::ReplaceFile { from: from.push(name), to: to.push(name) },
        ],
    }
}

/// Emptying a directory: remove it with all it holds, then create it.
pub open spec fn spec_reset(dir: Seq<Seq<char>>) -> Seq<FsOpView> {
    seq![FsOpView::RemoveDir(dir), FsOpView::CreateDir(dir)]
}

/// Staging one tree: empty the destination, then copy into it what the source holds, but for
/// the entries named `skip`.
pub open spec fn spec_stage(from: Seq<Seq<char>>, to: Seq<Seq<char>>, skip: Seq<char>) -> Seq<
    FsOpView,
> {
    spec_reset(to).push(FsOpView::CopyTree { from, to, skip })
}

/// Where the vendored sources are.
pub open spec fn spec_source_dir(package_dir: Seq<char>) -> Seq<Seq<char>> {
    seq![package_dir, "luajit2"@]
}

/// Where the version marker is.
pub open spec fn spec_marker(package_dir: Seq<char>) -> Seq<Seq<char>> {
    seq![package_dir, "luajit_relver.txt"@]
}

/// Where the staged tree expects the version marker.
pub open spec fn spec_staged_marker(out_dir: Seq<char>) -> Seq<Seq<char>> {
    spec_build_dir(out_dir).push(".relver"@)
}

/// The steps that stage a build: empty the scratch directory and the two directories of
/// results, copy the sources without the metadata of version control, then the version
/// marker, which is made writable, since the external build edits it. The steps are the same
/// for make and for the MSVC tools.
pub open spec fn spec_staging(s: SettingsView, msvc: bool) -> Seq<FsOpView> {
    spec_reset(spec_build_dir(s.out_dir)) + spec_reset(spec_lib_dir(s.out_dir)) + spec_reset(
        spec_include_dir(s.out_dir),
    ) + seq![
        FsOpView::CopyTree {
            from: spec_source_dir(s.package_dir),
            to: spec_build_dir(s.out_dir),
            skip: spec_metadata(),
        },
        FsOpView::CopyFile { from: spec_marker(s.package_dir), to: spec_staged_marker(s.out_dir) },
        FsOpView::MakeWritable(spec_staged_marker(s.out_dir)),
    ]
}

/// What is done with the entry `name` of a directory that is copied without the entries
/// named `skip`.
pub fn entry_action(skip: &str, name: &str, is_dir: bool) -> (r: EntryAction)
    ensures
        r == spec_entry_action(skip@, name@, is_dir),
{
    if same_text(name, skip) {
        EntryAction::Skip
    } else if is_dir {
        EntryAction::Descend
    } else {
        EntryAction::Replace
    }
}

/// The steps for the entry `name` of the directory `from` while it is copied into `to` without
/// the entries named `skip`.
pub fn entry_ops(from: &Location, to: &Location, skip: &str, name: &str, is_dir: bool) -> (r: Vec<
    FsOp,
>)
    ensures
        spec_ops(r@) == spec_entry_ops(from@, to@, skip@, name@, is_dir),
{
    let mut ops: Vec<FsOp> = Vec::new();
    match entry_action(skip, name, is_dir) {
        EntryAction::Skip => {
            assert(spec_ops(ops@) =~= Seq::empty());
        },
        EntryAction::Descend => {
            ops.push(FsOp::CreateDir(to.join(name)));
            ops.push(
                FsOp::CopyTree { from: from.join(name), to: to.join(name), skip: skip.to_owned() },
            );
            assert(spec_ops(ops@) =~= spec_entry_ops(from@, to@, skip@, name@, is_dir));
        },
        EntryAction::Replace => {
            ops.push(FsOp::ReplaceFile { from: from.join(name), to: to.join(name) });
            assert(spec_ops(ops@) =~= spec_entry_ops(from@, to@, skip@, name@, is_dir));
        },
    }
    ops
}

fn push_reset(ops: &mut Vec<FsOp>, dir: &Location)
    ensures
        spec_ops(final(ops)@) == spec_ops(old(ops)@) + spec_reset(dir@),
{
    let remove = FsOp::RemoveDir(dir.duplicate());
    let create = FsOp::CreateDir(dir.duplicate());
    proof {
        lemma_ops_push(ops@, remove);
        lemma_ops_push(ops@.push(remove), create);
    }
    ops.push(remove);
    ops.push(create);
    assert(spec_ops(ops@) =~= spec_ops(old(ops)@) + spec_reset(dir@));
}

/// The steps that stage the tree `from` in `to`: whatever `to` held is removed first, so that
/// nothing of an earlier staging is left.
pub fn stage_ops(from: &Location, to: &Location, skip: &str) -> (r: Vec<FsOp>)
    ensures
        spec_ops(r@) == spec_stage(from@, to@, skip@),
{
    let mut ops: Vec<FsOp> = Vec::new();
    assert(spec_ops(ops@) =~= Seq::empty());
    push_reset(&mut ops, to);
    let tree = FsOp::CopyTree { from: from.duplicate(), to: to.duplicate(), skip: skip.to_owned() };
    proof {
        lemma_ops_push(ops@, tree);
    }
    ops.push(tree);
    assert(spec_ops(ops@) =~= spec_stage(from@, to@, skip@));
    ops
}

/// The steps that stage a build, in the order they are due.
pub fn staging_ops(settings: &Settings, msvc: bool) -> (r: Vec<FsOp>)
    ensures
        spec_ops(r@) == spec_staging(settings@, msvc),
{
    let build_dir = settings.build_dir();
    let package = Location::new(settings.package_dir.as_str());
    let source = package.join("luajit2");
    let marker = package.join("luajit_relver.txt");
    let staged = build_dir.join(".relver");
    assert(source@ =~= spec_source_dir(settings@.package_dir));
    assert(marker@ =~= spec_marker(settings@.package_dir));
    let mut ops: Vec<FsOp> = Vec::new();
    assert(spec_ops(ops@) =~= Seq::empty());
    push_reset(&mut ops, &build_dir);
    push_reset(&mut ops, &settings.lib_dir());
    push_reset(&mut ops, &settings.include_dir());
    let ghost resets = spec_ops(ops@);
    let tree = FsOp::CopyTree { from: source, to: build_dir, skip: ".git".to_owned() };
    let copy = FsOp::CopyFile { from: marker, to: staged.duplicate() };
    let writable = FsOp::MakeWritable(staged);
    proof {
        lemma_ops_push(ops@, tree);
        lemma_ops_push(ops@.push(tree), copy);
        lemma_ops_push(ops@.push(tree).push(copy), writable);
    }
    ops.push(tree);
    ops.push(copy);
    ops.push(writable);
    assert(spec_ops(ops@) =~= resets + seq![tree@, copy@, writable@]);
    assert(spec_ops(ops@) =~= spec_staging(settings@, msvc));
    ops
}

} // verus!
