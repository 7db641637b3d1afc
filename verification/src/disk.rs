//! What the steps on the file system mean, over a model of a disk.
//!
//! The library performs no step itself, so what a step does is stated here once: as a function
//! from the disk before to the disk after, for a step that succeeds. The laws of staging are
//! proved over this model.

use vstd::prelude::*;
use vstd::string::*;
use crate::config::{spec_build_dir, spec_include_dir, spec_lib_dir, SettingsView};
use crate::ops::FsOpView;
use crate::stage::{
    spec_marker, spec_metadata, spec_source_dir, spec_stage, spec_staged_marker, spec_staging,
};

verus! {

/// What lies at a place: a directory, or a file with its bytes.
pub enum Node {
    Dir,
    File(Seq<u8>),
}

/// `dir` is `path` or lies above it.
pub open spec fn spec_within(path: Seq<Seq<char>>, dir: Seq<Seq<char>>) -> bool {
    dir.len() <= path.len() && path.subrange(0, dir.len() as int) == dir
}

/// `dir` lies above `path`.
pub open spec fn spec_below(path: Seq<Seq<char>>, dir: Seq<Seq<char>>) -> bool {
    dir.len() < path.len() && spec_within(path, dir)
}

/// Neither place lies in the other.
pub open spec fn spec_apart(one: Seq<Seq<char>>, other: Seq<Seq<char>>) -> bool {
    !spec_within(one, other) && !spec_within(other, one)
}

/// The steps that lead from `dir` down to `path`.
pub open spec fn spec_steps_below(path: Seq<Seq<char>>, dir: Seq<Seq<char>>) -> Seq<Seq<char>> {
    path.subrange(dir.len() as int, path.len() as int)
}

/// No step of `steps` goes by the name `skip`.
pub open spec fn spec_avoids(steps: Seq<Seq<char>>, skip: Seq<char>) -> bool {
    forall|i: int| 0 <= i < steps.len() ==> steps[i] != skip
}

/// Whether copying the tree `from` into `to` puts something at `path`: `path` lies below `to`,
/// the steps that lead to it avoid `skip`, and the source has something at the same steps.
pub open spec fn spec_copied(
    disk: Map<Seq<Seq<char>>, Node>,
    from: Seq<Seq<char>>,
    to: Seq<Seq<char>>,
    skip: Seq<char>,
    path: Seq<Seq<char>>,
) -> bool {
    &&& spec_below(path, to)
    &&& spec_avoids(spec_steps_below(path, to), skip)
    &&& disk.contains_key(from + spec_steps_below(path, to))
}

/// The disk after the step `op` has succeeded on `disk`.
///
/// Removing a directory takes it away with all that lies below it. Creating one adds it and
/// the directories above it that are missing. Copying a tree adds below the destination what
/// lies below the source, but for what is reached through a skipped name; its source and its
/// destination are taken to lie apart. Copying a file puts the source's node at the
/// destination. Permissions are not part of the model.
pub open spec fn spec_perform(op: FsOpView, disk: Map<Seq<Seq<char>>, Node>) -> Map<
    Seq<Seq<char>>,
    Node,
> {
    match op {
        FsOpView::RemoveDir(dir) => Map::new(
            |path: Seq<Seq<char>>| disk.contains_key(path) && !spec_within(path, dir),
            |path: Seq<Seq<char>>| disk[path],
        ),
        FsOpView::CreateDir(dir) => Map::new(
            |path: Seq<Seq<char>>|
                disk.contains_key(path) || (path.len() > 0 && spec_within(dir, path)),
            |path: Seq<Seq<char>>|
                if disk.contains_key(path) {
                    disk[path]
                } else {
                    Node::Dir
                },
        ),
        FsOpView::CopyTree { from, to, skip } => Map::new(
            |path: Seq<Seq<char>>|
                disk.contains_key(path) || spec_copied(disk, from, to, skip, path),
            |path: Seq<Seq<char>>|
                if spec_copied(disk, from, to, skip, path) {
                    disk[from + spec_steps_below(path, to)]
                } else {
                    disk[path]
                },
        ),
        FsOpView::CopyFile { from, to } => if disk.contains_key(from) {
            disk.insert(to, disk[from])
        } else {
            disk
        },
        FsOpView::ReplaceFile { from, to } => if disk.contains_key(from) {
            disk.insert(to, disk[from])
        } else {
            disk
        },
        FsOpView::CopyIfPresent { from, to } => if disk.contains_key(from) {
            disk.insert(to, disk[from])
        } else {
            disk
        },
        FsOpView::MakeWritable(at) => disk,
    }
}

/// The disk after the steps `ops` have succeeded on `disk`, one after the other.
pub open spec fn spec_perform_all(ops: Seq<FsOpView>, disk: Map<Seq<Seq<char>>, Node>) -> Map<
    Seq<Seq<char>>,
    Node,
>
    decreases ops.len(),
{
    if ops.len() == 0 {
        disk
    } else {
        spec_perform(ops.last(), spec_perform_all(ops.drop_last(), disk))
    }
}

/// The disk after the tree `from` has been staged in `to`.
pub open spec fn spec_staged(
    disk: Map<Seq<Seq<char>>, Node>,
    from: Seq<Seq<char>>,
    to: Seq<Seq<char>>,
    skip: Seq<char>,
) -> Map<Seq<Seq<char>>, Node> {
    spec_perform_all(spec_stage(from, to, skip), disk)
}

/// Staging is its three steps in a row.
proof fn lemma_staged(
    disk: Map<Seq<Seq<char>>, Node>,
    from: Seq<Seq<char>>,
    to: Seq<Seq<char>>,
    skip: Seq<char>,
)
    ensures
        spec_staged(disk, from, to, skip) == spec_perform(
            FsOpView::CopyTree { from, to, skip },
            spec_perform(FsOpView::CreateDir(to), spec_perform(FsOpView::RemoveDir(to), disk)),
        ),
{
    let ops = spec_stage(from, to, skip);
    let two = ops.drop_last();
    let one = two.drop_last();
    assert(one.drop_last().len() == 0);
    assert(spec_perform_all(one.drop_last(), disk) == disk);
    assert(spec_perform_all(one, disk) == spec_perform(FsOpView::RemoveDir(to), disk));
    assert(spec_perform_all(two, disk) == spec_perform(
        FsOpView::CreateDir(to),
        spec_perform_all(one, disk),
    ));
}

/// Of two places above the same place, the shorter lies above the longer.
proof fn lemma_above_the_same(one: Seq<Seq<char>>, other: Seq<Seq<char>>, path: Seq<Seq<char>>)
    requires
        spec_within(path, one),
        spec_within(path, other),
        one.len() <= other.len(),
    ensures
        spec_within(other, one),
{
    assert(other.subrange(0, one.len() as int) =~= path.subrange(0, one.len() as int));
}

/// Staging is idempotent. Staging a tree a second time in the same destination leaves the
/// disk as the first staging left it.
pub proof fn law_staging_is_idempotent(
    disk: Map<Seq<Seq<char>>, Node>,
    from: Seq<Seq<char>>,
    to: Seq<Seq<char>>,
    skip: Seq<char>,
)
    requires
        spec_apart(from, to),
    ensures
        spec_staged(spec_staged(disk, from, to, skip), from, to, skip) == spec_staged(
            disk,
            from,
            to,
            skip,
        ),
{
    let emptied = spec_perform(FsOpView::RemoveDir(to), disk);
    let created = spec_perform(FsOpView::CreateDir(to), emptied);
    let once = spec_perform(FsOpView::CopyTree { from, to, skip }, created);
    let emptied_again = spec_perform(FsOpView::RemoveDir(to), once);
    let created_again = spec_perform(FsOpView::CreateDir(to), emptied_again);
    lemma_staged(disk, from, to, skip);
    lemma_staged(once, from, to, skip);
    assert(created_again =~= created);
}

/// Staging leaves nothing behind. After staging, the destination is a directory, and below it
/// lies exactly what lies below the source at steps that avoid the skipped name, node for
/// node, whatever the destination held before.
pub proof fn law_staged_is_the_source(
    disk: Map<Seq<Seq<char>>, Node>,
    from: Seq<Seq<char>>,
    to: Seq<Seq<char>>,
    skip: Seq<char>,
    steps: Seq<Seq<char>>,
)
    requires
        spec_apart(from, to),
        to.len() > 0,
        steps.len() > 0,
    ensures
        ({
            let staged = spec_staged(disk, from, to, skip);
            &&& staged.contains_key(to) && staged[to] == Node::Dir
            &&& staged.contains_key(to + steps) <==> spec_avoids(steps, skip) && disk.contains_key(
                from + steps,
            )
            &&& staged.contains_key(to + steps) ==> staged[to + steps] == disk[from + steps]
        }),
{
    let emptied = spec_perform(FsOpView::RemoveDir(to), disk);
    let created = spec_perform(FsOpView::CreateDir(to), emptied);
    lemma_staged(disk, from, to, skip);
    let path = to + steps;
    let source = from + steps;
    assert(path.subrange(0, to.len() as int) =~= to);
    assert(source.subrange(0, from.len() as int) =~= from);
    assert(spec_steps_below(path, to) =~= steps);
    assert(to.subrange(0, to.len() as int) =~= to);
    assert(!spec_within(source, to)) by {
        if spec_within(source, to) {
            if from.len() <= to.len() {
                lemma_above_the_same(from, to, source);
            } else {
                lemma_above_the_same(to, from, source);
            }
        }
    }
    assert(!spec_within(to, source)) by {
        if spec_within(to, source) {
            assert(to.subrange(0, from.len() as int) =~= source.subrange(0, from.len() as int));
        }
    }
    assert(created.contains_key(source) == disk.contains_key(source));
    assert(disk.contains_key(source) ==> created[source] == disk[source]);
    assert(!created.contains_key(path));
}

/// Performing a list of steps and one more is performing the one on what the list leaves.
proof fn lemma_perform_one_more(
    ops: Seq<FsOpView>,
    op: FsOpView,
    disk: Map<Seq<Seq<char>>, Node>,
)
    ensures
        spec_perform_all(ops.push(op), disk) == spec_perform(op, spec_perform_all(ops, disk)),
{
    assert(ops.push(op).drop_last() =~= ops);
}

/// The disk after the first six steps of staging a build: the three directories emptied.
pub open spec fn spec_emptied(disk: Map<Seq<Seq<char>>, Node>, s: SettingsView) -> Map<
    Seq<Seq<char>>,
    Node,
> {
    let build = spec_build_dir(s.out_dir);
    let lib = spec_lib_dir(s.out_dir);
    let inc = spec_include_dir(s.out_dir);
    let d1 = spec_perform(FsOpView::RemoveDir(build), disk);
    let d2 = spec_perform(FsOpView::CreateDir(build), d1);
    let d3 = spec_perform(FsOpView::RemoveDir(lib), d2);
    let d4 = spec_perform(FsOpView::CreateDir(lib), d3);
    let d5 = spec_perform(FsOpView::RemoveDir(inc), d4);
    spec_perform(FsOpView::CreateDir(inc), d5)
}

/// The disk after the steps of staging a build that follow the emptying.
pub open spec fn spec_filled(
    emptied: Map<Seq<Seq<char>>, Node>,
    s: SettingsView,
    msvc: bool,
) -> Map<Seq<Seq<char>>, Node> {
    let tree = spec_perform(
        FsOpView::CopyTree {
            from: spec_source_dir(s.package_dir),
            to: spec_build_dir(s.out_dir),
            skip: spec_metadata(),
        },
        emptied,
    );
    let marked = spec_perform(
        FsOpView::CopyFile { from: spec_marker(s.package_dir), to: spec_staged_marker(s.out_dir) },
        tree,
    );
    spec_perform(FsOpView::MakeWritable(spec_staged_marker(s.out_dir)), marked)
}

/// Staging a build is emptying, then filling.
proof fn lemma_build_staged(disk: Map<Seq<Seq<char>>, Node>, s: SettingsView, msvc: bool)
    ensures
        spec_perform_all(spec_staging(s, msvc), disk) == spec_filled(
            spec_emptied(disk, s),
            s,
            msvc,
        ),
{
    let ops = spec_staging(s, msvc);
    let ran0 = Seq::<FsOpView>::empty();
    let ran1 = ran0.push(ops[0]);
    let ran2 = ran1.push(ops[1]);
    let ran3 = ran2.push(ops[2]);
    let ran4 = ran3.push(ops[3]);
    let ran5 = ran4.push(ops[4]);
    let ran6 = ran5.push(ops[5]);
    let ran7 = ran6.push(ops[6]);
    let ran8 = ran7.push(ops[7]);
    lemma_perform_one_more(ran0, ops[0], disk);
    lemma_perform_one_more(ran1, ops[1], disk);
    lemma_perform_one_more(ran2, ops[2], disk);
    lemma_perform_one_more(ran3, ops[3], disk);
    lemma_perform_one_more(ran4, ops[4], disk);
    lemma_perform_one_more(ran5, ops[5], disk);
    lemma_perform_one_more(ran6, ops[6], disk);
    lemma_perform_one_more(ran7, ops[7], disk);
    let ran9 = ran8.push(ops[8]);
    lemma_perform_one_more(ran8, ops[8], disk);
    assert(ops =~= ran9);
}

/// A place below a directory carries the directory's names at its start.
proof fn lemma_within_names(path: Seq<Seq<char>>, dir: Seq<Seq<char>>, i: int)
    requires
        spec_within(path, dir),
        0 <= i < dir.len(),
    ensures
        path[i] == dir[i],
{
    assert(path.subrange(0, dir.len() as int)[i] == path[i]);
}

/// The three directories of a build lie apart.
proof fn lemma_directories_apart(out_dir: Seq<char>, path: Seq<Seq<char>>)
    ensures
        !(spec_within(path, spec_build_dir(out_dir)) && spec_within(path, spec_lib_dir(out_dir))),
        !(spec_within(path, spec_build_dir(out_dir)) && spec_within(
            path,
            spec_include_dir(out_dir),
        )),
        !(spec_within(path, spec_lib_dir(out_dir)) && spec_within(path, spec_include_dir(out_dir))),
{
    reveal_strlit("luajit-build");
    reveal_strlit("lib");
    reveal_strlit("include");
    assert("luajit-build"@.len() == 12 && "lib"@.len() == 3 && "include"@.len() == 7);
    if spec_within(path, spec_build_dir(out_dir)) {
        lemma_within_names(path, spec_build_dir(out_dir), 1);
    }
    if spec_within(path, spec_lib_dir(out_dir)) {
        lemma_within_names(path, spec_lib_dir(out_dir), 1);
    }
    if spec_within(path, spec_include_dir(out_dir)) {
        lemma_within_names(path, spec_include_dir(out_dir), 1);
    }
}

/// A place lies within itself; two places that lie within each other are one; and what lies
/// within a place lies within what that place lies within.
proof fn lemma_within_is_an_order(one: Seq<Seq<char>>, two: Seq<Seq<char>>, three: Seq<Seq<char>>)
    ensures
        spec_within(one, one),
        spec_within(one, two) && spec_within(two, one) ==> one == two,
        spec_within(one, two) && spec_within(two, three) ==> spec_within(one, three),
{
    assert(one.subrange(0, one.len() as int) =~= one);
    if spec_within(one, two) && spec_within(two, one) {
        assert(one =~= two);
    }
    if spec_within(one, two) && spec_within(two, three) {
        assert(one.subrange(0, three.len() as int) =~= one.subrange(0, two.len() as int).subrange(
            0,
            three.len() as int,
        ));
    }
}

/// What emptying the three directories of a build leaves at a place: the directory itself
/// where the place is one of the three, nothing where it lies below one, and elsewhere what
/// was there, or a directory where the place lies above one of the three.
proof fn lemma_emptied(disk: Map<Seq<Seq<char>>, Node>, s: SettingsView, path: Seq<Seq<char>>)
    ensures
        ({
            let build = spec_build_dir(s.out_dir);
            let lib = spec_lib_dir(s.out_dir);
            let inc = spec_include_dir(s.out_dir);
            let emptied = spec_emptied(disk, s);
            let inside = spec_within(path, build) || spec_within(path, lib) || spec_within(
                path,
                inc,
            );
            let above = path.len() > 0 && (spec_within(build, path) || spec_within(lib, path)
                || spec_within(inc, path));
            &&& inside ==> (emptied.contains_key(path) <==> path == build || path == lib || path
                == inc)
            &&& inside && emptied.contains_key(path) ==> emptied[path] == Node::Dir
            &&& !inside ==> (emptied.contains_key(path) <==> disk.contains_key(path) || above)
            &&& !inside && disk.contains_key(path) ==> emptied[path] == disk[path]
            &&& !inside && !disk.contains_key(path) && above ==> emptied[path] == Node::Dir
        }),
{
    let build = spec_build_dir(s.out_dir);
    let lib = spec_lib_dir(s.out_dir);
    let inc = spec_include_dir(s.out_dir);
    lemma_directories_apart(s.out_dir, path);
    lemma_directories_apart(s.out_dir, build);
    lemma_directories_apart(s.out_dir, lib);
    lemma_directories_apart(s.out_dir, inc);
    lemma_within_is_an_order(build, path, build);
    lemma_within_is_an_order(lib, path, lib);
    lemma_within_is_an_order(inc, path, inc);
    lemma_within_is_an_order(path, build, path);
    lemma_within_is_an_order(path, lib, path);
    lemma_within_is_an_order(path, inc, path);
    lemma_within_is_an_order(build, path, lib);
    lemma_within_is_an_order(build, path, inc);
    lemma_within_is_an_order(lib, path, build);
    lemma_within_is_an_order(lib, path, inc);
    lemma_within_is_an_order(inc, path, build);
    lemma_within_is_an_order(inc, path, lib);
    let d1 = spec_perform(FsOpView::RemoveDir(build), disk);
    let d2 = spec_perform(FsOpView::CreateDir(build), d1);
    let d3 = spec_perform(FsOpView::RemoveDir(lib), d2);
    let d4 = spec_perform(FsOpView::CreateDir(lib), d3);
    let d5 = spec_perform(FsOpView::RemoveDir(inc), d4);
    let d6 = spec_perform(FsOpView::CreateDir(inc), d5);
    assert(d6 == spec_emptied(disk, s));
    assert(build.len() == 2 && lib.len() == 2 && inc.len() == 2);
}

/// The directories of results start empty. After a build has been staged, the directory of
/// the library and the directory of headers are there as directories, and nothing lies below
/// them, whatever the disk held before.
pub proof fn law_results_start_empty(
    disk: Map<Seq<Seq<char>>, Node>,
    s: SettingsView,
    msvc: bool,
    path: Seq<Seq<char>>,
)
    ensures
        ({
            let staged = spec_perform_all(spec_staging(s, msvc), disk);
            let lib = spec_lib_dir(s.out_dir);
            let inc = spec_include_dir(s.out_dir);
            &&& staged.contains_key(lib) && staged[lib] == Node::Dir
            &&& staged.contains_key(inc) && staged[inc] == Node::Dir
            &&& spec_below(path, lib) || spec_below(path, inc) ==> !staged.contains_key(path)
        }),
{
    let build = spec_build_dir(s.out_dir);
    let lib = spec_lib_dir(s.out_dir);
    let inc = spec_include_dir(s.out_dir);
    let marker = spec_staged_marker(s.out_dir);
    lemma_build_staged(disk, s, msvc);
    lemma_emptied(disk, s, path);
    lemma_emptied(disk, s, lib);
    lemma_emptied(disk, s, inc);
    lemma_directories_apart(s.out_dir, path);
    lemma_directories_apart(s.out_dir, lib);
    lemma_directories_apart(s.out_dir, inc);
    lemma_directories_apart(s.out_dir, marker);
    lemma_within_is_an_order(lib, lib, lib);
    lemma_within_is_an_order(inc, inc, inc);
    lemma_within_is_an_order(path, lib, path);
    lemma_within_is_an_order(path, inc, path);
    assert(spec_below(marker, build)) by {
        assert(marker.subrange(0, build.len() as int) =~= build);
    }
    assert(lib.len() == 2 && inc.len() == 2 && build.len() == 2);
}

/// Staging a build is idempotent. Staging the same build a second time leaves the disk as the
/// first staging left it: the scratch directory and the two directories of results hold
/// nothing of the first run that the second does not put there again.
pub proof fn law_build_staging_is_idempotent(
    disk: Map<Seq<Seq<char>>, Node>,
    s: SettingsView,
    msvc: bool,
)
    ensures
        spec_perform_all(spec_staging(s, msvc), spec_perform_all(spec_staging(s, msvc), disk))
            == spec_perform_all(spec_staging(s, msvc), disk),
{
    let once = spec_perform_all(spec_staging(s, msvc), disk);
    lemma_build_staged(disk, s, msvc);
    lemma_build_staged(once, s, msvc);
    let build = spec_build_dir(s.out_dir);
    let emptied = spec_emptied(disk, s);
    let again = spec_emptied(once, s);
    let marker = spec_staged_marker(s.out_dir);
    assert(spec_below(marker, build)) by {
        assert(marker.subrange(0, build.len() as int) =~= build);
    }
    assert forall|path: Seq<Seq<char>>|
        emptied.contains_key(path) == again.contains_key(path) && (emptied.contains_key(path)
            ==> emptied[path] == again[path]) by {
        lemma_emptied(disk, s, path);
        lemma_emptied(once, s, path);
        lemma_directories_apart(s.out_dir, path);
        lemma_within_is_an_order(path, build, path);
    }
    assert(again =~= emptied);
}

} // verus!
