//! What a build hands to the step that links: the headers, the library, and its name.

use vstd::prelude::*;
use vstd::string::*;
use crate::config::{spec_include_dir, spec_lib_dir, spec_work_dir, Settings, SettingsView};
use crate::location::Location;
use crate::ops::{lemma_ops_push, spec_ops, FsOp, FsOpView};
use crate::text::{chain, lemma_texts_push, spec_texts};

verus! {

/// The results of a build.
#[derive(Debug, Clone, PartialEq, Eq)]
pub struct Artifacts {
    include_dir: Location,
    lib_dir: Location,
    libs: Vec<String>,
}

/// What [`Artifacts`] say, over plain sequences.
pub struct ArtifactsView {
    pub include_dir: Seq<Seq<char>>,
    pub lib_dir: Seq<Seq<char>>,
    pub libs: Seq<Seq<char>>,
}

impl View for Artifacts {
    type V = ArtifactsView;

    closed spec fn view(&self) -> ArtifactsView {
        ArtifactsView {
            include_dir: self.include_dir@,
            lib_dir: self.lib_dir@,
            libs: spec_texts(self.libs@),
        }
    }
}

/// The public headers, in the order they are copied.
pub open spec fn spec_headers() -> Seq<Seq<char>> {
    seq!["lauxlib.h"@, "lua.h"@, "luaconf.h"@, "luajit.h"@, "lualib.h"@]
}

/// The name under which the library is linked. It carries no prefix and no extension: the
/// linker adds what its platform wants.
pub open spec fn spec_lib_name(msvc: bool) -> Seq<char> {
    if msvc {
        "lua51"@
    } else {
        "luajit"@
    }
}

/// The file that the external build leaves the library in.
pub open spec fn spec_lib_file(msvc: bool) -> Seq<char> {
    if msvc {
        "lua51.lib"@
    } else {
        "libluajit.a"@
    }
}

/// The copy of one header out of the working directory.
pub open spec fn spec_header_copy(out_dir: Seq<char>, header: Seq<char>) -> FsOpView {
    FsOpView::CopyFile {
        from: spec_work_dir(out_dir).push(header),
        to: spec_include_dir(out_dir).push(header),
    }
}

/// The steps that collect the results: each header, then the library. A library that the
/// external build did not leave in its place is passed over.
pub open spec fn spec_collection(s: SettingsView, msvc: bool) -> Seq<FsOpView> {
    Seq::new(spec_headers().len(), |i: int| spec_header_copy(s.out_dir, spec_headers()[i])).push(
        FsOpView::CopyIfPresent {
            from: spec_work_dir(s.out_dir).push(spec_lib_file(msvc)),
            to: spec_lib_dir(s.out_dir).push(spec_lib_file(msvc)),
        },
    )
}

/// The results of a build with the settings `s`.
pub open spec fn spec_artifacts(s: SettingsView, msvc: bool) -> ArtifactsView {
    ArtifactsView {
        include_dir: spec_include_dir(s.out_dir),
        lib_dir: spec_lib_dir(s.out_dir),
        libs: seq![spec_lib_name(msvc)],
    }
}

/// The lines that tell Cargo how to link: when to run the build again, where to search, and
/// each library to link statically. `lib_dir` is the library directory as the platform writes
/// it.
pub open spec fn spec_cargo_metadata(libs: Seq<Seq<char>>, lib_dir: Seq<char>) -> Seq<Seq<char>> {
    seq![
        "cargo:rerun-if-env-changed=HOST_CC"@,
        "cargo:rerun-if-env-changed=STATIC_CC"@,
        "cargo:rerun-if-env-changed=TARGET_LD"@,
        "cargo:rerun-if-env-changed=TARGET_AR"@,
        "cargo:rerun-if-env-changed=TARGET_STRIP"@,
        "cargo:rerun-if-env-changed=MACOSX_DEPLOYMENT_TARGET"@,
        "cargo:rustc-link-search=native="@ + lib_dir,
    ] + Seq::new(libs.len(), |i: int| "cargo:rustc-link-lib=static="@ + libs[i])
}

/// The public headers, in the order they are copied.
pub fn headers() -> (r: Vec<String>)
    ensures
        spec_texts(r@) == spec_headers(),
{
    let mut r: Vec<String> = Vec::new();
    r.push("lauxlib.h".to_owned());
    r.push("lua.h".to_owned());
    r.push("luaconf.h".to_owned());
    r.push("luajit.h".to_owned());
    r.push("lualib.h".to_owned());
    assert(spec_texts(r@) =~= spec_headers());
    r
}

/// The name under which the library is linked.
pub fn lib_name(msvc: bool) -> (r: &'static str)
    ensures
        r@ == spec_lib_name(msvc),
{
    if msvc {
        "lua51"
    } else {
        "luajit"
    }
}

/// The file that the external build leaves the library in.
pub fn lib_file(msvc: bool) -> (r: &'static str)
    ensures
        r@ == spec_lib_file(msvc),
{
    if msvc {
        "lua51.lib"
    } else {
        "libluajit.a"
    }
}

/// The steps that collect the results of a build, in the order they are due.
pub fn collection_ops(settings: &Settings, msvc: bool) -> (r: Vec<FsOp>)
    ensures
        spec_ops(r@) == spec_collection(settings@, msvc),
{
    let work = settings.work_dir();
    let headers_dir = settings.include_dir();
    let names = headers();
    let mut ops: Vec<FsOp> = Vec::new();
    let mut i: usize = 0;
    while i < names.len()
        invariant
            i <= names.len(),
            spec_texts(names@) == spec_headers(),
            work@ == spec_work_dir(settings@.out_dir),
            headers_dir@ == spec_include_dir(settings@.out_dir),
            spec_ops(ops@) == Seq::new(
                i as nat,
                |k: int| spec_header_copy(settings@.out_dir, spec_headers()[k]),
            ),
        decreases names.len() - i,
    {
        let name = names[i].as_str();
        assert(name@ == spec_texts(names@)[i as int]);
        let copy = FsOp::CopyFile { from: work.join(name), to: headers_dir.join(name) };
        proof {
            lemma_ops_push(ops@, copy);
        }
        ops.push(copy);
        assert(spec_ops(ops@) =~= Seq::new(
            (i + 1) as nat,
            |k: int| spec_header_copy(settings@.out_dir, spec_headers()[k]),
        ));
        i = i + 1;
    }
    assert(names@.len() == spec_texts(names@).len());
    let file = lib_file(msvc);
    let library = FsOp::CopyIfPresent { from: work.join(file), to: settings.lib_dir().join(file) };
    proof {
        lemma_ops_push(ops@, library);
    }
    ops.push(library);
    ops
}

impl Artifacts {
    /// The results that lie in `include_dir` and `lib_dir` after a build, for the MSVC tools
    /// where `msvc` holds and for make where it does not.
    pub fn make(include_dir: Location, lib_dir: Location, msvc: bool) -> (r: Artifacts)
        ensures
            r@ == (ArtifactsView {
                include_dir: include_dir@,
                lib_dir: lib_dir@,
                libs: seq![spec_lib_name(msvc)],
            }),
    {
        let mut libs: Vec<String> = Vec::new();
        libs.push(lib_name(msvc).to_owned());
        assert(spec_texts(libs@) =~= seq![spec_lib_name(msvc)]);
        Artifacts { include_dir, lib_dir, libs }
    }

    /// The results of a build with `settings`.
    pub fn of(settings: &Settings, msvc: bool) -> (r: Artifacts)
        ensures
            r@ == spec_artifacts(settings@, msvc),
    {
        Artifacts::make(settings.include_dir(), settings.lib_dir(), msvc)
    }

    /// The directory that holds the headers.
    pub fn include_dir(&self) -> (r: &Location)
        ensures
            r@ == self@.include_dir,
    {
        &self.include_dir
    }

    /// The directory that holds the library.
    pub fn lib_dir(&self) -> (r: &Location)
        ensures
            r@ == self@.lib_dir,
    {
        &self.lib_dir
    }

    /// The names of the libraries that were built, as the linker is given them.
    pub fn libs(&self) -> (r: &[String])
        ensures
            spec_texts(r@) == self@.libs,
    {
        self.libs.as_slice()
    }

    /// The lines that tell Cargo how to link these results. `lib_dir` is the library directory
    /// as the platform writes it.
    pub fn cargo_metadata(&self, lib_dir: &str) -> (r: Vec<String>)
        ensures
            spec_texts(r@) == spec_cargo_metadata(self@.libs, lib_dir@),
    {
        let mut r: Vec<String> = Vec::new();
        r.push("cargo:rerun-if-env-changed=HOST_CC".to_owned());
        r.push("cargo:rerun-if-env-changed=STATIC_CC".to_owned());
        r.push("cargo:rerun-if-env-changed=TARGET_LD".to_owned());
        r.push("cargo:rerun-if-env-changed=TARGET_AR".to_owned());
        r.push("cargo:rerun-if-env-changed=TARGET_STRIP".to_owned());
        r.push("cargo:rerun-if-env-changed=MACOSX_DEPLOYMENT_TARGET".to_owned());
        r.push(chain("cargo:rustc-link-search=native=", lib_dir));
        let ghost head = spec_texts(r@);
        assert(head =~= spec_cargo_metadata(Seq::empty(), lib_dir@));
        let mut i: usize = 0;
        while i < self.libs.len()
            invariant
                i <= self.libs.len(),
                head == spec_cargo_metadata(Seq::empty(), lib_dir@),
                spec_texts(r@) == head + Seq::new(
                    i as nat,
                    |k: int| "cargo:rustc-link-lib=static="@ + self.libs@[k]@,
                ),
            decreases self.libs.len() - i,
        {
            let line = chain("cargo:rustc-link-lib=static=", self.libs[i].as_str());
            proof {
                lemma_texts_push(r@, line);
            }
            r.push(line);
            assert(spec_texts(r@) =~= head + Seq::new(
                (i + 1) as nat,
                |k: int| "cargo:rustc-link-lib=static="@ + self.libs@[k]@,
            ));
            i = i + 1;
        }
        assert(spec_texts(r@) =~= spec_cargo_metadata(self@.libs, lib_dir@));
        r
    }
}

} // verus!
