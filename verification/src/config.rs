//! What is to be built, for which platform, and where.

use vstd::prelude::*;
use vstd::string::*;
use crate::location::Location;

verus! {

/// The settings of one build, all present.
#[derive(Debug, Clone, PartialEq, Eq)]
pub struct Settings {
    /// The directory that receives the build.
    pub out_dir: String,
    /// The triple of the platform that is built for.
    pub target: String,
    /// The triple of the platform that builds.
    pub host: String,
    /// The directory that holds the vendored sources and the version marker.
    pub package_dir: String,
    /// Whether the limited Lua 5.2 compatibility is compiled in.
    pub compat: bool,
    /// Whether assertions, API checks and debug symbols are compiled in.
    pub debug: bool,
}

/// What [`Settings`] say, over plain sequences.
pub struct SettingsView {
    pub out_dir: Seq<char>,
    pub target: Seq<char>,
    pub host: Seq<char>,
    pub package_dir: Seq<char>,
    pub compat: bool,
    pub debug: bool,
}

impl View for Settings {
    type V = SettingsView;

    open spec fn view(&self) -> SettingsView {
        SettingsView {
            out_dir: self.out_dir@,
            target: self.target@,
            host: self.host@,
            package_dir: self.package_dir@,
            compat: self.compat,
            debug: self.debug,
        }
    }
}

/// The scratch directory that the sources are staged in and built in.
pub open spec fn spec_build_dir(out_dir: Seq<char>) -> Seq<Seq<char>> {
    seq![out_dir, "luajit-build"@]
}

/// The directory inside the scratch directory that the external build runs in.
pub open spec fn spec_work_dir(out_dir: Seq<char>) -> Seq<Seq<char>> {
    seq![out_dir, "luajit-build"@, "src"@]
}

/// The directory that receives the static library.
pub open spec fn spec_lib_dir(out_dir: Seq<char>) -> Seq<Seq<char>> {
    seq![out_dir, "lib"@]
}

/// The directory that receives the public headers.
pub open spec fn spec_include_dir(out_dir: Seq<char>) -> Seq<Seq<char>> {
    seq![out_dir, "include"@]
}

impl Settings {
    /// The scratch directory that the sources are staged in and built in.
    pub fn build_dir(&self) -> (r: Location)
        ensures
            r@ == spec_build_dir(self@.out_dir),
    {
        let r = Location::new(self.out_dir.as_str()).join("luajit-build");
        assert(r@ =~= spec_build_dir(self@.out_dir));
        r
    }

    /// The directory inside the scratch directory that the external build runs in.
    pub fn work_dir(&self) -> (r: Location)
        ensures
            r@ == spec_work_dir(self@.out_dir),
    {
        let r = self.build_dir().join("src");
        assert(r@ =~= spec_work_dir(self@.out_dir));
        r
    }

    /// The directory that receives the static library.
    pub fn lib_dir(&self) -> (r: Location)
        ensures
            r@ == spec_lib_dir(self@.out_dir),
    {
        let r = Location::new(self.out_dir.as_str()).join("lib");
        assert(r@ =~= spec_lib_dir(self@.out_dir));
        r
    }

    /// The directory that receives the public headers.
    pub fn include_dir(&self) -> (r: Location)
        ensures
            r@ == spec_include_dir(self@.out_dir),
    {
        let r = Location::new(self.out_dir.as_str()).join("include");
        assert(r@ =~= spec_include_dir(self@.out_dir));
        r
    }
}

} // verus!
