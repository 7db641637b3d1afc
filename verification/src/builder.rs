//! The configuration of a build.

use vstd::prelude::*;
use vstd::string::*;
use crate::config::{Settings, SettingsView};
use crate::environment::{spec_lookup, spec_opt_text, Environment};
use crate::error::{BuildError, BuildErrorView, Setting};
use crate::session::{Phase, Session, SessionView};

verus! {

/// What a build finds around it: the variables it inherits, the directory that holds the
/// vendored sources and the version marker, and whether it debugs where nothing else is said.
#[derive(Debug, Clone, PartialEq, Eq)]
pub struct Ambient {
    pub env: Environment,
    pub package_dir: String,
    pub debug: bool,
}

/// The configuration of a build.
#[derive(Debug, Clone, PartialEq, Eq)]
pub struct Build {
    out_dir: Option<String>,
    target: Option<String>,
    host: Option<String>,
    lua52compat: bool,
    debug: Option<bool>,
    ambient: Ambient,
}

/// What a [`Build`] holds, over plain sequences.
pub struct BuildView {
    pub out_dir: Option<Seq<char>>,
    pub target: Option<Seq<char>>,
    pub host: Option<Seq<char>>,
    pub lua52compat: bool,
    pub debug: Option<bool>,
    pub env: Seq<(Seq<char>, Seq<char>)>,
    pub package_dir: Seq<char>,
    pub debug_default: bool,
}

impl View for Build {
    type V = BuildView;

    closed spec fn view(&self) -> BuildView {
        BuildView {
            out_dir: spec_opt_text(self.out_dir),
            target: spec_opt_text(self.target),
            host: spec_opt_text(self.host),
            lua52compat: self.lua52compat,
            debug: self.debug,
            env: self.ambient.env@,
            package_dir: self.ambient.package_dir@,
            debug_default: self.ambient.debug,
        }
    }
}

/// The configuration that a build starts from: the output directory, the target and the host
/// as the environment has them, no compatibility mode, and no word on debugging.
pub open spec fn spec_inherited(
    env: Seq<(Seq<char>, Seq<char>)>,
    package_dir: Seq<char>,
    debug_default: bool,
) -> BuildView {
    BuildView {
        out_dir: spec_lookup(env, "OUT_DIR"@),
        target: spec_lookup(env, "TARGET"@),
        host: spec_lookup(env, "HOST"@),
        lua52compat: false,
        debug: None,
        env,
        package_dir,
        debug_default,
    }
}

/// The settings that a configuration amounts to, or the first required one that is missing:
/// the target, then the host, then the output directory.
pub open spec fn spec_settings(b: BuildView) -> Result<SettingsView, BuildErrorView> {
    if b.target is None {
        Err(BuildErrorView::Missing(Setting::Target))
    } else if b.host is None {
        Err(BuildErrorView::Missing(Setting::Host))
    } else if b.out_dir is None {
        Err(BuildErrorView::Missing(Setting::OutDir))
    } else {
        Ok(
            SettingsView {
                out_dir: b.out_dir->0,
                target: b.target->0,
                host: b.host->0,
                package_dir: b.package_dir,
                compat: b.lua52compat,
                debug: match b.debug {
                    Some(debug) => debug,
                    None => b.debug_default,
                },
            },
        )
    }
}

/// The session that a complete configuration begins.
pub open spec fn spec_session(b: BuildView) -> SessionView {
    SessionView { settings: spec_settings(b)->Ok_0, env: b.env, phase: Phase::Configured }
}

impl Build {
    /// A configuration with what `ambient` provides: the output directory, the target and the
    /// host are those of the variables `OUT_DIR`, `TARGET` and `HOST`, where they are set.
    pub fn new(ambient: Ambient) -> (r: Build)
        ensures
            r@ == spec_inherited(ambient.env@, ambient.package_dir@, ambient.debug),
    {
        Build {
            out_dir: ambient.env.get("OUT_DIR"),
            target: ambient.env.get("TARGET"),
            host: ambient.env.get("HOST"),
            lua52compat: false,
            debug: None,
            ambient,
        }
    }

    /// Sets the directory that receives the build.
    pub fn out_dir(&mut self, path: &str) -> (r: &mut Build)
        ensures
            r@ == (BuildView { out_dir: Some(path@), ..old(self)@ }),
            *final(self) == *final(r),
    {
        self.out_dir = Some(path.to_owned());
        self
    }

    /// Sets the triple of the platform that is built for.
    pub fn target(&mut self, target: &str) -> (r: &mut Build)
        ensures
            r@ == (BuildView { target: Some(target@), ..old(self)@ }),
            *final(self) == *final(r),
    {
        self.target = Some(target.to_owned());
        self
    }

    /// Sets the triple of the platform that builds.
    pub fn host(&mut self, host: &str) -> (r: &mut Build)
        ensures
            r@ == (BuildView { host: Some(host@), ..old(self)@ }),
            *final(self) == *final(r),
    {
        self.host = Some(host.to_owned());
        self
    }

    /// Turns the limited Lua 5.2 compatibility on or off.
    pub fn lua52compat(&mut self, enabled: bool) -> (r: &mut Build)
        ensures
            r@ == (BuildView { lua52compat: enabled, ..old(self)@ }),
            *final(self) == *final(r),
    {
        self.lua52compat = enabled;
        self
    }

    /// Says whether the build debugs: with assertions, API checks and debug symbols.
    pub fn debug(&mut self, debug: bool) -> (r: &mut Build)
        ensures
            r@ == (BuildView { debug: Some(debug), ..old(self)@ }),
            *final(self) == *final(r),
    {
        self.debug = Some(debug);
        self
    }

    /// Begins a build, or tells which required setting is missing. No step on the file system
    /// has been asked for when this fails: only the session that it returns asks for any.
    pub fn try_build(&mut self) -> (r: Result<Session, BuildError>)
        ensures
            *final(self) == *old(self),
            match r {
                Ok(session) => spec_settings(old(self)@) is Ok && session@ == spec_session(
                    old(self)@,
                ),
                Err(error) => spec_settings(old(self)@) == Err::<SettingsView, BuildErrorView>(
                    error@,
                ),
            },
    {
        let target = match &self.target {
            Some(target) => target.clone(),
            None => {
                return Err(BuildError::Missing(Setting::Target));
            },
        };
        let host = match &self.host {
            Some(host) => host.clone(),
            None => {
                return Err(BuildError::Missing(Setting::Host));
            },
        };
        let out_dir = match &self.out_dir {
            Some(out_dir) => out_dir.clone(),
            None => {
                return Err(BuildError::Missing(Setting::OutDir));
            },
        };
        let debug = match self.debug {
            Some(debug) => debug,
            None => self.ambient.debug,
        };
        let settings = Settings {
            out_dir,
            target,
            host,
            package_dir: self.ambient.package_dir.clone(),
            compat: self.lua52compat,
            debug,
        };
        Ok(Session::new(settings, self.ambient.env.duplicate()))
    }

    /// Begins a build with a configuration that is complete.
    pub fn build(&mut self) -> (r: Session)
        requires
            spec_settings(old(self)@) is Ok,
        ensures
            *final(self) == *old(self),
            r@ == spec_session(old(self)@),
    {
        self.try_build().expect("the configuration of the build is complete")
    }
}

} // verus!
