//! Which tools build the library, and which variables tell the external build about them.
//!
//! Everything here is a function of its arguments: the settings, the inherited environment and
//! what was discovered on the machine. Looking at the machine is the business of
//! [`crate::discover`].

use vstd::prelude::*;
use vstd::string::*;
use crate::config::{spec_work_dir, Settings, SettingsView};
use crate::environment::{
    lemma_vars_push, spec_is_set, spec_lookup, spec_opt_text, spec_vars, EnvVar, Environment,
};
use crate::error::{BuildError, BuildErrorView, Setting, Tool};
use crate::ops::{Invocation, InvocationView, NativeVar, Program, ProgramView};
use crate::text::{
    chain, chain3, contains, ends_with, join, same_text, spec_contains, spec_ends_with, spec_join,
    spec_texts, spec_without_tail, without_tail,
};

verus! {

/// What was found on the machine for one build.
#[derive(Debug, Clone, PartialEq, Eq)]
pub struct Discovery {
    /// The file name of the compiler as the probe names it.
    pub compiler: String,
    /// The flags that the compiler needs for the target, separated by spaces.
    pub flags: String,
    /// The path of the compiler on this machine.
    pub located: String,
    /// The path of a compiler for the host, where one was looked for.
    pub host_compiler: Option<String>,
    /// The path of the archiver, where one was looked for and found.
    pub archiver: Option<String>,
    /// The path of the strip tool, where one was looked for and found.
    pub strip: Option<String>,
}

/// What a [`Discovery`] says, over plain sequences.
pub struct DiscoveryView {
    pub compiler: Seq<char>,
    pub flags: Seq<char>,
    pub located: Seq<char>,
    pub host_compiler: Option<Seq<char>>,
    pub archiver: Option<Seq<char>>,
    pub strip: Option<Seq<char>>,
}

impl View for Discovery {
    type V = DiscoveryView;

    open spec fn view(&self) -> DiscoveryView {
        DiscoveryView {
            compiler: self.compiler@,
            flags: self.flags@,
            located: self.located@,
            host_compiler: spec_opt_text(self.host_compiler),
            archiver: spec_opt_text(self.archiver),
            strip: spec_opt_text(self.strip),
        }
    }
}

/// The tools of one build and what the external build is told about them.
#[derive(Debug, Clone, PartialEq, Eq)]
pub struct ToolchainPlan {
    /// The command that drives the makefile.
    pub make_driver: String,
    /// The path of the compiler.
    pub compiler: String,
    /// The command line of the archiver.
    pub archiver: String,
    /// The command line of the strip tool.
    pub strip: String,
    /// The variables set for the external build, in the order they are set. A variable that
    /// the caller's environment overrides is not among them.
    pub extra_env: Vec<EnvVar>,
    /// The flags added to every compilation.
    pub extra_flags: Vec<String>,
}

/// What a [`ToolchainPlan`] says, over plain sequences.
pub struct ToolchainPlanView {
    pub make_driver: Seq<char>,
    pub compiler: Seq<char>,
    pub archiver: Seq<char>,
    pub strip: Seq<char>,
    pub extra_env: Seq<(Seq<char>, Seq<char>)>,
    pub extra_flags: Seq<Seq<char>>,
}

impl View for ToolchainPlan {
    type V = ToolchainPlanView;

    open spec fn view(&self) -> ToolchainPlanView {
        ToolchainPlanView {
            make_driver: self.make_driver@,
            compiler: self.compiler@,
            archiver: self.archiver@,
            strip: self.strip@,
            extra_env: spec_vars(self.extra_env@),
            extra_flags: spec_texts(self.extra_flags@),
        }
    }
}

/// Whether the target is built with the MSVC tools.
pub open spec fn spec_uses_msvc(target: Seq<char>) -> bool {
    spec_contains(target, "msvc"@)
}

/// The command that drives the makefile on `host`: GNU make goes by another name on the hosts
/// of the BSD family, which are told by the end of their triple.
pub open spec fn spec_make_driver(host: Seq<char>) -> Seq<char> {
    if spec_ends_with(host, "-freebsd"@) || spec_ends_with(host, "-dragonfly"@) {
        "gmake"@
    } else {
        "make"@
    }
}

/// The prefix that a cross compiler shares with its companion tools: the compiler's file name
/// up to and with the hyphen before `gcc` or `clang`, or nothing where it ends in neither.
pub open spec fn spec_cross_prefix(compiler: Seq<char>) -> Seq<char> {
    if spec_ends_with(compiler, "-gcc"@) {
        spec_without_tail(compiler, 3)
    } else if spec_ends_with(compiler, "-clang"@) {
        spec_without_tail(compiler, 5)
    } else {
        Seq::empty()
    }
}

/// The names under which `tool` is looked for in the compiler's directory, in the order they
/// are tried.
pub open spec fn spec_candidates(
    prefix: Seq<char>,
    tool: Seq<char>,
    like_clang: bool,
    like_gnu: bool,
) -> Seq<Seq<char>> {
    seq![prefix + tool] + (if like_clang {
        seq!["llvm-"@ + tool]
    } else {
        Seq::empty()
    }) + (if like_gnu {
        seq![tool]
    } else {
        Seq::empty()
    })
}

/// The variable that the target alone calls for: the deployment target of the two Apple
/// targets, else the system that the target names. A variable that the environment has
/// already is not set again.
pub open spec fn spec_target_hint(target: Seq<char>, env: Seq<(Seq<char>, Seq<char>)>) -> Option<
    (Seq<char>, Seq<char>),
> {
    if target == "x86_64-apple-darwin"@ && !spec_is_set(env, "MACOSX_DEPLOYMENT_TARGET"@) {
        Some(("MACOSX_DEPLOYMENT_TARGET"@, "10.14"@))
    } else if target == "aarch64-apple-darwin"@ && !spec_is_set(env, "MACOSX_DEPLOYMENT_TARGET"@) {
        Some(("MACOSX_DEPLOYMENT_TARGET"@, "11.0"@))
    } else if spec_contains(target, "linux"@) && !spec_is_set(env, "TARGET_SYS"@) {
        Some(("TARGET_SYS"@, "Linux"@))
    } else if spec_contains(target, "windows"@) && !spec_is_set(env, "TARGET_SYS"@) {
        Some(("TARGET_SYS"@, "Windows"@))
    } else {
        None
    }
}

/// Whether a compiler for the host is needed: the target has pointers of 32 bits and the
/// environment names no host compiler.
pub open spec fn spec_wants_host_compiler(env: Seq<(Seq<char>, Seq<char>)>) -> bool {
    spec_lookup(env, "CARGO_CFG_TARGET_POINTER_WIDTH"@) == Some("32"@) && !spec_is_set(
        env,
        "HOST_CC"@,
    )
}

/// The flags added to every compilation.
pub open spec fn spec_flags(compat: bool, debug: bool) -> Seq<Seq<char>> {
    seq!["-fPIC"@] + (if compat {
        seq!["-DLUAJIT_ENABLE_LUA52COMPAT"@]
    } else {
        Seq::empty()
    }) + (if debug {
        seq!["-DLUA_USE_ASSERT"@, "-DLUA_USE_APICHECK"@]
    } else {
        Seq::empty()
    })
}

/// `list`, with `entry` at its end where `wanted` holds.
pub open spec fn spec_push_if<T>(list: Seq<T>, wanted: bool, entry: T) -> Seq<T> {
    if wanted {
        list.push(entry)
    } else {
        list
    }
}

/// The command line that compiles and links: the compiler's path and its flags.
pub open spec fn spec_compiler_command(d: DiscoveryView) -> Seq<char> {
    d.located + " "@ + d.flags
}

/// The variables set for the external build, in the order they are set.
pub open spec fn spec_extra_env(
    s: SettingsView,
    env: Seq<(Seq<char>, Seq<char>)>,
    d: DiscoveryView,
) -> Seq<(Seq<char>, Seq<char>)> {
    let hint = match spec_target_hint(s.target, env) {
        Some(var) => seq![var],
        None => Seq::empty(),
    };
    let host = spec_push_if(
        hint,
        spec_wants_host_compiler(env),
        ("HOST_CC"@, d.host_compiler->0 + " -m32"@),
    );
    let cc = spec_push_if(
        host,
        !spec_is_set(env, "STATIC_CC"@),
        ("STATIC_CC"@, spec_compiler_command(d)),
    );
    let ld = spec_push_if(
        cc,
        !spec_is_set(env, "TARGET_LD"@),
        ("TARGET_LD"@, spec_compiler_command(d)),
    );
    let ar = spec_push_if(
        ld,
        !spec_is_set(env, "TARGET_AR"@),
        ("TARGET_AR"@, d.archiver->0 + " rcus"@),
    );
    let strip = spec_push_if(ar, !spec_is_set(env, "TARGET_STRIP"@), ("TARGET_STRIP"@, d.strip->0));
    let debug = spec_push_if(strip, s.debug, ("CCDEBUG"@, "-g"@));
    debug.push(("BUILDMODE"@, "static"@)).push(
        ("XCFLAGS"@, spec_join(spec_flags(s.compat, s.debug), " "@)),
    )
}

/// The reason given where a companion tool has no candidate.
pub open spec fn spec_no_candidate() -> Seq<char> {
    "it is neither beside the compiler nor on the search path"@
}

/// The reason given where no compiler for the host was discovered.
pub open spec fn spec_no_host_compiler() -> Seq<char> {
    "no compiler for the host was discovered"@
}

/// The plan for a target that is built with make, or the first thing that is missing.
pub open spec fn spec_plan(
    s: SettingsView,
    env: Seq<(Seq<char>, Seq<char>)>,
    d: DiscoveryView,
) -> Result<ToolchainPlanView, BuildErrorView> {
    if spec_lookup(env, "CARGO_CFG_TARGET_POINTER_WIDTH"@) is None {
        Err(BuildErrorView::Missing(Setting::PointerWidth))
    } else if spec_wants_host_compiler(env) && d.host_compiler is None {
        Err(
            BuildErrorView::NotFound {
                tool: Tool::HostCompiler,
                name: s.host,
                reason: spec_no_host_compiler(),
            },
        )
    } else if !spec_is_set(env, "TARGET_AR"@) && d.archiver is None {
        Err(
            BuildErrorView::NotFound {
                tool: Tool::Archiver,
                name: spec_cross_prefix(d.compiler) + "ar"@,
                reason: spec_no_candidate(),
            },
        )
    } else if !spec_is_set(env, "TARGET_STRIP"@) && d.strip is None {
        Err(
            BuildErrorView::NotFound {
                tool: Tool::Strip,
                name: spec_cross_prefix(d.compiler) + "strip"@,
                reason: spec_no_candidate(),
            },
        )
    } else {
        Ok(
            ToolchainPlanView {
                make_driver: spec_make_driver(s.host),
                compiler: d.located,
                archiver: match spec_lookup(env, "TARGET_AR"@) {
                    Some(given) => given,
                    None => d.archiver->0 + " rcus"@,
                },
                strip: match spec_lookup(env, "TARGET_STRIP"@) {
                    Some(given) => given,
                    None => d.strip->0,
                },
                extra_env: spec_extra_env(s, env, d),
                extra_flags: spec_flags(s.compat, s.debug),
            },
        )
    }
}

/// The run of make that a plan calls for.
pub open spec fn spec_unix_invocation(s: SettingsView, plan: ToolchainPlanView) -> InvocationView {
    InvocationView {
        program: ProgramView::Named(plan.make_driver),
        args: seq!["-e"@],
        dir: spec_work_dir(s.out_dir),
        env: plan.extra_env,
        native_env: Seq::empty(),
    }
}

/// The reason given where the MSVC tools are not installed for the target.
pub open spec fn spec_no_msvc() -> Seq<char> {
    "no installation of the MSVC tools serves the target"@
}

/// The run of the batch script for a target that is built with the MSVC tools, with the
/// variables that their compiler needs, as they were handed over. The compatibility
/// argument, where it is asked for, comes before `static`.
pub open spec fn spec_msvc_invocation(s: SettingsView, tool_env: Option<Seq<NativeVar>>) -> Result<
    InvocationView,
    BuildErrorView,
> {
    match tool_env {
        None => Err(
            BuildErrorView::NotFound {
                tool: Tool::MsvcCompiler,
                name: "cl.exe"@,
                reason: spec_no_msvc(),
            },
        ),
        Some(vars) => Ok(
            InvocationView {
                program: ProgramView::At(spec_work_dir(s.out_dir).push("msvcbuild.bat"@)),
                args: if s.compat {
                    seq!["lua52compat"@, "static"@]
                } else {
                    seq!["static"@]
                },
                dir: spec_work_dir(s.out_dir),
                env: Seq::empty(),
                native_env: vars,
            },
        ),
    }
}

/// Whether the target is built with the MSVC tools: its triple holds `msvc`.
pub fn uses_msvc(target: &str) -> (r: bool)
    ensures
        r == spec_uses_msvc(target@),
{
    contains(target, "msvc")
}

/// The command that drives the makefile on `host`.
pub fn make_driver(host: &str) -> (r: String)
    ensures
        r@ == spec_make_driver(host@),
{
    if ends_with(host, "-freebsd") || ends_with(host, "-dragonfly") {
        "gmake".to_owned()
    } else {
        "make".to_owned()
    }
}

/// The prefix that the cross compiler of the file name `compiler` shares with its companion
/// tools.
pub fn cross_prefix(compiler: &str) -> (r: String)
    ensures
        r@ == spec_cross_prefix(compiler@),
{
    if ends_with(compiler, "-gcc") {
        without_tail(compiler, 3)
    } else if ends_with(compiler, "-clang") {
        without_tail(compiler, 5)
    } else {
        String::new()
    }
}

/// The names under which `tool` is looked for in the compiler's directory, in the order they
/// are tried: first with the cross prefix, then the LLVM tool for a compiler like Clang, then
/// the plain tool for a compiler like GCC.
pub fn tool_candidates(prefix: &str, tool: &str, like_clang: bool, like_gnu: bool) -> (r: Vec<
    String,
>)
    ensures
        spec_texts(r@) == spec_candidates(prefix@, tool@, like_clang, like_gnu),
{
    let mut r: Vec<String> = Vec::new();
    r.push(chain(prefix, tool));
    if like_clang {
        r.push(chain("llvm-", tool));
    }
    if like_gnu {
        r.push(tool.to_owned());
    }
    assert(spec_texts(r@) =~= spec_candidates(prefix@, tool@, like_clang, like_gnu));
    r
}

/// The variable that the target alone calls for.
pub fn target_hint(target: &str, env: &Environment) -> (r: Option<EnvVar>)
    ensures
        match r {
            Some(var) => spec_target_hint(target@, env@) == Some(var@),
            None => spec_target_hint(target@, env@) is None,
        },
{
    let pinned = env.is_set("MACOSX_DEPLOYMENT_TARGET");
    let named = env.is_set("TARGET_SYS");
    if same_text(target, "x86_64-apple-darwin") && !pinned {
        Some(EnvVar::new("MACOSX_DEPLOYMENT_TARGET", "10.14"))
    } else if same_text(target, "aarch64-apple-darwin") && !pinned {
        Some(EnvVar::new("MACOSX_DEPLOYMENT_TARGET", "11.0"))
    } else if contains(target, "linux") && !named {
        Some(EnvVar::new("TARGET_SYS", "Linux"))
    } else if contains(target, "windows") && !named {
        Some(EnvVar::new("TARGET_SYS", "Windows"))
    } else {
        None
    }
}

/// Whether a compiler for the host is needed.
pub fn wants_host_compiler(env: &Environment) -> (r: bool)
    ensures
        r == spec_wants_host_compiler(env@),
{
    match env.get("CARGO_CFG_TARGET_POINTER_WIDTH") {
        Some(width) => same_text(width.as_str(), "32") && !env.is_set("HOST_CC"),
        None => false,
    }
}

/// The flags added to every compilation: position-independent code always; the compatibility
/// define where `compat` holds; the assertion and API check defines where `debug` holds.
pub fn compile_flags(compat: bool, debug: bool) -> (r: Vec<String>)
    ensures
        spec_texts(r@) == spec_flags(compat, debug),
{
    let mut r: Vec<String> = Vec::new();
    r.push("-fPIC".to_owned());
    if compat {
        r.push("-DLUAJIT_ENABLE_LUA52COMPAT".to_owned());
    }
    if debug {
        r.push("-DLUA_USE_ASSERT".to_owned());
        r.push("-DLUA_USE_APICHECK".to_owned());
    }
    assert(spec_texts(r@) =~= spec_flags(compat, debug));
    r
}

fn push_var_if(vars: &mut Vec<EnvVar>, wanted: bool, name: &str, value: &str)
    ensures
        spec_vars(final(vars)@) == spec_push_if(spec_vars(old(vars)@), wanted, (name@, value@)),
{
    if wanted {
        let var = EnvVar::new(name, value);
        proof {
            lemma_vars_push(vars@, var);
        }
        vars.push(var);
    }
}

fn text_or_empty(text: &Option<String>) -> (r: &str)
    ensures
        text is Some ==> r@ == text->0@,
{
    match text {
        Some(t) => t.as_str(),
        None => "",
    }
}

fn extra_env(settings: &Settings, env: &Environment, d: &Discovery, flags: &Vec<String>) -> (r:
    Vec<EnvVar>)
    requires
        spec_texts(flags@) == spec_flags(settings.compat, settings.debug),
        spec_wants_host_compiler(env@) ==> d.host_compiler is Some,
        !spec_is_set(env@, "TARGET_AR"@) ==> d.archiver is Some,
        !spec_is_set(env@, "TARGET_STRIP"@) ==> d.strip is Some,
    ensures
        spec_vars(r@) == spec_extra_env(settings@, env@, d@),
{
    let mut vars: Vec<EnvVar> = Vec::new();
    match target_hint(settings.target.as_str(), env) {
        Some(var) => {
            proof {
                lemma_vars_push(vars@, var);
            }
            vars.push(var);
            assert(spec_vars(vars@) =~= seq![var@]);
        },
        None => {
            assert(spec_vars(vars@) =~= Seq::empty());
        },
    }
    let host_cc = chain(text_or_empty(&d.host_compiler), " -m32");
    push_var_if(&mut vars, wants_host_compiler(env), "HOST_CC", host_cc.as_str());
    let command = chain3(d.located.as_str(), " ", d.flags.as_str());
    push_var_if(&mut vars, !env.is_set("STATIC_CC"), "STATIC_CC", command.as_str());
    push_var_if(&mut vars, !env.is_set("TARGET_LD"), "TARGET_LD", command.as_str());
    let archiver = chain(text_or_empty(&d.archiver), " rcus");
    push_var_if(&mut vars, !env.is_set("TARGET_AR"), "TARGET_AR", archiver.as_str());
    push_var_if(&mut vars, !env.is_set("TARGET_STRIP"), "TARGET_STRIP", text_or_empty(&d.strip));
    push_var_if(&mut vars, settings.debug, "CCDEBUG", "-g");
    push_var_if(&mut vars, true, "BUILDMODE", "static");
    let joined = join(flags, " ");
    push_var_if(&mut vars, true, "XCFLAGS", joined.as_str());
    vars
}

/// The plan for a target that is built with make.
///
/// A variable that the environment already has is left to it: the plan takes its value as it
/// stands and sets nothing in its place, whatever was discovered. The plan fails with the first
/// thing that is missing: the pointer width, then a host compiler that is needed, then the
/// archiver, then the strip tool.
pub fn plan_unix(settings: &Settings, env: &Environment, d: &Discovery) -> (r: Result<
    ToolchainPlan,
    BuildError,
>)
    ensures
        match r {
            Ok(plan) => spec_plan(settings@, env@, d@) == Ok::<
                ToolchainPlanView,
                BuildErrorView,
            >(plan@),
            Err(error) => spec_plan(settings@, env@, d@) == Err::<
                ToolchainPlanView,
                BuildErrorView,
            >(error@),
        },
{
    if !env.is_set("CARGO_CFG_TARGET_POINTER_WIDTH") {
        return Err(BuildError::Missing(Setting::PointerWidth));
    }
    if wants_host_compiler(env) && d.host_compiler.is_none() {
        return Err(
            BuildError::NotFound {
                tool: Tool::HostCompiler,
                name: settings.host.clone(),
                reason: "no compiler for the host was discovered".to_owned(),
            },
        );
    }
    let given_archiver = env.get("TARGET_AR");
    if given_archiver.is_none() && d.archiver.is_none() {
        let prefix = cross_prefix(d.compiler.as_str());
        return Err(
            BuildError::NotFound {
                tool: Tool::Archiver,
                name: chain(prefix.as_str(), "ar"),
                reason: "it is neither beside the compiler nor on the search path".to_owned(),
            },
        );
    }
    let given_strip = env.get("TARGET_STRIP");
    if given_strip.is_none() && d.strip.is_none() {
        let prefix = cross_prefix(d.compiler.as_str());
        return Err(
            BuildError::NotFound {
                tool: Tool::Strip,
                name: chain(prefix.as_str(), "strip"),
                reason: "it is neither beside the compiler nor on the search path".to_owned(),
            },
        );
    }
    let flags = compile_flags(settings.compat, settings.debug);
    let vars = extra_env(settings, env, d, &flags);
    let archiver = match given_archiver {
        Some(given) => given,
        None => chain(text_or_empty(&d.archiver), " rcus"),
    };
    let strip = match given_strip {
        Some(given) => given,
        None => text_or_empty(&d.strip).to_owned(),
    };
    Ok(
        ToolchainPlan {
            make_driver: make_driver(settings.host.as_str()),
            compiler: d.located.clone(),
            archiver,
            strip,
            extra_env: vars,
            extra_flags: flags,
        },
    )
}

/// The run of make that `plan` calls for: in the build's working directory, with `-e`, so that
/// the variables of the environment win over the makefile's own.
pub fn unix_invocation(settings: &Settings, plan: ToolchainPlan) -> (r: Invocation)
    ensures
        r@ == spec_unix_invocation(settings@, plan@),
{
    let mut args: Vec<String> = Vec::new();
    args.push("-e".to_owned());
    assert(spec_texts(args@) =~= seq!["-e"@]);
    Invocation {
        program: Program::Named(plan.make_driver),
        args,
        dir: settings.work_dir(),
        env: plan.extra_env,
        native_env: Vec::new(),
    }
}

/// The run of the batch script for a target that is built with the MSVC tools, with the
/// variables `tool_env` that the compiler of that installation needs.
pub fn msvc_invocation(settings: &Settings, tool_env: Option<Vec<NativeVar>>) -> (r: Result<
    Invocation,
    BuildError,
>)
    ensures
        match r {
            Ok(run) => spec_msvc_invocation(
                settings@,
                match tool_env {
                    Some(vars) => Some(vars@),
                    None => None,
                },
            ) == Ok::<InvocationView, BuildErrorView>(run@),
            Err(error) => spec_msvc_invocation(
                settings@,
                match tool_env {
                    Some(vars) => Some(vars@),
                    None => None,
                },
            ) == Err::<InvocationView, BuildErrorView>(error@),
        },
{
    match tool_env {
        None => Err(
            BuildError::NotFound {
                tool: Tool::MsvcCompiler,
                name: "cl.exe".to_owned(),
                reason: "no installation of the MSVC tools serves the target".to_owned(),
            },
        ),
        Some(vars) => {
            let mut args: Vec<String> = Vec::new();
            if settings.compat {
                args.push("lua52compat".to_owned());
            }
            args.push("static".to_owned());
            assert(spec_texts(args@) =~= if settings.compat {
                seq!["lua52compat"@, "static"@]
            } else {
                seq!["static"@]
            });
            let dir = settings.work_dir();
            let env: Vec<EnvVar> = Vec::new();
            assert(spec_vars(env@) =~= Seq::empty());
            Ok(
                Invocation {
                    program: Program::At(dir.join("msvcbuild.bat")),
                    args,
                    dir,
                    env,
                    native_env: vars,
                },
            )
        },
    }
}

} // verus!
