//! What holds of every build, stated over the models of the other modules and proved.

use vstd::prelude::*;
use vstd::string::*;
use crate::artifacts::{spec_artifacts, spec_collection, spec_lib_file, spec_lib_name};
use crate::config::{spec_build_dir, spec_include_dir, spec_lib_dir, spec_work_dir, SettingsView};
use crate::discover::{
    lemma_discovery_is_found, spec_admitted, spec_asked_compiler, spec_companion_questions,
    spec_discovery_of, spec_first_found, spec_resolved, spec_unix_resolution, AnswersView,
    LookupView, QuestionView,
};
use crate::environment::{spec_build_env, spec_is_set, spec_lookup};
use crate::error::{spec_kind, BuildErrorView, ErrorKind, Setting};
use crate::ops::{FsOpView, InvocationView, NativeVar, ProgramView};
use crate::session::{spec_over, spec_step, ActionView, EventView, Phase, SessionView};
use crate::stage::{
    spec_metadata, spec_reset, spec_source_dir, spec_stage, spec_staged_marker, spec_staging,
};
use crate::text::{spec_ends_with, spec_join, spec_without_tail};
use crate::toolchain::{
    spec_candidates, spec_compiler_command, spec_cross_prefix, spec_extra_env, spec_flags,
    spec_msvc_invocation, spec_plan, spec_push_if, spec_target_hint, spec_uses_msvc,
    spec_wants_host_compiler, DiscoveryView,
};

verus! {

/// The variables by which a caller overrides what a build would infer.
pub open spec fn spec_is_override(name: Seq<char>) -> bool {
    name == "HOST_CC"@ || name == "STATIC_CC"@ || name == "TARGET_LD"@ || name == "TARGET_AR"@
        || name == "TARGET_STRIP"@ || name == "MACOSX_DEPLOYMENT_TARGET"@ || name == "TARGET_SYS"@
}

/// What a list gives a name after an entry may have been pushed.
pub proof fn lemma_lookup_push_if(
    base: Seq<(Seq<char>, Seq<char>)>,
    wanted: bool,
    entry: (Seq<char>, Seq<char>),
    name: Seq<char>,
)
    ensures
        spec_lookup(spec_push_if(base, wanted, entry), name) == (if wanted && entry.0 == name {
            Some(entry.1)
        } else {
            spec_lookup(base, name)
        }),
{
    if wanted {
        assert(base.push(entry).drop_last() =~= base);
    }
}

/// What two lists in a row give a name: what the second gives it, else what the first does.
pub proof fn lemma_lookup_concat(
    first: Seq<(Seq<char>, Seq<char>)>,
    second: Seq<(Seq<char>, Seq<char>)>,
    name: Seq<char>,
)
    ensures
        spec_lookup(first + second, name) == (match spec_lookup(second, name) {
            Some(value) => Some(value),
            None => spec_lookup(first, name),
        }),
    decreases second.len(),
{
    if second.len() == 0 {
        assert(first + second =~= first);
    } else {
        assert((first + second).drop_last() =~= first + second.drop_last());
        lemma_lookup_concat(first, second.drop_last(), name);
    }
}

/// How the names of the variables that a plan may set are spelled, as far as it takes to tell
/// them apart.
proof fn lemma_names_differ()
    ensures
        "MACOSX_DEPLOYMENT_TARGET"@.len() == 24,
        "TARGET_SYS"@.len() == 10,
        "TARGET_STRIP"@.len() == 12,
        "HOST_CC"@.len() == 7 && "HOST_CC"@[0] == 'H',
        "CCDEBUG"@.len() == 7 && "CCDEBUG"@[0] == 'C',
        "XCFLAGS"@.len() == 7 && "XCFLAGS"@[0] == 'X',
        "STATIC_CC"@.len() == 9 && "STATIC_CC"@[0] == 'S',
        "BUILDMODE"@.len() == 9 && "BUILDMODE"@[0] == 'B',
        "TARGET_LD"@.len() == 9 && "TARGET_LD"@[0] == 'T' && "TARGET_LD"@[7] == 'L',
        "TARGET_AR"@.len() == 9 && "TARGET_AR"@[0] == 'T' && "TARGET_AR"@[7] == 'A',
{
    reveal_strlit("MACOSX_DEPLOYMENT_TARGET");
    reveal_strlit("TARGET_SYS");
    reveal_strlit("TARGET_STRIP");
    reveal_strlit("HOST_CC");
    reveal_strlit("CCDEBUG");
    reveal_strlit("XCFLAGS");
    reveal_strlit("STATIC_CC");
    reveal_strlit("BUILDMODE");
    reveal_strlit("TARGET_LD");
    reveal_strlit("TARGET_AR");
}

/// What a plan sets for a name, told apart by the name.
pub open spec fn spec_planned(
    s: SettingsView,
    env: Seq<(Seq<char>, Seq<char>)>,
    d: DiscoveryView,
    name: Seq<char>,
) -> Option<Seq<char>> {
    if name == "XCFLAGS"@ {
        Some(spec_join(spec_flags(s.compat, s.debug), " "@))
    } else if name == "BUILDMODE"@ {
        Some("static"@)
    } else if name == "CCDEBUG"@ {
        if s.debug {
            Some("-g"@)
        } else {
            None
        }
    } else if name == "TARGET_STRIP"@ {
        if spec_is_set(env, name) {
            None
        } else {
            Some(d.strip->0)
        }
    } else if name == "TARGET_AR"@ {
        if spec_is_set(env, name) {
            None
        } else {
            Some(d.archiver->0 + " rcus"@)
        }
    } else if name == "TARGET_LD"@ || name == "STATIC_CC"@ {
        if spec_is_set(env, name) {
            None
        } else {
            Some(spec_compiler_command(d))
        }
    } else if name == "HOST_CC"@ {
        if spec_wants_host_compiler(env) {
            Some(d.host_compiler->0 + " -m32"@)
        } else {
            None
        }
    } else {
        match spec_target_hint(s.target, env) {
            Some(hint) => if hint.0 == name {
                Some(hint.1)
            } else {
                None
            },
            None => None,
        }
    }
}

/// The variables that a plan sets give each name what [`spec_planned`] tells.
pub proof fn law_extra_env(
    s: SettingsView,
    env: Seq<(Seq<char>, Seq<char>)>,
    d: DiscoveryView,
    name: Seq<char>,
)
    ensures
        spec_lookup(spec_extra_env(s, env, d), name) == spec_planned(s, env, d, name),
{
    lemma_names_differ();
    let hint: Seq<(Seq<char>, Seq<char>)> = match spec_target_hint(s.target, env) {
        Some(var) => seq![var],
        None => Seq::empty(),
    };
    let host_var = ("HOST_CC"@, d.host_compiler->0 + " -m32"@);
    let host = spec_push_if(hint, spec_wants_host_compiler(env), host_var);
    let cc_var = ("STATIC_CC"@, spec_compiler_command(d));
    let cc = spec_push_if(host, !spec_is_set(env, "STATIC_CC"@), cc_var);
    let ld_var = ("TARGET_LD"@, spec_compiler_command(d));
    let ld = spec_push_if(cc, !spec_is_set(env, "TARGET_LD"@), ld_var);
    let ar_var = ("TARGET_AR"@, d.archiver->0 + " rcus"@);
    let ar = spec_push_if(ld, !spec_is_set(env, "TARGET_AR"@), ar_var);
    let strip_var = ("TARGET_STRIP"@, d.strip->0);
    let strip = spec_push_if(ar, !spec_is_set(env, "TARGET_STRIP"@), strip_var);
    let debug_var = ("CCDEBUG"@, "-g"@);
    let debug = spec_push_if(strip, s.debug, debug_var);
    let mode_var = ("BUILDMODE"@, "static"@);
    let mode = spec_push_if(debug, true, mode_var);
    let flags_var = ("XCFLAGS"@, spec_join(spec_flags(s.compat, s.debug), " "@));
    let all = spec_push_if(mode, true, flags_var);
    assert(all == spec_extra_env(s, env, d));
    assert(spec_lookup(hint, name) == (match spec_target_hint(s.target, env) {
        Some(var) => if var.0 == name {
            Some(var.1)
        } else {
            None
        },
        None => None,
    })) by {
        if spec_target_hint(s.target, env) is Some {
            assert(hint.last() == spec_target_hint(s.target, env)->0);
            assert(hint.drop_last().len() == 0);
            assert(spec_lookup(hint.drop_last(), name) is None);
        }
    }
    lemma_lookup_push_if(hint, spec_wants_host_compiler(env), host_var, name);
    lemma_lookup_push_if(host, !spec_is_set(env, "STATIC_CC"@), cc_var, name);
    lemma_lookup_push_if(cc, !spec_is_set(env, "TARGET_LD"@), ld_var, name);
    lemma_lookup_push_if(ld, !spec_is_set(env, "TARGET_AR"@), ar_var, name);
    lemma_lookup_push_if(ar, !spec_is_set(env, "TARGET_STRIP"@), strip_var, name);
    lemma_lookup_push_if(strip, s.debug, debug_var, name);
    lemma_lookup_push_if(debug, true, mode_var, name);
    lemma_lookup_push_if(mode, true, flags_var, name);
}

/// Override precedence. A variable that the caller's environment has before a build reaches
/// the external build with that very value, whatever was discovered: the plan sets nothing in
/// its place.
pub proof fn law_override_wins(
    s: SettingsView,
    env: Seq<(Seq<char>, Seq<char>)>,
    d: DiscoveryView,
    name: Seq<char>,
)
    requires
        spec_is_override(name),
        spec_is_set(env, name),
    ensures
        spec_lookup(spec_extra_env(s, env, d), name) is None,
        spec_lookup(spec_build_env(env, spec_extra_env(s, env, d)), name) == spec_lookup(
            env,
            name,
        ),
{
    lemma_names_differ();
    law_extra_env(s, env, d, name);
    lemma_lookup_concat(env, spec_extra_env(s, env, d), name);
}

/// Override precedence in the plan itself: an archiver or a strip tool that the environment
/// names is the plan's, letter for letter.
pub proof fn law_override_in_plan(
    s: SettingsView,
    env: Seq<(Seq<char>, Seq<char>)>,
    d: DiscoveryView,
)
    requires
        spec_plan(s, env, d) is Ok,
    ensures
        spec_is_set(env, "TARGET_AR"@) ==> Some(spec_plan(s, env, d)->Ok_0.archiver)
            == spec_lookup(env, "TARGET_AR"@),
        spec_is_set(env, "TARGET_STRIP"@) ==> Some(spec_plan(s, env, d)->Ok_0.strip)
            == spec_lookup(env, "TARGET_STRIP"@),
{
}

/// A plan is complete. Where planning succeeds, the external build finds in its environment
/// the compiler, the linker, the archiver and the strip tool, each by override or by
/// discovery, the build mode and the compilation flags; and make goes by one of its two
/// names.
pub proof fn law_plan_complete(
    s: SettingsView,
    env: Seq<(Seq<char>, Seq<char>)>,
    d: DiscoveryView,
)
    requires
        spec_plan(s, env, d) is Ok,
    ensures
        ({
            let plan = spec_plan(s, env, d)->Ok_0;
            let all = spec_build_env(env, plan.extra_env);
            &&& plan.make_driver == "make"@ || plan.make_driver == "gmake"@
            &&& spec_lookup(all, "STATIC_CC"@) is Some
            &&& spec_lookup(all, "TARGET_LD"@) is Some
            &&& spec_lookup(all, "TARGET_AR"@) == Some(plan.archiver)
            &&& spec_lookup(all, "TARGET_STRIP"@) == Some(plan.strip)
            &&& spec_lookup(all, "BUILDMODE"@) == Some("static"@)
            &&& spec_lookup(all, "XCFLAGS"@) == Some(spec_join(plan.extra_flags, " "@))
            &&& spec_wants_host_compiler(env) ==> spec_lookup(all, "HOST_CC"@) == Some(
                d.host_compiler->0 + " -m32"@,
            )
        }),
{
    lemma_names_differ();
    let extra = spec_extra_env(s, env, d);
    law_extra_env(s, env, d, "STATIC_CC"@);
    law_extra_env(s, env, d, "TARGET_LD"@);
    law_extra_env(s, env, d, "TARGET_AR"@);
    law_extra_env(s, env, d, "TARGET_STRIP"@);
    law_extra_env(s, env, d, "BUILDMODE"@);
    law_extra_env(s, env, d, "XCFLAGS"@);
    law_extra_env(s, env, d, "HOST_CC"@);
    lemma_lookup_concat(env, extra, "STATIC_CC"@);
    lemma_lookup_concat(env, extra, "TARGET_LD"@);
    lemma_lookup_concat(env, extra, "TARGET_AR"@);
    lemma_lookup_concat(env, extra, "TARGET_STRIP"@);
    lemma_lookup_concat(env, extra, "BUILDMODE"@);
    lemma_lookup_concat(env, extra, "XCFLAGS"@);
    lemma_lookup_concat(env, extra, "HOST_CC"@);
}

/// Planning fails only for want of a setting or of a tool, and says which.
pub proof fn law_plan_failure(s: SettingsView, env: Seq<(Seq<char>, Seq<char>)>, d: DiscoveryView)
    requires
        spec_plan(s, env, d) is Err,
    ensures
        ({
            let error = spec_plan(s, env, d)->Err_0;
            ||| error == BuildErrorView::Missing(Setting::PointerWidth)
            ||| error is NotFound && spec_kind(error) == ErrorKind::Toolchain
        }),
{
}

/// Resolution ends with a complete run or with a failure of a known kind. Whatever the machine
/// has, a run that was resolved for make is make under one of its two names, with `-e`, in the
/// working directory, and finds every tool and flag in its environment; a run for the MSVC
/// tools is the batch script in the working directory. A failure is the want of the pointer
/// width or of a tool.
pub proof fn law_resolution_is_complete(
    s: SettingsView,
    env: Seq<(Seq<char>, Seq<char>)>,
    r: Result<InvocationView, BuildErrorView>,
)
    requires
        spec_resolved(s, env, r),
    ensures
        match r {
            Ok(run) => if spec_uses_msvc(s.target) {
                &&& run.program == ProgramView::At(spec_work_dir(s.out_dir).push("msvcbuild.bat"@))
                &&& run.dir == spec_work_dir(s.out_dir)
                &&& run.args.last() == "static"@
            } else {
                let all = spec_build_env(env, run.env);
                &&& run.program == ProgramView::Named("make"@) || run.program
                    == ProgramView::Named("gmake"@)
                &&& run.args == seq!["-e"@]
                &&& run.dir == spec_work_dir(s.out_dir)
                &&& spec_lookup(all, "STATIC_CC"@) is Some
                &&& spec_lookup(all, "TARGET_LD"@) is Some
                &&& spec_lookup(all, "TARGET_AR"@) is Some
                &&& spec_lookup(all, "TARGET_STRIP"@) is Some
                &&& spec_lookup(all, "BUILDMODE"@) == Some("static"@)
                &&& spec_lookup(all, "XCFLAGS"@) == Some(
                    spec_join(spec_flags(s.compat, s.debug), " "@),
                )
            },
            Err(error) => error == BuildErrorView::Missing(Setting::PointerWidth) || spec_kind(
                error,
            ) == ErrorKind::Toolchain,
        },
{
    if spec_uses_msvc(s.target) {
        let answer = choose|answer: Option<Seq<NativeVar>>|
            r == #[trigger] spec_msvc_invocation(s, answer);
        assert(r == spec_msvc_invocation(s, answer));
    } else {
        let a = choose|a: AnswersView|
            spec_admitted(s, env, a) && r == spec_unix_resolution(
                s,
                env,
                #[trigger] spec_discovery_of(s, env, a),
            );
        let found = spec_discovery_of(s, env, a);
        assert(r == spec_unix_resolution(s, env, found));
        lemma_discovery_is_found(s, env, a);
        if found is Ok {
            if spec_plan(s, env, found->Ok_0) is Ok {
                law_plan_complete(s, env, found->Ok_0);
            } else {
                law_plan_failure(s, env, found->Ok_0);
            }
        }
    }
}

/// Lookups that stop at the first success find what their last one found.
proof fn lemma_last_lookup_decides(lookups: Seq<LookupView>)
    requires
        lookups.len() >= 1,
        forall|i: int| 0 <= i < lookups.len() - 1 ==> (#[trigger] lookups[i]).found is None,
    ensures
        spec_first_found(lookups) == lookups.last().found,
    decreases lookups.len(),
{
    if lookups.len() > 1 {
        let rest = lookups.drop_first();
        assert forall|i: int| 0 <= i < rest.len() - 1 implies (#[trigger] rest[i]).found is None by {
            assert(rest[i] == lookups[i + 1]);
        }
        lemma_last_lookup_decides(rest);
        assert(rest.last() == lookups.last());
        assert(lookups[0].found is None);
    } else {
        assert(lookups.drop_first().len() == 0);
        assert(spec_first_found(lookups.drop_first()) is None);
        assert(lookups.last() == lookups[0]);
    }
}

/// The order of the lookups for the archiver. Where the environment leaves the archiver open
/// and discovery succeeds, the machine is asked first for the archiver under the compiler's
/// cross prefix in the compiler's directory, then for the other candidates there in their
/// order, and last for the prefixed name on the search path. The archiver of the discovery is
/// what the first of these questions to succeed found; every question before it was asked and
/// found nothing, and none after it was asked. Where none succeeded, all were asked.
pub proof fn law_archiver_lookups_in_order(
    s: SettingsView,
    env: Seq<(Seq<char>, Seq<char>)>,
    a: AnswersView,
)
    requires
        spec_admitted(s, env, a),
        spec_discovery_of(s, env, a) is Ok,
        !spec_is_set(env, "TARGET_AR"@),
    ensures
        ({
            let d = spec_discovery_of(s, env, a)->Ok_0;
            let compiler = spec_asked_compiler(s.target, a.compiler)->Ok_0;
            let dir = a.directory->0->0;
            let prefix = spec_cross_prefix(d.compiler);
            let questions = spec_companion_questions(dir, d.compiler, "ar"@, compiler);
            let asked = a.archiver;
            &&& questions[0] == QuestionView::Beside { dir, name: prefix + "ar"@ }
            &&& questions.last() == QuestionView::OnPath { name: prefix + "ar"@ }
            &&& 1 <= asked.len() <= questions.len()
            &&& forall|i: int| 0 <= i < asked.len() ==> (#[trigger] asked[i]).asked == questions[i]
            &&& forall|i: int| 0 <= i < asked.len() - 1 ==> (#[trigger] asked[i]).found is None
            &&& d.archiver == asked.last().found
            &&& d.archiver is None ==> asked.len() == questions.len()
        }),
{
    lemma_last_lookup_decides(a.archiver);
}

/// The order of the lookups for the strip tool: as for the archiver.
pub proof fn law_strip_lookups_in_order(
    s: SettingsView,
    env: Seq<(Seq<char>, Seq<char>)>,
    a: AnswersView,
)
    requires
        spec_admitted(s, env, a),
        spec_discovery_of(s, env, a) is Ok,
        !spec_is_set(env, "TARGET_STRIP"@),
    ensures
        ({
            let d = spec_discovery_of(s, env, a)->Ok_0;
            let compiler = spec_asked_compiler(s.target, a.compiler)->Ok_0;
            let dir = a.directory->0->0;
            let prefix = spec_cross_prefix(d.compiler);
            let questions = spec_companion_questions(dir, d.compiler, "strip"@, compiler);
            let asked = a.strip;
            &&& questions[0] == QuestionView::Beside { dir, name: prefix + "strip"@ }
            &&& questions.last() == QuestionView::OnPath { name: prefix + "strip"@ }
            &&& 1 <= asked.len() <= questions.len()
            &&& forall|i: int| 0 <= i < asked.len() ==> (#[trigger] asked[i]).asked == questions[i]
            &&& forall|i: int| 0 <= i < asked.len() - 1 ==> (#[trigger] asked[i]).found is None
            &&& d.strip == asked.last().found
            &&& d.strip is None ==> asked.len() == questions.len()
        }),
{
    lemma_last_lookup_decides(a.strip);
}

/// Cross-prefix inference for GCC: a compiler named `stem-gcc` has the prefix `stem-`, and its
/// companion tool is looked for first under `stem-` and the tool's name.
pub proof fn law_gcc_prefix(stem: Seq<char>, tool: Seq<char>, like_clang: bool, like_gnu: bool)
    ensures
        spec_cross_prefix(stem + "-gcc"@) == stem + "-"@,
        spec_candidates(spec_cross_prefix(stem + "-gcc"@), tool, like_clang, like_gnu)[0] == stem
            + "-"@ + tool,
{
    reveal_strlit("-gcc");
    reveal_strlit("-");
    let full = stem + "-gcc"@;
    assert(full.subrange(full.len() - 4, full.len() as int) =~= "-gcc"@);
    assert(spec_without_tail(full, 3) =~= stem + "-"@);
}

/// Cross-prefix inference for Clang: a compiler named `stem-clang` has the prefix `stem-`.
pub proof fn law_clang_prefix(stem: Seq<char>)
    ensures
        spec_cross_prefix(stem + "-clang"@) == stem + "-"@,
{
    reveal_strlit("-gcc");
    reveal_strlit("-clang");
    reveal_strlit("-");
    let full = stem + "-clang"@;
    assert(full.subrange(full.len() - 6, full.len() as int) =~= "-clang"@);
    assert(!spec_ends_with(full, "-gcc"@)) by {
        if spec_ends_with(full, "-gcc"@) {
            assert(full.subrange(full.len() - 4, full.len() as int)[3] == 'c');
            assert(full[full.len() - 1] == 'g');
        }
    }
    assert(spec_without_tail(full, 5) =~= stem + "-"@);
}

/// The MSVC tools are chosen by the target alone. For a target that names them, the steps
/// that stage and collect, the run of the batch script and the results are the same on every
/// host; the run has `static` as its last argument, and the compatibility argument before it
/// where that mode is on.
pub proof fn law_msvc_whatever_the_host(s: SettingsView, host: Seq<char>, vars: Seq<NativeVar>)
    requires
        spec_uses_msvc(s.target),
    ensures
        ({
            let other = SettingsView { host, ..s };
            let run = spec_msvc_invocation(s, Some(vars))->Ok_0;
            &&& spec_staging(other, true) == spec_staging(s, true)
            &&& spec_collection(other, true) == spec_collection(s, true)
            &&& spec_artifacts(other, true) == spec_artifacts(s, true)
            &&& spec_msvc_invocation(other, Some(vars)) == spec_msvc_invocation(s, Some(vars))
            &&& spec_msvc_invocation(s, Some(vars)) is Ok
            &&& run.program is At
            &&& run.args.last() == "static"@
            &&& s.compat ==> run.args == seq!["lua52compat"@, "static"@]
            &&& !s.compat ==> run.args == seq!["static"@]
        }),
{
}

/// Staging starts clean. The first steps of staging empty the scratch directory and the two
/// directories of results, in that order; what follows only copies into the scratch directory
/// and removes nothing. The steps that touch the scratch directory up to the copy of the
/// sources are those of staging that one tree. The last step makes the staged version marker
/// writable, for make and for the MSVC tools alike.
pub proof fn law_staging_starts_clean(s: SettingsView, msvc: bool)
    ensures
        ({
            let steps = spec_staging(s, msvc);
            &&& steps.len() == 9
            &&& steps[8] == FsOpView::MakeWritable(spec_staged_marker(s.out_dir))
            &&& steps.subrange(0, 6) == spec_reset(spec_build_dir(s.out_dir)) + spec_reset(
                spec_lib_dir(s.out_dir),
            ) + spec_reset(spec_include_dir(s.out_dir))
            &&& forall|i: int| 6 <= i < steps.len() ==> !(#[trigger] steps[i] is RemoveDir)
            &&& seq![steps[0], steps[1], steps[6]] == spec_stage(
                spec_source_dir(s.package_dir),
                spec_build_dir(s.out_dir),
                spec_metadata(),
            )
        }),
{
    let steps = spec_staging(s, msvc);
    assert(steps.subrange(0, 6) =~= spec_reset(spec_build_dir(s.out_dir)) + spec_reset(
        spec_lib_dir(s.out_dir),
    ) + spec_reset(spec_include_dir(s.out_dir)));
    assert(seq![steps[0], steps[1], steps[6]] =~= spec_stage(
        spec_source_dir(s.package_dir),
        spec_build_dir(s.out_dir),
        spec_metadata(),
    ));
}

/// Results go into emptied directories. Every step of collecting copies a file of the working
/// directory into the directory of headers or the directory of the library, which staging has
/// emptied before.
pub proof fn law_results_into_emptied_directories(s: SettingsView, msvc: bool, i: int)
    requires
        0 <= i < spec_collection(s, msvc).len(),
    ensures
        ({
            let step = spec_collection(s, msvc)[i];
            let staging = spec_staging(s, msvc);
            let (from, to) = match step {
                FsOpView::CopyFile { from, to } => (from, to),
                FsOpView::CopyIfPresent { from, to } => (from, to),
                _ => (Seq::empty(), Seq::empty()),
            };
            &&& step is CopyFile || step is CopyIfPresent
            &&& from.drop_last() == spec_work_dir(s.out_dir)
            &&& to.last() == from.last()
            &&& to.drop_last() == spec_include_dir(s.out_dir) || to.drop_last() == spec_lib_dir(
                s.out_dir,
            )
            &&& staging[2] == FsOpView::RemoveDir(spec_lib_dir(s.out_dir))
            &&& staging[3] == FsOpView::CreateDir(spec_lib_dir(s.out_dir))
            &&& staging[4] == FsOpView::RemoveDir(spec_include_dir(s.out_dir))
            &&& staging[5] == FsOpView::CreateDir(spec_include_dir(s.out_dir))
        }),
{
    let step = spec_collection(s, msvc)[i];
    match step {
        FsOpView::CopyFile { from, to } => {
            assert(from.drop_last() =~= spec_work_dir(s.out_dir));
            assert(to.drop_last() =~= spec_include_dir(s.out_dir));
        },
        FsOpView::CopyIfPresent { from, to } => {
            assert(from.drop_last() =~= spec_work_dir(s.out_dir));
            assert(to.drop_last() =~= spec_lib_dir(s.out_dir));
        },
        _ => {},
    }
}

/// The library goes by its bare name. The results of a build name one library, and that name
/// is the file's name without what the platform puts around it: `lib` and `.a` for make,
/// `.lib` for the MSVC tools.
pub proof fn law_library_name_is_bare(s: SettingsView, msvc: bool)
    ensures
        spec_artifacts(s, msvc).libs == seq![spec_lib_name(msvc)],
        !msvc ==> spec_lib_file(msvc) == "lib"@ + spec_lib_name(msvc) + ".a"@,
        msvc ==> spec_lib_file(msvc) == spec_lib_name(msvc) + ".lib"@,
        forall|i: int| 0 <= i < spec_lib_name(msvc).len() ==> spec_lib_name(msvc)[i] != '.',
{
    reveal_strlit("lib");
    reveal_strlit(".a");
    reveal_strlit(".lib");
    reveal_strlit("luajit");
    reveal_strlit("lua51");
    reveal_strlit("libluajit.a");
    reveal_strlit("lua51.lib");
    assert("libluajit.a"@ =~= "lib"@ + "luajit"@ + ".a"@);
    assert("lua51.lib"@ =~= "lua51"@ + ".lib"@);
}

/// The end is final. A session that has succeeded or failed stays so and asks for nothing,
/// whatever it is told.
pub proof fn law_over_is_final(
    s: SessionView,
    event: EventView,
    resolution: Result<InvocationView, BuildErrorView>,
)
    requires
        spec_over(s.phase),
    ensures
        spec_step(s, event, resolution) == (s.phase, ActionView::Halt),
{
}

/// Results come only with success, and an error only with failure. A session hands out
/// results exactly when it enters the phase of success, which it does only from collecting;
/// it hands out an error exactly when it enters the phase of failure.
pub proof fn law_results_only_on_success(
    s: SessionView,
    event: EventView,
    resolution: Result<InvocationView, BuildErrorView>,
)
    requires
        !spec_over(s.phase),
    ensures
        ({
            let (phase, action) = spec_step(s, event, resolution);
            &&& action is Finish <==> phase == Phase::Succeeded
            &&& action is Finish ==> s.phase == Phase::Collecting && event is Completed
            &&& action is Abort <==> phase == Phase::Failed
            &&& !(action is Halt)
        }),
{
}

/// The order of a build. Steps on the file system are asked for only at the start and after
/// the external build has succeeded; the external build is run only after staging is
/// complete.
pub proof fn law_order_of_a_build(
    s: SessionView,
    event: EventView,
    resolution: Result<InvocationView, BuildErrorView>,
)
    ensures
        ({
            let (phase, action) = spec_step(s, event, resolution);
            &&& action is Perform ==> (s.phase == Phase::Configured && phase == Phase::Staging)
                || (s.phase == Phase::Running && phase == Phase::Collecting && event is Exited
                && event->Exited_success)
            &&& action is Run ==> s.phase == Phase::Staging && event is Completed && phase
                == Phase::Running && resolution == Ok::<InvocationView, BuildErrorView>(
                action->Run_0,
            )
        }),
{
}

} // verus!
