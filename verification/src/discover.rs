//! Discovery: what the machine has for one build.
//!
//! Discovery asks, then decides. [`discover`] puts its questions to the machine through
//! [`crate::probe`] and collects the [`Answers`]; [`discovery_of`] says what they amount to,
//! and is verified for every answer. A slot that the caller's environment overrides is not
//! looked at.

use vstd::prelude::*;
use vstd::string::*;
use crate::config::{Settings, SettingsView};
use crate::environment::{
    lemma_vars_push, spec_is_set, spec_opt_text, spec_vars, EnvVar, Environment,
};
use crate::error::{BuildError, BuildErrorView, Setting, Tool};
use crate::ops::{Invocation, InvocationView, NativeVar};
use crate::probe::{
    file_name, is_file, join_path, msvc_tool_vars, parent_dir, probe_compiler, probe_failure,
    search, search_failure, CompilerProbe,
};
use crate::text::{chain, spec_texts};
use crate::triple::{probe_takes, spec_probe_takes};
use crate::toolchain::{
    cross_prefix, msvc_invocation, plan_unix, spec_candidates, spec_cross_prefix,
    spec_msvc_invocation, spec_plan, spec_unix_invocation, spec_uses_msvc,
    spec_wants_host_compiler, tool_candidates, unix_invocation, uses_msvc, wants_host_compiler,
    Discovery, DiscoveryView,
};

verus! {

/// A compiler that the probe has named in text.
#[derive(Debug, Clone, PartialEq, Eq)]
pub struct Compiler {
    pub path: String,
    pub flags: String,
    pub like_gnu: bool,
    pub like_clang: bool,
}

/// The reason given where the probe names a compiler that is not text.
pub open spec fn spec_not_text() -> Seq<char> {
    "it is not named in valid Unicode"@
}

/// What the outcome of a probe is worth: a compiler where the probe named one and its path
/// and its flags are text. `probe` is what the probe gave, with the text of its error.
pub open spec fn spec_compiler_of(probe: Result<CompilerProbe, String>) -> Result<
    Compiler,
    BuildErrorView,
> {
    match probe {
        Ok(named) => if named.path is Some && named.flags is Some {
            Ok(
                Compiler {
                    path: named.path->0,
                    flags: named.flags->0,
                    like_gnu: named.like_gnu,
                    like_clang: named.like_clang,
                },
            )
        } else {
            Err(BuildErrorView::CompilerUnknown { reason: spec_not_text() })
        },
        Err(reason) => Err(BuildErrorView::CompilerUnknown { reason: reason@ }),
    }
}

/// What the naming of a compiler says, over plain sequences.
pub open spec fn spec_naming(named: Result<Compiler, BuildError>) -> Result<
    Compiler,
    BuildErrorView,
> {
    match named {
        Ok(compiler) => Ok(compiler),
        Err(error) => Err(error@),
    }
}

/// The compiler that a probe has named, given what the probe gave.
pub fn compiler_of(probe: Result<CompilerProbe, String>) -> (r: Result<Compiler, BuildError>)
    ensures
        spec_naming(r) == spec_compiler_of(probe),
{
    match probe {
        Ok(named) => match (named.path, named.flags) {
            (Some(path), Some(flags)) => Ok(
                Compiler { path, flags, like_gnu: named.like_gnu, like_clang: named.like_clang },
            ),
            _ => Err(
                BuildError::CompilerUnknown {
                    reason: "it is not named in valid Unicode".to_owned(),
                },
            ),
        },
        Err(reason) => Err(BuildError::CompilerUnknown { reason }),
    }
}

/// Where a tool is looked for.
#[derive(Debug, Clone, PartialEq, Eq)]
pub enum Question {
    /// Whether the entry `name` of the directory `dir` is a file.
    Beside { dir: String, name: String },
    /// Whether the search path has an executable file called `name`.
    OnPath { name: String },
}

/// What a [`Question`] says, over plain sequences.
pub enum QuestionView {
    Beside { dir: Seq<char>, name: Seq<char> },
    OnPath { name: Seq<char> },
}

impl View for Question {
    type V = QuestionView;

    open spec fn view(&self) -> QuestionView {
        match self {
            Question::Beside { dir, name } => QuestionView::Beside { dir: dir@, name: name@ },
            Question::OnPath { name } => QuestionView::OnPath { name: name@ },
        }
    }
}

/// One lookup for a tool: what the machine was asked, and the path of the tool where it was
/// found.
#[derive(Debug, Clone, PartialEq, Eq)]
pub struct Lookup {
    pub asked: Question,
    pub found: Option<String>,
}

/// What a [`Lookup`] says, over plain sequences.
pub struct LookupView {
    pub asked: QuestionView,
    pub found: Option<Seq<char>>,
}

impl View for Lookup {
    type V = LookupView;

    open spec fn view(&self) -> LookupView {
        LookupView { asked: self.asked@, found: spec_opt_text(self.found) }
    }
}

/// Each lookup of `lookups`, over plain sequences.
pub open spec fn spec_lookup_views(lookups: Seq<Lookup>) -> Seq<LookupView> {
    Seq::new(lookups.len(), |i: int| lookups[i]@)
}

/// The tool that lookups in order of priority have found: that of the first lookup that found
/// one.
pub open spec fn spec_first_found(lookups: Seq<LookupView>) -> Option<Seq<char>>
    decreases lookups.len(),
{
    if lookups.len() == 0 {
        None
    } else if lookups[0].found is Some {
        lookups[0].found
    } else {
        spec_first_found(lookups.drop_first())
    }
}

/// The tool that the lookups `lookups`, in order of priority, have found.
pub fn first_found(lookups: &Vec<Lookup>) -> (r: Option<String>)
    ensures
        spec_opt_text(r) == spec_first_found(spec_lookup_views(lookups@)),
{
    let ghost all = spec_lookup_views(lookups@);
    let mut i: usize = 0;
    assert(all.subrange(0, all.len() as int) =~= all);
    while i < lookups.len()
        invariant
            i <= lookups.len(),
            all == spec_lookup_views(lookups@),
            spec_first_found(all) == spec_first_found(all.subrange(i as int, all.len() as int)),
        decreases lookups.len() - i,
    {
        let ghost rest = all.subrange(i as int, all.len() as int);
        assert(rest[0] == lookups@[i as int]@);
        assert(rest.drop_first() =~= all.subrange(i + 1, all.len() as int));
        match &lookups[i].found {
            Some(found) => {
                return Some(found.clone());
            },
            None => {},
        }
        i = i + 1;
    }
    None
}

/// What the locating of a compiler says, over plain sequences.
pub open spec fn spec_locating(located: Result<String, BuildError>) -> Result<
    Seq<char>,
    BuildErrorView,
> {
    match located {
        Ok(path) => Ok(path@),
        Err(error) => Err(error@),
    }
}

/// What a search for the compiler is worth: its path, where it was found and is text.
/// `found` is what the search gave, with the text of its error.
pub open spec fn spec_located_of(name: Seq<char>, found: Result<Option<String>, String>) -> Result<
    Seq<char>,
    BuildErrorView,
> {
    match found {
        Ok(Some(located)) => Ok(located@),
        Ok(None) => Err(
            BuildErrorView::NotFound { tool: Tool::Compiler, name, reason: spec_not_text() },
        ),
        Err(reason) => Err(
            BuildErrorView::NotFound { tool: Tool::Compiler, name, reason: reason@ },
        ),
    }
}

/// The path of the compiler `name`, given what the search for it gave.
pub fn located_of(name: &str, found: Result<Option<String>, String>) -> (r: Result<
    String,
    BuildError,
>)
    ensures
        spec_locating(r) == spec_located_of(name@, found),
{
    match found {
        Ok(Some(located)) => Ok(located),
        Ok(None) => Err(
            BuildError::NotFound {
                tool: Tool::Compiler,
                name: name.to_owned(),
                reason: "it is not named in valid Unicode".to_owned(),
            },
        ),
        Err(reason) => Err(
            BuildError::NotFound { tool: Tool::Compiler, name: name.to_owned(), reason },
        ),
    }
}

/// The questions for a tool, in their order of priority: whether it lies in the directory
/// `dir` under each of `names`, then whether the search path has it under `fallback`.
pub open spec fn spec_questions(dir: Seq<char>, names: Seq<Seq<char>>, fallback: Seq<char>) -> Seq<
    QuestionView,
> {
    Seq::new(
        names.len() + 1,
        |i: int|
            if i < names.len() {
                QuestionView::Beside { dir, name: names[i] }
            } else {
                QuestionView::OnPath { name: fallback }
            },
    )
}

/// Whether `lookups` can be the lookups for a tool with the questions `questions`: the
/// questions are asked from the first on, in their order, at least one of them; none is asked
/// after one that has found the tool; and the asking stops before the last only where the
/// tool is found.
pub open spec fn spec_lookups(lookups: Seq<LookupView>, questions: Seq<QuestionView>) -> bool {
    &&& 1 <= lookups.len() <= questions.len()
    &&& forall|i: int| 0 <= i < lookups.len() ==> (#[trigger] lookups[i]).asked == questions[i]
    &&& forall|i: int| 0 <= i < lookups.len() - 1 ==> (#[trigger] lookups[i]).found is None
    &&& lookups.len() < questions.len() ==> lookups.last().found is Some
}

/// Looks for a tool: under each of `names` in the directory `dir`, in their order, then under
/// `fallback` on the search path. A lookup is made only while those before it have found
/// nothing. What comes back are the lookups that were made, in their order, each with what
/// was asked.
fn look_up(dir: &str, names: &Vec<String>, fallback: &str) -> (r: Vec<Lookup>)
    ensures
        spec_lookups(spec_lookup_views(r@), spec_questions(dir@, spec_texts(names@), fallback@)),
{
    let ghost questions = spec_questions(dir@, spec_texts(names@), fallback@);
    let mut lookups: Vec<Lookup> = Vec::new();
    let mut found = false;
    let mut i: usize = 0;
    while i < names.len() && !found
        invariant
            i <= names.len(),
            lookups.len() == i,
            questions == spec_questions(dir@, spec_texts(names@), fallback@),
            found ==> i > 0 && lookups@[i - 1].found is Some,
            forall|k: int| 0 <= k < i ==> (#[trigger] lookups@[k])@.asked == questions[k],
            forall|k: int| 0 <= k < i - 1 ==> (#[trigger] lookups@[k]).found is None,
            !found ==> forall|k: int| 0 <= k < i ==> (#[trigger] lookups@[k]).found is None,
        decreases names.len() - i,
    {
        let outcome = match join_path(dir, names[i].as_str()) {
            Some(candidate) => if is_file(candidate.as_str()) {
                Some(candidate)
            } else {
                None
            },
            None => None,
        };
        found = outcome.is_some();
        let asked = Question::Beside { dir: dir.to_owned(), name: names[i].clone() };
        lookups.push(Lookup { asked, found: outcome });
        i = i + 1;
    }
    if !found {
        let outcome = match search(fallback) {
            Ok(found) => found,
            Err(_) => None,
        };
        lookups.push(Lookup { asked: Question::OnPath { name: fallback.to_owned() }, found: outcome });
    }
    assert(spec_lookups(spec_lookup_views(lookups@), questions));
    lookups
}

/// The questions for the companion `tool` of `compiler`, whose file name is `name` and which
/// lies in `dir`: under the cross prefix of the compiler, then under the names of its family,
/// all in `dir`, then under the cross prefix on the search path.
pub open spec fn spec_companion_questions(
    dir: Seq<char>,
    name: Seq<char>,
    tool: Seq<char>,
    compiler: Compiler,
) -> Seq<QuestionView> {
    spec_questions(
        dir,
        spec_candidates(spec_cross_prefix(name), tool, compiler.like_clang, compiler.like_gnu),
        spec_cross_prefix(name) + tool,
    )
}

/// Looks for the companion `tool` of `compiler`, whose file name is `name` and which lies in
/// `dir`. What comes back are the lookups that were made.
fn look_up_companion(dir: &str, compiler: &Compiler, name: &str, tool: &str) -> (r: Vec<Lookup>)
    ensures
        spec_lookups(
            spec_lookup_views(r@),
            spec_companion_questions(dir@, name@, tool@, *compiler),
        ),
{
    let prefix = cross_prefix(name);
    let names = tool_candidates(prefix.as_str(), tool, compiler.like_clang, compiler.like_gnu);
    let fallback = chain(prefix.as_str(), tool);
    look_up(dir, &names, fallback.as_str())
}

/// What the machine said to the questions of one discovery. `None`, and a list without
/// outcomes, stand for a question that was not asked.
#[derive(Debug, Clone, PartialEq, Eq)]
pub struct Answers {
    /// What the probe for the compiler of the target gave, with the text of its error.
    pub compiler: Option<Result<CompilerProbe, String>>,
    /// What the probe for the compiler of the host gave, with the text of its error.
    pub host_compiler: Option<Result<CompilerProbe, String>>,
    /// What the search for the compiler gave, with the text of its error.
    pub located: Option<Result<Option<String>, String>>,
    /// The directory that the located compiler lies in, or `None` where it lies in none.
    pub directory: Option<Option<String>>,
    /// The file name of the compiler as the probe named it, or `None` where it has none.
    pub file_name: Option<Option<String>>,
    /// The lookups for the archiver, in their order.
    pub archiver: Vec<Lookup>,
    /// The lookups for the strip tool, in their order.
    pub strip: Vec<Lookup>,
}

/// What [`Answers`] say, with texts and lists as plain sequences.
pub struct AnswersView {
    pub compiler: Option<Result<CompilerProbe, String>>,
    pub host_compiler: Option<Result<CompilerProbe, String>>,
    pub located: Option<Result<Option<String>, String>>,
    pub directory: Option<Option<Seq<char>>>,
    pub file_name: Option<Option<Seq<char>>>,
    pub archiver: Seq<LookupView>,
    pub strip: Seq<LookupView>,
}

/// The characters of an answer that may be missing and may be empty.
pub open spec fn spec_answer_text(answer: Option<Option<String>>) -> Option<Option<Seq<char>>> {
    match answer {
        Some(given) => Some(spec_opt_text(given)),
        None => None,
    }
}

impl View for Answers {
    type V = AnswersView;

    open spec fn view(&self) -> AnswersView {
        AnswersView {
            compiler: self.compiler,
            host_compiler: self.host_compiler,
            located: self.located,
            directory: spec_answer_text(self.directory),
            file_name: spec_answer_text(self.file_name),
            archiver: spec_lookup_views(self.archiver@),
            strip: spec_lookup_views(self.strip@),
        }
    }
}

/// The reason given where the probe cannot take a target.
pub open spec fn spec_not_taken() -> Seq<char> {
    "the probe does not know the system of this Apple target"@
}

/// The reason given where the machine was not asked what was needed.
pub open spec fn spec_no_answer() -> Seq<char> {
    "the machine was not asked"@
}

/// The reason given where a located compiler has no directory around it.
pub open spec fn spec_no_directory() -> Seq<char> {
    "it lies in no directory"@
}

/// The compiler that builds for `target`, given the answer of the probe: none for a target
/// that the probe cannot take, whatever the answer, and none without an answer.
pub open spec fn spec_asked_compiler(
    target: Seq<char>,
    answer: Option<Result<CompilerProbe, String>>,
) -> Result<Compiler, BuildErrorView> {
    if !spec_probe_takes(target) {
        Err(BuildErrorView::CompilerUnknown { reason: spec_not_taken() })
    } else {
        match answer {
            Some(probe) => spec_compiler_of(probe),
            None => Err(BuildErrorView::CompilerUnknown { reason: spec_no_answer() }),
        }
    }
}

/// The compiler that builds for `target`, given the answer of the probe.
pub fn asked_compiler(target: &str, answer: Option<Result<CompilerProbe, String>>) -> (r: Result<
    Compiler,
    BuildError,
>)
    ensures
        spec_naming(r) == spec_asked_compiler(target@, answer),
{
    if !probe_takes(target) {
        return Err(
            BuildError::CompilerUnknown {
                reason: "the probe does not know the system of this Apple target".to_owned(),
            },
        );
    }
    match answer {
        Some(probe) => compiler_of(probe),
        None => Err(BuildError::CompilerUnknown { reason: "the machine was not asked".to_owned() }),
    }
}

/// The path of the compiler `name`, given the answer of the search: none without an answer.
pub open spec fn spec_asked_location(
    name: Seq<char>,
    answer: Option<Result<Option<String>, String>>,
) -> Result<Seq<char>, BuildErrorView> {
    match answer {
        Some(found) => spec_located_of(name, found),
        None => Err(
            BuildErrorView::NotFound { tool: Tool::Compiler, name, reason: spec_no_answer() },
        ),
    }
}

/// The path of the compiler `name`, given the answer of the search.
pub fn asked_location(name: &str, answer: Option<Result<Option<String>, String>>) -> (r: Result<
    String,
    BuildError,
>)
    ensures
        spec_locating(r) == spec_asked_location(name@, answer),
{
    match answer {
        Some(found) => located_of(name, found),
        None => Err(
            BuildError::NotFound {
                tool: Tool::Compiler,
                name: name.to_owned(),
                reason: "the machine was not asked".to_owned(),
            },
        ),
    }
}

/// The compiler for the host, given the answers: none where none is wanted, else what
/// [`spec_asked_compiler`] gives for the host's triple.
pub open spec fn spec_asked_host(
    s: SettingsView,
    env: Seq<(Seq<char>, Seq<char>)>,
    a: AnswersView,
) -> Result<Option<Seq<char>>, BuildErrorView> {
    if spec_wants_host_compiler(env) {
        match spec_asked_compiler(s.host, a.host_compiler) {
            Ok(compiler) => Ok(Some(compiler.path@)),
            Err(error) => Err(error),
        }
    } else {
        Ok(None)
    }
}

/// The file name of the compiler `compiler`, given the answer: the compiler's name as a whole
/// where the machine gave none.
pub open spec fn spec_asked_name(compiler: Compiler, a: AnswersView) -> Seq<char> {
    match a.file_name {
        Some(Some(name)) => name,
        _ => compiler.path@,
    }
}

/// What the answers of the machine amount to.
///
/// A failed probe or search ends the discovery with its own reason, in this order: the
/// compiler for the target, the width of a pointer, the compiler for the host where one is
/// wanted, the place of the compiler, its directory. Else the discovery holds the file name
/// and the flags of the compiler, its place, the path of the host's compiler, and for the
/// archiver and the strip tool what the first successful lookup found, or nothing where the
/// environment names the tool.
pub open spec fn spec_discovery_of(
    s: SettingsView,
    env: Seq<(Seq<char>, Seq<char>)>,
    a: AnswersView,
) -> Result<DiscoveryView, BuildErrorView> {
    match spec_asked_compiler(s.target, a.compiler) {
        Err(error) => Err(error),
        Ok(compiler) => if !spec_is_set(env, "CARGO_CFG_TARGET_POINTER_WIDTH"@) {
            Err(BuildErrorView::Missing(Setting::PointerWidth))
        } else {
            match spec_asked_host(s, env, a) {
                Err(error) => Err(error),
                Ok(host_compiler) => match spec_asked_location(compiler.path@, a.located) {
                    Err(error) => Err(error),
                    Ok(located) => match a.directory {
                        Some(Some(dir)) => Ok(
                            DiscoveryView {
                                compiler: spec_asked_name(compiler, a),
                                flags: compiler.flags@,
                                located,
                                host_compiler,
                                archiver: if spec_is_set(env, "TARGET_AR"@) {
                                    None
                                } else {
                                    spec_first_found(a.archiver)
                                },
                                strip: if spec_is_set(env, "TARGET_STRIP"@) {
                                    None
                                } else {
                                    spec_first_found(a.strip)
                                },
                            },
                        ),
                        _ => Err(
                            BuildErrorView::NotFound {
                                tool: Tool::Compiler,
                                name: located,
                                reason: spec_no_directory(),
                            },
                        ),
                    },
                },
            }
        },
    }
}

/// What a discovery says, over plain sequences.
pub open spec fn spec_finding(found: Result<Discovery, BuildError>) -> Result<
    DiscoveryView,
    BuildErrorView,
> {
    match found {
        Ok(d) => Ok(d@),
        Err(error) => Err(error@),
    }
}

/// What the answers `answers` of the machine amount to for a build with make.
pub fn discovery_of(settings: &Settings, env: &Environment, answers: Answers) -> (r: Result<
    Discovery,
    BuildError,
>)
    ensures
        spec_finding(r) == spec_discovery_of(settings@, env@, answers@),
{
    let Answers { compiler, host_compiler, located, directory, file_name, archiver, strip } =
        answers;
    let compiler = match asked_compiler(settings.target.as_str(), compiler) {
        Ok(compiler) => compiler,
        Err(error) => {
            return Err(error);
        },
    };
    if !env.is_set("CARGO_CFG_TARGET_POINTER_WIDTH") {
        return Err(BuildError::Missing(Setting::PointerWidth));
    }
    let host_compiler = if wants_host_compiler(env) {
        match asked_compiler(settings.host.as_str(), host_compiler) {
            Ok(found) => Some(found.path),
            Err(error) => {
                return Err(error);
            },
        }
    } else {
        None
    };
    let located = match asked_location(compiler.path.as_str(), located) {
        Ok(located) => located,
        Err(error) => {
            return Err(error);
        },
    };
    match directory {
        Some(Some(_)) => {},
        _ => {
            return Err(
                BuildError::NotFound {
                    tool: Tool::Compiler,
                    name: located,
                    reason: "it lies in no directory".to_owned(),
                },
            );
        },
    }
    let name = match file_name {
        Some(Some(name)) => name,
        _ => compiler.path,
    };
    let archiver = if env.is_set("TARGET_AR") {
        None
    } else {
        first_found(&archiver)
    };
    let strip = if env.is_set("TARGET_STRIP") {
        None
    } else {
        first_found(&strip)
    };
    Ok(Discovery { compiler: name, flags: compiler.flags, located, host_compiler, archiver, strip })
}

/// Whether the answers show that the compiler for the target is named and the width of a
/// pointer is known.
pub open spec fn spec_named(
    s: SettingsView,
    env: Seq<(Seq<char>, Seq<char>)>,
    a: AnswersView,
) -> bool {
    spec_asked_compiler(s.target, a.compiler) is Ok && spec_is_set(
        env,
        "CARGO_CFG_TARGET_POINTER_WIDTH"@,
    )
}

/// Whether the answers show, on top of that, that the compiler for the host is settled.
pub open spec fn spec_settled(
    s: SettingsView,
    env: Seq<(Seq<char>, Seq<char>)>,
    a: AnswersView,
) -> bool {
    spec_named(s, env, a) && spec_asked_host(s, env, a) is Ok
}

/// Whether the answers show, on top of that, where the compiler lies.
pub open spec fn spec_placed(
    s: SettingsView,
    env: Seq<(Seq<char>, Seq<char>)>,
    a: AnswersView,
) -> bool {
    spec_settled(s, env, a) && spec_asked_location(
        spec_asked_compiler(s.target, a.compiler)->Ok_0.path@,
        a.located,
    ) is Ok
}

/// Whether the answers show, on top of that, the directory of the compiler.
pub open spec fn spec_housed(
    s: SettingsView,
    env: Seq<(Seq<char>, Seq<char>)>,
    a: AnswersView,
) -> bool {
    spec_placed(s, env, a) && a.directory is Some && a.directory->0 is Some
}

/// Whether the lookups for `tool` are as they may be: none where the compiler's directory is
/// not known or the environment names the tool under `variable`; and else as
/// [`spec_lookups`] has them for the questions of [`spec_companion_questions`], which are
/// asked of the compiler's directory first and of the search path last.
pub open spec fn spec_looked_up(
    s: SettingsView,
    env: Seq<(Seq<char>, Seq<char>)>,
    a: AnswersView,
    variable: Seq<char>,
    tool: Seq<char>,
    lookups: Seq<LookupView>,
) -> bool {
    if spec_housed(s, env, a) && !spec_is_set(env, variable) {
        let compiler = spec_asked_compiler(s.target, a.compiler)->Ok_0;
        spec_lookups(
            lookups,
            spec_companion_questions(
                a.directory->0->0,
                spec_asked_name(compiler, a),
                tool,
                compiler,
            ),
        )
    } else {
        lookups.len() == 0
    }
}

/// What holds of the answers of one discovery, whatever the machine says: which questions
/// were asked. A question is asked exactly where the answers before it call for it: a probe
/// only for a target that it can take, the host's compiler only where one is wanted, the
/// place of the compiler only once the compilers are named, its directory only once it is
/// placed, its file name only once the directory is known, and a tool only where the
/// environment does not name it.
pub open spec fn spec_admitted(
    s: SettingsView,
    env: Seq<(Seq<char>, Seq<char>)>,
    a: AnswersView,
) -> bool {
    &&& a.compiler is Some <==> spec_probe_takes(s.target)
    &&& a.host_compiler is Some <==> spec_named(s, env, a) && spec_wants_host_compiler(env)
        && spec_probe_takes(s.host)
    &&& a.located is Some <==> spec_settled(s, env, a)
    &&& a.directory is Some <==> spec_placed(s, env, a)
    &&& a.file_name is Some <==> spec_housed(s, env, a)
    &&& spec_looked_up(s, env, a, "TARGET_AR"@, "ar"@, a.archiver)
    &&& spec_looked_up(s, env, a, "TARGET_STRIP"@, "strip"@, a.strip)
}

/// What holds of a discovery whatever the machine has. The width of a pointer is known. A
/// compiler for the host is there exactly where one is needed. The archiver and the strip
/// tool are filled in only where they were looked for, and they are looked for only where the
/// environment leaves them open.
pub open spec fn spec_discovered(env: Seq<(Seq<char>, Seq<char>)>, d: DiscoveryView) -> bool {
    &&& spec_is_set(env, "CARGO_CFG_TARGET_POINTER_WIDTH"@)
    &&& d.host_compiler is Some <==> spec_wants_host_compiler(env)
    &&& d.archiver is Some ==> !spec_is_set(env, "TARGET_AR"@)
    &&& d.strip is Some ==> !spec_is_set(env, "TARGET_STRIP"@)
}

/// Whether discovery may end with this error: the width of a pointer where the environment
/// lacks it, a compiler that cannot be determined, or a compiler that is not found.
pub open spec fn spec_discovery_error(
    env: Seq<(Seq<char>, Seq<char>)>,
    error: BuildErrorView,
) -> bool {
    ||| error == BuildErrorView::Missing(Setting::PointerWidth) && !spec_is_set(
        env,
        "CARGO_CFG_TARGET_POINTER_WIDTH"@,
    )
    ||| error is CompilerUnknown
    ||| error is NotFound && error->NotFound_tool == Tool::Compiler
}

/// What holds of every outcome of discovery, whatever the machine has.
pub open spec fn spec_found(
    env: Seq<(Seq<char>, Seq<char>)>,
    found: Result<DiscoveryView, BuildErrorView>,
) -> bool {
    match found {
        Ok(d) => spec_discovered(env, d),
        Err(error) => spec_discovery_error(env, error),
    }
}

/// What the answers amount to is an outcome that [`spec_found`] admits.
pub proof fn lemma_discovery_is_found(
    s: SettingsView,
    env: Seq<(Seq<char>, Seq<char>)>,
    a: AnswersView,
)
    ensures
        spec_found(env, spec_discovery_of(s, env, a)),
{
}

/// The variables that the compiler probe is handed: those of `env`, and after them a `TARGET`
/// without a value, so that the probe reads each target from its triple.
pub open spec fn spec_probe_vars(env: Seq<(Seq<char>, Seq<char>)>) -> Seq<(Seq<char>, Seq<char>)> {
    env.push(("TARGET"@, Seq::empty()))
}

/// The variables that the compiler probe is handed.
pub fn probe_vars(env: &Environment) -> (r: Vec<EnvVar>)
    ensures
        spec_vars(r@) == spec_probe_vars(env@),
{
    let Environment { mut vars } = env.duplicate();
    let last = EnvVar { name: "TARGET".to_owned(), value: String::new() };
    proof {
        lemma_vars_push(vars@, last);
    }
    vars.push(last);
    vars
}

/// Asks the machine what a discovery needs to know, one question after the other, and stops
/// where an answer leaves nothing more to ask.
fn ask(settings: &Settings, env: &Environment) -> (r: Answers)
    ensures
        spec_admitted(settings@, env@, r@),
{
    let mut answers = Answers {
        compiler: None,
        host_compiler: None,
        located: None,
        directory: None,
        file_name: None,
        archiver: Vec::new(),
        strip: Vec::new(),
    };
    let target = settings.target.as_str();
    let host = settings.host.as_str();
    if !probe_takes(target) {
        return answers;
    }
    let vars = probe_vars(env);
    let probe = match probe_compiler(target, host, false, &vars) {
        Ok(named) => Ok(named),
        Err(error) => Err(probe_failure(&error)),
    };
    let compiler = match &probe {
        Ok(named) => match (&named.path, &named.flags) {
            (Some(path), Some(flags)) => Some(
                Compiler {
                    path: path.clone(),
                    flags: flags.clone(),
                    like_gnu: named.like_gnu,
                    like_clang: named.like_clang,
                },
            ),
            _ => None,
        },
        Err(_) => None,
    };
    answers.compiler = Some(probe);
    let compiler = match compiler {
        Some(compiler) => compiler,
        None => {
            return answers;
        },
    };
    if !env.is_set("CARGO_CFG_TARGET_POINTER_WIDTH") {
        return answers;
    }
    if wants_host_compiler(env) {
        if !probe_takes(host) {
            return answers;
        }
        let host_probe = match probe_compiler(host, host, false, &vars) {
            Ok(named) => Ok(named),
            Err(error) => Err(probe_failure(&error)),
        };
        let named = match &host_probe {
            Ok(named) => named.path.is_some() && named.flags.is_some(),
            Err(_) => false,
        };
        answers.host_compiler = Some(host_probe);
        if !named {
            return answers;
        }
    }
    let found = match search(compiler.path.as_str()) {
        Ok(found) => Ok(found),
        Err(error) => Err(search_failure(&error)),
    };
    let located = match &found {
        Ok(Some(located)) => Some(located.clone()),
        _ => None,
    };
    answers.located = Some(found);
    let located = match located {
        Some(located) => located,
        None => {
            return answers;
        },
    };
    let directory = parent_dir(located.as_str());
    let dir = match &directory {
        Some(dir) => Some(dir.clone()),
        None => None,
    };
    answers.directory = Some(directory);
    let dir = match dir {
        Some(dir) => dir,
        None => {
            return answers;
        },
    };
    let file_name = file_name(compiler.path.as_str());
    let name = match &file_name {
        Some(name) => name.clone(),
        None => compiler.path.clone(),
    };
    answers.file_name = Some(file_name);
    if !env.is_set("TARGET_AR") {
        answers.archiver = look_up_companion(dir.as_str(), &compiler, name.as_str(), "ar");
    }
    if !env.is_set("TARGET_STRIP") {
        answers.strip = look_up_companion(dir.as_str(), &compiler, name.as_str(), "strip");
    }
    answers
}

/// Looks on the machine for the tools of a build with make: the compiler for the target and
/// where it lies, a compiler for the host where the target has pointers of 32 bits, and the
/// archiver and the strip tool beside the compiler or on the search path.
///
/// A tool that the environment names already is not looked for. The outcome is what
/// [`spec_discovery_of`] gives for the answers of the machine, and those are admitted by
/// [`spec_admitted`]: a compiler that cannot be determined or located ends the discovery; an
/// archiver or a strip tool that is not found leaves its slot empty. The width of a pointer
/// is reported as missing only where the environment lacks it.
pub fn discover(settings: &Settings, env: &Environment) -> (r: Result<Discovery, BuildError>)
    ensures
        spec_found(env@, spec_finding(r)),
        spec_finding(r) == Err::<DiscoveryView, BuildErrorView>(
            BuildErrorView::Missing(Setting::PointerWidth),
        ) ==> !spec_is_set(env@, "CARGO_CFG_TARGET_POINTER_WIDTH"@),
        exists|a: AnswersView|
            spec_admitted(settings@, env@, a) && spec_finding(r) == #[trigger] spec_discovery_of(
                settings@,
                env@,
                a,
            ),
{
    let answers = ask(settings, env);
    let ghost said = answers@;
    let r = discovery_of(settings, env, answers);
    proof {
        lemma_discovery_is_found(settings@, env@, said);
    }
    assert(spec_finding(r) == spec_discovery_of(settings@, env@, said));
    r
}

/// What a resolution says, over plain sequences.
pub open spec fn spec_resolution(resolution: Result<Invocation, BuildError>) -> Result<
    InvocationView,
    BuildErrorView,
> {
    match resolution {
        Ok(run) => Ok(run@),
        Err(error) => Err(error@),
    }
}

/// The run of make, given the outcome of discovery: the error that ended discovery, else the
/// first thing that planning misses, else the run that the plan calls for.
pub open spec fn spec_unix_resolution(
    s: SettingsView,
    env: Seq<(Seq<char>, Seq<char>)>,
    found: Result<DiscoveryView, BuildErrorView>,
) -> Result<InvocationView, BuildErrorView> {
    match found {
        Err(error) => Err(error),
        Ok(d) => match spec_plan(s, env, d) {
            Ok(plan) => Ok(spec_unix_invocation(s, plan)),
            Err(error) => Err(error),
        },
    }
}

/// The run of make, given the outcome of discovery.
pub fn unix_resolution(
    settings: &Settings,
    env: &Environment,
    found: Result<Discovery, BuildError>,
) -> (r: Result<Invocation, BuildError>)
    ensures
        spec_resolution(r) == spec_unix_resolution(settings@, env@, spec_finding(found)),
{
    match found {
        Err(error) => Err(error),
        Ok(d) => match plan_unix(settings, env, &d) {
            Ok(plan) => Ok(unix_invocation(settings, plan)),
            Err(error) => Err(error),
        },
    }
}

/// What holds of the resolution of a build, whatever the machine has: it is what
/// [`spec_msvc_invocation`] gives for some answer of the machine, where the target is built
/// with the MSVC tools, and else what [`spec_unix_resolution`] gives for what
/// [`spec_discovery_of`] makes of some answers that [`spec_admitted`] admits.
pub open spec fn spec_resolved(
    s: SettingsView,
    env: Seq<(Seq<char>, Seq<char>)>,
    r: Result<InvocationView, BuildErrorView>,
) -> bool {
    if spec_uses_msvc(s.target) {
        exists|answer: Option<Seq<NativeVar>>| r == #[trigger] spec_msvc_invocation(s, answer)
    } else {
        exists|a: AnswersView|
            spec_admitted(s, env, a) && r == spec_unix_resolution(
                s,
                env,
                #[trigger] spec_discovery_of(s, env, a),
            )
    }
}

/// Resolves the run of the external build: looks at the machine, then plans.
pub fn resolve(settings: &Settings, env: &Environment) -> (r: Result<Invocation, BuildError>)
    ensures
        spec_resolved(settings@, env@, spec_resolution(r)),
{
    if uses_msvc(settings.target.as_str()) {
        msvc_invocation(settings, msvc_tool_vars(settings.target.as_str(), "cl.exe"))
    } else {
        let found = discover(settings, env);
        let ghost outcome = spec_finding(found);
        let r = unix_resolution(settings, env, found);
        assert(spec_resolution(r) == spec_unix_resolution(settings@, env@, outcome));
        r
    }
}

} // verus!
