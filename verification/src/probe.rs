//! The questions that this library asks the machine it runs on.
//!
//! Each function here hands one question to code outside this library and brings the answer
//! back as plain values. Nothing is proved of these functions: what they return depends on the
//! machine, and the rest of the library is verified for every answer.

use vstd::prelude::*;
use vstd::string::*;
use crate::environment::{spec_vars, EnvVar};
use crate::ops::NativeVar;
use crate::triple::spec_probe_takes;

verus! {

/// The error of `which`, as that crate declares it.
#[verifier::external_type_specification]
#[verifier::external_body]
pub struct ExSearchError(which::Error);

/// The error of `cc`, as that crate declares it.
#[verifier::external_type_specification]
#[verifier::external_body]
pub struct ExProbeError(cc::Error);

/// What the compiler probe tells of a compiler. A path or a list of flags that is not text
/// comes back as `None`.
#[derive(Debug, Clone, PartialEq, Eq)]
pub struct CompilerProbe {
    pub path: Option<String>,
    pub flags: Option<String>,
    pub like_gnu: bool,
    pub like_clang: bool,
}

/// Asks `which::which` for the executable file that the name or path `name` stands for, on the
/// search path of the process. The crate reports with an error that there is none. Nothing is
/// claimed of the path that comes back.
#[verifier::external_body]
pub(crate) fn search(name: &str) -> (r: Result<Option<String>, which::Error>) {
    match which::which(name) {
        Ok(path) => Ok(path.to_str().map(String::from)),
        Err(error) => Err(error),
    }
}

/// The text that `which::Error` shows for itself.
#[verifier::external_body]
pub(crate) fn search_failure(error: &which::Error) -> (r: String) {
    error.to_string()
}

/// Whether the probe, handed `vars` as its environment, reads the target from the triple
/// `target`: the last of `vars` is a `TARGET` of another value. The probe takes the last value
/// of a variable, and describes the target by Cargo's variables only where `TARGET` is the
/// triple it is asked for.
pub open spec fn spec_reads_triple(vars: Seq<(Seq<char>, Seq<char>)>, target: Seq<char>) -> bool {
    vars.len() > 0 && vars.last().0 == "TARGET"@ && vars.last().1 != target
}

/// Asks `cc::Build::try_get_compiler` for the C compiler that builds for `target` on `host`,
/// with or without its warning flags, in the environment `vars` (`Build::set_envs_snapshot`),
/// and reads the path, the flags and the family from the tool that comes back (`Tool::path`,
/// `Tool::cflags_env`, `Tool::is_like_gnu`, `Tool::is_like_clang`). Nothing is claimed of what
/// comes back.
///
/// The crate panics on a target that it treats as one of Apple, by its vendor `apple` or its
/// environment `macabi`, and whose system it does not know (`TargetInfo::apple_sdk_name`). It
/// takes vendor, system and environment from the triple unless `TARGET` in `vars` is that
/// triple. Both are left out here.
#[verifier::external_body]
pub(crate) fn probe_compiler(target: &str, host: &str, warnings: bool, vars: &Vec<EnvVar>) -> (r:
    Result<CompilerProbe, cc::Error>)
    requires
        spec_probe_takes(target@),
        spec_reads_triple(spec_vars(vars@), target@),
{
    let tool = cc::Build::new()
        .set_envs_snapshot(vars.iter().map(|var| (var.name.as_str(), var.value.as_str())))
        .target(target)
        .host(host)
        .warnings(warnings)
        .try_get_compiler()?;
    Ok(
        CompilerProbe {
            path: tool.path().to_str().map(String::from),
            flags: tool.cflags_env().to_str().map(String::from),
            like_gnu: tool.is_like_gnu(),
            like_clang: tool.is_like_clang(),
        },
    )
}

/// The text that `cc::Error` shows for itself.
#[verifier::external_body]
pub(crate) fn probe_failure(error: &cc::Error) -> (r: String) {
    error.to_string()
}

/// Asks `cc::windows_registry::find_tool` for `tool` in an installation of the MSVC tools that
/// serves `target`, and reads the variables that the tool needs (`Tool::get_envs`), in their
/// order, each as the platform has it. `None` means that no such tool was found.
#[verifier::external_body]
pub(crate) fn msvc_tool_vars(target: &str, tool: &str) -> (r: Option<Vec<NativeVar>>) {
    let found = cc::windows_registry::find_tool(target, tool)?;
    let mut vars = Vec::new();
    for (name, value) in found.get_envs() {
        vars.push(NativeVar { name: name.into(), value: value.into() });
    }
    Some(vars)
}

/// The directory that holds `path`, by `std::path::Path::parent`. `None` where the path has no
/// parent.
#[verifier::external_body]
pub(crate) fn parent_dir(path: &str) -> (r: Option<String>) {
    match std::path::Path::new(path).parent() {
        Some(dir) => dir.to_str().map(String::from),
        None => None,
    }
}

/// The last name of `path`, by `std::path::Path::file_name`. `None` where the path ends in no
/// name, or in one that is not text.
#[verifier::external_body]
pub(crate) fn file_name(path: &str) -> (r: Option<String>) {
    match std::path::Path::new(path).file_name() {
        Some(name) => name.to_str().map(String::from),
        None => None,
    }
}

/// The path of the entry `name` in the directory `dir`, by `std::path::Path::join`. `None`
/// where the path is not text.
#[verifier::external_body]
pub(crate) fn join_path(dir: &str, name: &str) -> (r: Option<String>) {
    std::path::Path::new(dir).join(name).to_str().map(String::from)
}

/// Whether `path` is a file on this machine now, by `std::path::Path::is_file`.
#[verifier::external_body]
pub(crate) fn is_file(path: &str) -> (r: bool) {
    std::path::Path::new(path).is_file()
}

} // verus!
