//! Why a build stopped.

use vstd::prelude::*;
use vstd::string::*;
use crate::ops::{FsOp, FsOpView};
use crate::text::{chain, chain3, spec_join};

verus! {

/// A setting that a build cannot do without.
#[derive(Debug, Clone, Copy, PartialEq, Eq, Structural)]
pub enum Setting {
    /// The triple of the platform that is built for.
    Target,
    /// The triple of the platform that builds.
    Host,
    /// The directory that receives the build.
    OutDir,
    /// The width of a pointer on the target, in bits.
    PointerWidth,
}

/// A tool that a build looks for.
#[derive(Debug, Clone, Copy, PartialEq, Eq, Structural)]
pub enum Tool {
    Compiler,
    HostCompiler,
    Archiver,
    Strip,
    MsvcCompiler,
}

/// The four families of failure, and one for a caller that reports out of turn.
#[derive(Debug, Clone, Copy, PartialEq, Eq, Structural)]
pub enum ErrorKind {
    Configuration,
    Filesystem,
    Toolchain,
    Process,
    Protocol,
}

/// Why a build stopped. Nothing is retried: the first error ends the build.
#[derive(Debug, Clone, PartialEq, Eq)]
pub enum BuildError {
    /// A required setting was neither given nor inherited.
    Missing(Setting),
    /// A step on the file system failed; `reason` is what the system said.
    Filesystem { op: FsOp, reason: String },
    /// No compiler could be determined for the target; `reason` is what the probe said.
    CompilerUnknown { reason: String },
    /// A tool was looked for under `name` and not found.
    NotFound { tool: Tool, name: String, reason: String },
    /// The external build could not be started or did not succeed. `command` is the command
    /// line, `reason` tells how it ended.
    Process { command: String, reason: String },
    /// The caller reported something that the build was not waiting for.
    OutOfTurn,
}

/// What a [`BuildError`] says, over plain sequences.
pub enum BuildErrorView {
    Missing(Setting),
    Filesystem { op: FsOpView, reason: Seq<char> },
    CompilerUnknown { reason: Seq<char> },
    NotFound { tool: Tool, name: Seq<char>, reason: Seq<char> },
    Process { command: Seq<char>, reason: Seq<char> },
    OutOfTurn,
}

impl View for BuildError {
    type V = BuildErrorView;

    open spec fn view(&self) -> BuildErrorView {
        match self {
            BuildError::Missing(setting) => BuildErrorView::Missing(*setting),
            BuildError::Filesystem { op, reason } => BuildErrorView::Filesystem {
                op: op@,
                reason: reason@,
            },
            BuildError::CompilerUnknown { reason } => BuildErrorView::CompilerUnknown {
                reason: reason@,
            },
            BuildError::NotFound { tool, name, reason } => BuildErrorView::NotFound {
                tool: *tool,
                name: name@,
                reason: reason@,
            },
            BuildError::Process { command, reason } => BuildErrorView::Process {
                command: command@,
                reason: reason@,
            },
            BuildError::OutOfTurn => BuildErrorView::OutOfTurn,
        }
    }
}

/// The family of an error.
pub open spec fn spec_kind(error: BuildErrorView) -> ErrorKind {
    match error {
        BuildErrorView::Missing(_) => ErrorKind::Configuration,
        BuildErrorView::Filesystem { .. } => ErrorKind::Filesystem,
        BuildErrorView::CompilerUnknown { .. } => ErrorKind::Toolchain,
        BuildErrorView::NotFound { .. } => ErrorKind::Toolchain,
        BuildErrorView::Process { .. } => ErrorKind::Process,
        BuildErrorView::OutOfTurn => ErrorKind::Protocol,
    }
}

/// The variable that carries a setting.
pub open spec fn spec_setting_name(setting: Setting) -> Seq<char> {
    match setting {
        Setting::Target => "TARGET"@,
        Setting::Host => "HOST"@,
        Setting::OutDir => "OUT_DIR"@,
        Setting::PointerWidth => "CARGO_CFG_TARGET_POINTER_WIDTH"@,
    }
}

/// What a failed step was about to do, with the places it concerns.
pub open spec fn spec_op_failure(op: FsOpView) -> Seq<char> {
    match op {
        FsOpView::RemoveDir(at) => "Cannot remove "@ + spec_join(at, "/"@),
        FsOpView::CreateDir(at) => "Cannot create "@ + spec_join(at, "/"@),
        FsOpView::CopyTree { from, to, skip } => "Cannot read directory "@ + spec_join(from, "/"@),
        FsOpView::CopyFile { from, to } => "Cannot copy "@ + spec_join(from, "/"@) + " to "@
            + spec_join(to, "/"@),
        FsOpView::ReplaceFile { from, to } => "Cannot copy "@ + spec_join(from, "/"@) + " to "@
            + spec_join(to, "/"@),
        FsOpView::CopyIfPresent { from, to } => "Cannot copy "@ + spec_join(from, "/"@) + " to "@
            + spec_join(to, "/"@),
        FsOpView::MakeWritable(at) => "Cannot set permissions for "@ + spec_join(at, "/"@),
    }
}

/// The description of an error for a reader.
pub open spec fn spec_message(error: BuildErrorView) -> Seq<char> {
    match error {
        BuildErrorView::Missing(setting) => spec_setting_name(setting) + " is not set"@,
        BuildErrorView::Filesystem { op, reason } => spec_op_failure(op) + ": "@ + reason,
        BuildErrorView::CompilerUnknown { reason } => "Cannot determine the compiler: "@ + reason,
        BuildErrorView::NotFound { tool, name, reason } => "Cannot find "@ + name + ": "@ + reason,
        BuildErrorView::Process { command, reason } => "Error running '"@ + command + "': "@
            + reason,
        BuildErrorView::OutOfTurn => "The build was not waiting for this report"@,
    }
}

impl Setting {
    /// The variable that carries this setting.
    pub fn name(&self) -> (r: &'static str)
        ensures
            r@ == spec_setting_name(*self),
    {
        match self {
            Setting::Target => "TARGET",
            Setting::Host => "HOST",
            Setting::OutDir => "OUT_DIR",
            Setting::PointerWidth => "CARGO_CFG_TARGET_POINTER_WIDTH",
        }
    }
}

/// What the failed step `op` was about to do, with the places it concerns.
pub fn op_failure(op: &FsOp) -> (r: String)
    ensures
        r@ == spec_op_failure(op@),
{
    match op {
        FsOp::RemoveDir(at) => chain("Cannot remove ", at.display().as_str()),
        FsOp::CreateDir(at) => chain("Cannot create ", at.display().as_str()),
        FsOp::CopyTree { from, to, skip } => chain(
            "Cannot read directory ",
            from.display().as_str(),
        ),
        FsOp::CopyFile { from, to } => {
            let head = chain3("Cannot copy ", from.display().as_str(), " to ");
            chain(head.as_str(), to.display().as_str())
        },
        FsOp::ReplaceFile { from, to } => {
            let head = chain3("Cannot copy ", from.display().as_str(), " to ");
            chain(head.as_str(), to.display().as_str())
        },
        FsOp::CopyIfPresent { from, to } => {
            let head = chain3("Cannot copy ", from.display().as_str(), " to ");
            chain(head.as_str(), to.display().as_str())
        },
        FsOp::MakeWritable(at) => chain("Cannot set permissions for ", at.display().as_str()),
    }
}

impl BuildError {
    /// The family of this error.
    pub fn kind(&self) -> (r: ErrorKind)
        ensures
            r == spec_kind(self@),
    {
        match self {
            BuildError::Missing(_) => ErrorKind::Configuration,
            BuildError::Filesystem { .. } => ErrorKind::Filesystem,
            BuildError::CompilerUnknown { .. } => ErrorKind::Toolchain,
            BuildError::NotFound { .. } => ErrorKind::Toolchain,
            BuildError::Process { .. } => ErrorKind::Process,
            BuildError::OutOfTurn => ErrorKind::Protocol,
        }
    }

    /// The description of this error for a reader. It names the setting that is missing, the
    /// places of the step that failed, the tool that was not found, or the command line and how
    /// the process ended.
    pub fn message(&self) -> (r: String)
        ensures
            r@ == spec_message(self@),
    {
        match self {
            BuildError::Missing(setting) => chain(setting.name(), " is not set"),
            BuildError::Filesystem { op, reason } => chain3(
                op_failure(op).as_str(),
                ": ",
                reason.as_str(),
            ),
            BuildError::CompilerUnknown { reason } => chain(
                "Cannot determine the compiler: ",
                reason.as_str(),
            ),
            BuildError::NotFound { tool, name, reason } => {
                let head = chain3("Cannot find ", name.as_str(), ": ");
                chain(head.as_str(), reason.as_str())
            },
            BuildError::Process { command, reason } => {
                let head = chain3("Error running '", command.as_str(), "': ");
                chain(head.as_str(), reason.as_str())
            },
            BuildError::OutOfTurn => "The build was not waiting for this report".to_owned(),
        }
    }
}

} // verus!
