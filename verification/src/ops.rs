//! What a build asks its caller to do: steps on the file system and one process to run.
//!
//! These are plain descriptions. The library decides which steps are due and in what order; the
//! caller performs them and reports back.

use vstd::prelude::*;
use vstd::string::*;
use crate::environment::{spec_vars, EnvVar};
use crate::location::Location;
use crate::text::spec_texts;

verus! {

/// One step on the file system.
#[derive(Debug, Clone, PartialEq, Eq)]
pub enum FsOp {
    /// Remove the directory and all below it, if it exists.
    RemoveDir(Location),
    /// Create the directory, and the directories above it that are missing.
    CreateDir(Location),
    /// Copy what the directory `from` holds into the directory `to`, leaving out every entry
    /// named `skip`, whatever its depth. [`crate::stage::entry_action`] tells what to do with
    /// each entry.
    CopyTree { from: Location, to: Location, skip: String },
    /// Copy the file `from` to `to`, replacing what is there.
    CopyFile { from: Location, to: Location },
    /// Remove `to` if that is possible, then copy the file `from` to it.
    ReplaceFile { from: Location, to: Location },
    /// Copy the file `from` to `to` if `from` exists; do nothing if it does not.
    CopyIfPresent { from: Location, to: Location },
    /// Clear the read-only mark of the file.
    MakeWritable(Location),
}

/// What an [`FsOp`] says, over plain sequences.
pub enum FsOpView {
    RemoveDir(Seq<Seq<char>>),
    CreateDir(Seq<Seq<char>>),
    CopyTree { from: Seq<Seq<char>>, to: Seq<Seq<char>>, skip: Seq<char> },
    CopyFile { from: Seq<Seq<char>>, to: Seq<Seq<char>> },
    ReplaceFile { from: Seq<Seq<char>>, to: Seq<Seq<char>> },
    CopyIfPresent { from: Seq<Seq<char>>, to: Seq<Seq<char>> },
    MakeWritable(Seq<Seq<char>>),
}

impl View for FsOp {
    type V = FsOpView;

    open spec fn view(&self) -> FsOpView {
        match self {
            FsOp::RemoveDir(at) => FsOpView::RemoveDir(at@),
            FsOp::CreateDir(at) => FsOpView::CreateDir(at@),
            FsOp::CopyTree { from, to, skip } => FsOpView::CopyTree {
                from: from@,
                to: to@,
                skip: skip@,
            },
            FsOp::CopyFile { from, to } => FsOpView::CopyFile { from: from@, to: to@ },
            FsOp::ReplaceFile { from, to } => FsOpView::ReplaceFile { from: from@, to: to@ },
            FsOp::CopyIfPresent { from, to } => FsOpView::CopyIfPresent { from: from@, to: to@ },
            FsOp::MakeWritable(at) => FsOpView::MakeWritable(at@),
        }
    }
}

/// Each step of `ops`, over plain sequences.
pub open spec fn spec_ops(ops: Seq<FsOp>) -> Seq<FsOpView> {
    Seq::new(ops.len(), |i: int| ops[i]@)
}

/// Pushing a step onto a list pushes its view onto the list's views.
pub proof fn lemma_ops_push(ops: Seq<FsOp>, last: FsOp)
    ensures
        spec_ops(ops.push(last)) == spec_ops(ops).push(last@),
{
    assert(spec_ops(ops.push(last)) =~= spec_ops(ops).push(last@));
}

impl FsOp {
    /// A copy of this step.
    pub fn duplicate(&self) -> (r: FsOp)
        ensures
            r@ == self@,
    {
        match self {
            FsOp::RemoveDir(at) => FsOp::RemoveDir(at.duplicate()),
            FsOp::CreateDir(at) => FsOp::CreateDir(at.duplicate()),
            FsOp::CopyTree { from, to, skip } => FsOp::CopyTree {
                from: from.duplicate(),
                to: to.duplicate(),
                skip: skip.clone(),
            },
            FsOp::CopyFile { from, to } => FsOp::CopyFile {
                from: from.duplicate(),
                to: to.duplicate(),
            },
            FsOp::ReplaceFile { from, to } => FsOp::ReplaceFile {
                from: from.duplicate(),
                to: to.duplicate(),
            },
            FsOp::CopyIfPresent { from, to } => FsOp::CopyIfPresent {
                from: from.duplicate(),
                to: to.duplicate(),
            },
            FsOp::MakeWritable(at) => FsOp::MakeWritable(at.duplicate()),
        }
    }
}

/// The program of an [`Invocation`].
#[derive(Debug, Clone, PartialEq, Eq)]
pub enum Program {
    /// A command that the system finds on its search path.
    Named(String),
    /// A file at a known place.
    At(Location),
}

/// What a [`Program`] says, over plain sequences.
pub enum ProgramView {
    Named(Seq<char>),
    At(Seq<Seq<char>>),
}

impl View for Program {
    type V = ProgramView;

    open spec fn view(&self) -> ProgramView {
        match self {
            Program::Named(name) => ProgramView::Named(name@),
            Program::At(at) => ProgramView::At(at@),
        }
    }
}

/// The path type of the standard library, which holds text as the platform has it.
#[verifier::external_type_specification]
#[verifier::external_body]
pub struct ExNative(std::path::PathBuf);

/// `Clone` for the path type of the standard library. Nothing is claimed of the copy.
pub assume_specification[ <std::path::PathBuf as Clone>::clone ](path: &std::path::PathBuf) -> (r:
    std::path::PathBuf);

/// A variable that an outside tool hands over, kept as the platform has it: its name and its
/// value are carried through unread, so that nothing of them is lost where they are not valid
/// Unicode.
#[derive(Debug, Clone, PartialEq, Eq)]
pub struct NativeVar {
    pub name: std::path::PathBuf,
    pub value: std::path::PathBuf,
}

/// One process to run: the program, its arguments, the directory it runs in, and the variables
/// set for it on top of those it inherits: first those of `native_env`, then those of `env`.
#[derive(Debug, Clone, PartialEq, Eq)]
pub struct Invocation {
    pub program: Program,
    pub args: Vec<String>,
    pub dir: Location,
    pub env: Vec<EnvVar>,
    pub native_env: Vec<NativeVar>,
}

/// What an [`Invocation`] says, over plain sequences.
pub struct InvocationView {
    pub program: ProgramView,
    pub args: Seq<Seq<char>>,
    pub dir: Seq<Seq<char>>,
    pub env: Seq<(Seq<char>, Seq<char>)>,
    pub native_env: Seq<NativeVar>,
}

impl View for Invocation {
    type V = InvocationView;

    open spec fn view(&self) -> InvocationView {
        InvocationView {
            program: self.program@,
            args: spec_texts(self.args@),
            dir: self.dir@,
            env: spec_vars(self.env@),
            native_env: self.native_env@,
        }
    }
}

} // verus!
