//! Building a vendored LuaJIT, with every change to the machine left to the caller.
//!
//! The library holds the decisions of the build: which settings are required, which steps
//! stage the sources, which tools and variables the external build gets, and what is collected
//! afterwards. It looks at the machine only to discover tools: it probes for compilers in the
//! environment that the caller hands in, and looks for files beside the compiler and on the
//! search path of the process. Every change to the file system and the run of the external
//! build are left to the caller, who is told what is due by a [`Session`] and reports back to
//! it.

pub mod text;
pub mod location;
pub mod environment;
pub mod ops;
pub mod error;
pub mod config;
pub mod triple;
pub mod toolchain;
pub mod stage;
pub mod artifacts;
pub mod probe;
pub mod discover;
pub mod session;
pub mod builder;
pub mod disk;
pub mod laws;

pub use artifacts::Artifacts;
pub use builder::{Ambient, Build};
pub use environment::{EnvVar, Environment};
pub use error::{BuildError, ErrorKind};
pub use location::Location;
pub use ops::{FsOp, Invocation, NativeVar, Program};
pub use session::{Action, Event, Phase, Progress, Session};
