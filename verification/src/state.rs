//! The data the engine works on: filesystem observations handed in by the
//! caller, the classification of a target path, and the structured error
//! kinds that the presentation layer renders.

use vstd::prelude::*;

verus! {

/// What kind of object occupies a target path that is not a symlink.
#[derive(Clone, Copy, PartialEq, Eq, Structural, Debug)]
pub enum OccupantKind {
    File,
    Directory,
    Unknown,
}

/// The classification of a target path relative to its declared source.
/// Any inspection of a target yields exactly one of these five states.
#[derive(Clone, Copy, PartialEq, Eq, Structural, Debug)]
pub enum LinkState {
    /// Nothing exists at the target path.
    Absent,
    /// The target is a symlink whose destination exists and matches the
    /// source under the size-only equivalence.
    LinkedCorrectly,
    /// The target is a symlink whose destination exists but differs from
    /// the source in size.
    LinkedMismatched,
    /// The target is a symlink whose destination does not exist.
    BrokenLink,
    /// The target exists and is not a symlink.
    OccupiedByOther { occupant: OccupantKind },
}

/// What a metadata query at one path reported, without following symlinks
/// (lstat semantics). The caller performs the query and hands the result in.
#[derive(Debug)]
pub enum PathObservation {
    /// Nothing exists at the path.
    Missing,
    /// A symlink, together with the destination path it stores.
    SymlinkTo { dest: String },
    /// A regular file.
    RegularFile,
    /// A directory.
    Directory,
    /// Something else (socket, device, ...).
    OtherKind,
    /// The query failed for a reason other than "path does not exist"
    /// (permission denied, I/O error); carries the OS error text.
    ReadError { message: String },
}

/// What a metadata query that follows symlinks reported for a symlink's
/// stored destination.
#[derive(Debug)]
pub enum StatResult {
    /// The destination does not exist.
    Missing,
    /// The destination exists; `size` is its length in bytes.
    Present { size: u64 },
    /// The query failed for another reason; carries the OS error text.
    Error { message: String },
}

/// The two mutating operations the engine validates for.
#[derive(Clone, Copy, PartialEq, Eq, Structural, Debug)]
pub enum Mode {
    Enable,
    Disable,
}

/// The outcome of validating a single entry, independent of presentation.
#[derive(Clone, Copy, PartialEq, Eq, Structural, Debug)]
pub enum Verdict {
    /// The entry is safe to mutate.
    Pass,
    /// The target is occupied by a non-symlink, which `Disable` tolerates.
    Tolerated { occupant: OccupantKind },
    /// The declared source does not exist on disk.
    RejectSourceMissing,
    /// The target is occupied by a non-symlink, fatal under `Enable`.
    RejectOccupied { occupant: OccupantKind },
    /// The target's metadata could not be read.
    RejectUnreadable,
}

impl Verdict {
    /// A rejecting verdict aborts the whole batch before any mutation.
    pub open spec fn is_reject(self) -> bool {
        match self {
            Verdict::Pass => false,
            Verdict::Tolerated { .. } => false,
            Verdict::RejectSourceMissing => true,
            Verdict::RejectOccupied { .. } => true,
            Verdict::RejectUnreadable => true,
        }
    }
}

/// The closed error taxonomy of the engine. Each variant carries structured
/// fields; the presentation layer turns them into text.
#[derive(Debug)]
pub enum EngineError {
    /// A declared source path does not exist at validation time.
    SourceNotFound { name: String, path: String },
    /// The target path exists and is not a symlink.
    TargetOccupied { name: String, path: String, occupant: OccupantKind },
    /// An OS-level failure not anticipated by the other kinds; carries the
    /// raw OS error text.
    Unhandled { detail: String },
}

/// A failure while resolving a declared path string.
#[derive(Debug)]
pub enum ResolveError {
    /// An environment-variable reference named an unset variable.
    UnboundVariable { var: String },
}

} // verus!
