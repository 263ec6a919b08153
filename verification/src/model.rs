//! A ghost model of the filesystem slice the engine acts on, used to
//! state and prove how the mutations and the classification interact.
//!
//! The model maps a path to the object at it: a regular file with its
//! bytes, a directory, or a symlink storing a destination path. It
//! idealizes what the engine relies on — symlinks are followed one level,
//! and metadata size is a file's byte count and zero for anything else.

use vstd::prelude::*;
use crate::state::{LinkState, OccupantKind, PathObservation, StatResult};
use crate::inspect::spec_link_state;

verus! {

/// One filesystem object in the model.
pub enum FsNode {
    /// A regular file holding these bytes.
    File { content: Seq<u8> },
    /// A directory.
    Dir,
    /// A symlink storing `dest`.
    Symlink { dest: Seq<char> },
}

/// The size metadata reports: a file's byte count; zero for the rest,
/// whose sizes the engine never reads.
pub open spec fn node_size(n: FsNode) -> nat {
    match n {
        FsNode::File { content } => content.len(),
        _ => 0,
    }
}

/// The classification `status` gives `target` against `source` on the
/// model filesystem `fs`, or `None` where the engine would surface an
/// unhandled failure (the link's destination exists but the source cannot
/// be statted).
pub open spec fn model_link_state(
    fs: Map<Seq<char>, FsNode>,
    source: Seq<char>,
    target: Seq<char>,
) -> Option<LinkState> {
    if !fs.dom().contains(target) {
        Some(LinkState::Absent)
    } else {
        match fs[target] {
            FsNode::File { .. } => Some(LinkState::OccupiedByOther { occupant: OccupantKind::File }),
            FsNode::Dir => Some(LinkState::OccupiedByOther { occupant: OccupantKind::Directory }),
            FsNode::Symlink { dest } => {
                if !fs.dom().contains(dest) {
                    Some(LinkState::BrokenLink)
                } else if !fs.dom().contains(source) {
                    None
                } else if node_size(fs[dest]) == node_size(fs[source]) {
                    Some(LinkState::LinkedCorrectly)
                } else {
                    Some(LinkState::LinkedMismatched)
                }
            },
        }
    }
}

/// The mutation `enable` performs for one entry: a symlink appears at
/// `target`, storing the resolved `source`.
pub open spec fn apply_create_link(
    fs: Map<Seq<char>, FsNode>,
    source: Seq<char>,
    target: Seq<char>,
) -> Map<Seq<char>, FsNode> {
    fs.insert(target, FsNode::Symlink { dest: source })
}

/// The mutation `disable` performs for one entry: the object at `target`
/// disappears.
pub open spec fn apply_remove(fs: Map<Seq<char>, FsNode>, target: Seq<char>) -> Map<
    Seq<char>,
    FsNode,
> {
    fs.remove(target)
}

/// Round trip: for an entry whose source is a file on disk and whose
/// target path is free, `enable` leaves a target that `status` classifies
/// `LinkedCorrectly`, and `disable` after it leaves the target `Absent`
/// again.
pub proof fn lemma_enable_disable_round_trip(
    fs: Map<Seq<char>, FsNode>,
    source: Seq<char>,
    target: Seq<char>,
    content: Seq<u8>,
)
    requires
        fs.dom().contains(source),
        fs[source] == (FsNode::File { content }),
        !fs.dom().contains(target),
        source != target,
    ensures
        model_link_state(apply_create_link(fs, source, target), source, target) == Some(
            LinkState::LinkedCorrectly,
        ),
        model_link_state(
            apply_remove(apply_create_link(fs, source, target), target),
            source,
            target,
        ) == Some(LinkState::Absent),
{
    let enabled = apply_create_link(fs, source, target);
    assert(enabled[target] == (FsNode::Symlink { dest: source }));
    assert(enabled[source] == fs[source]);
    assert(!apply_remove(enabled, target).dom().contains(target));
}

/// Weak equivalence, exposed: a target whose link leads to a file of the
/// same byte length as the source is classified `LinkedCorrectly` even
/// when the two files' bytes differ. The comparison is size-only, by
/// design; two different files of identical size are indistinguishable.
pub proof fn lemma_weak_equivalence(
    fs: Map<Seq<char>, FsNode>,
    source: Seq<char>,
    target: Seq<char>,
    dest: Seq<char>,
    dest_content: Seq<u8>,
    source_content: Seq<u8>,
)
    requires
        fs.dom().contains(target),
        fs[target] == (FsNode::Symlink { dest }),
        fs.dom().contains(dest),
        fs[dest] == (FsNode::File { content: dest_content }),
        fs.dom().contains(source),
        fs[source] == (FsNode::File { content: source_content }),
        dest_content.len() == source_content.len(),
        dest_content != source_content,
    ensures
        model_link_state(fs, source, target) == Some(LinkState::LinkedCorrectly),
{
}

/// The same exposure at the observation level: the classifier receives
/// only sizes, so equal sizes yield `LinkedCorrectly` whatever bytes
/// stand behind them.
pub proof fn lemma_size_only_classification(dest_path: String, size: u64)
    ensures
        spec_link_state(
            PathObservation::SymlinkTo { dest: dest_path },
            StatResult::Present { size },
            Result::Ok(size),
        ) == Some(LinkState::LinkedCorrectly),
{
}

} // verus!
