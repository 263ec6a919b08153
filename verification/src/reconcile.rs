//! Pre-flight validation and mutation planning.
//!
//! Mutating operations follow a two-pass protocol: every selected entry is
//! validated before any entry is mutated. A plan — the ordered list of
//! mutations to perform — exists only when the whole batch validated, so a
//! single bad entry keeps every entry of the batch untouched. Failures
//! during the mutation pass itself abort the remaining entries but do not
//! undo completed ones; that part is the caller's loop over the plan.

use vstd::prelude::*;
use crate::state::{EngineError, Mode, OccupantKind, PathObservation, Verdict};

verus! {

/// What occupies a target path that is neither absent nor a symlink.
pub open spec fn spec_occupant(target: PathObservation) -> OccupantKind {
    match target {
        PathObservation::RegularFile => OccupantKind::File,
        PathObservation::Directory => OccupantKind::Directory,
        _ => OccupantKind::Unknown,
    }
}

/// The verdict on one entry: the source must exist; a target that is
/// absent or already a symlink passes (re-enabling a stale link is
/// allowed); an occupied target is fatal for `Enable` but tolerated for
/// `Disable`; an unreadable target is always fatal.
pub open spec fn spec_verdict(mode: Mode, source_exists: bool, target: PathObservation) -> Verdict {
    if !source_exists {
        Verdict::RejectSourceMissing
    } else {
        match target {
            PathObservation::Missing => Verdict::Pass,
            PathObservation::SymlinkTo { .. } => Verdict::Pass,
            PathObservation::ReadError { .. } => Verdict::RejectUnreadable,
            _ => match mode {
                Mode::Enable => Verdict::RejectOccupied { occupant: spec_occupant(target) },
                Mode::Disable => Verdict::Tolerated { occupant: spec_occupant(target) },
            },
        }
    }
}

/// One entry as observed before mutation: resolved paths, whether the
/// resolved source exists, and the lstat of the resolved target.
pub struct EntryObservation {
    pub name: String,
    /// The resolved source path.
    pub source: String,
    /// The resolved target path.
    pub target: String,
    /// Whether anything exists at the resolved source.
    pub source_exists: bool,
    /// What occupies the resolved target, if anything.
    pub target_state: PathObservation,
}

/// The verdict on one observed entry.
pub open spec fn spec_entry_verdict(mode: Mode, e: EntryObservation) -> Verdict {
    spec_verdict(mode, e.source_exists, e.target_state)
}

/// Decides the verdict on one entry.
pub fn validate_entry(mode: Mode, source_exists: bool, target: &PathObservation) -> (v: Verdict)
    ensures
        v == spec_verdict(mode, source_exists, *target),
{
    if !source_exists {
        return Verdict::RejectSourceMissing;
    }
    match target {
        PathObservation::Missing => Verdict::Pass,
        PathObservation::SymlinkTo { .. } => Verdict::Pass,
        PathObservation::ReadError { .. } => Verdict::RejectUnreadable,
        PathObservation::RegularFile => match mode {
            Mode::Enable => Verdict::RejectOccupied { occupant: OccupantKind::File },
            Mode::Disable => Verdict::Tolerated { occupant: OccupantKind::File },
        },
        PathObservation::Directory => match mode {
            Mode::Enable => Verdict::RejectOccupied { occupant: OccupantKind::Directory },
            Mode::Disable => Verdict::Tolerated { occupant: OccupantKind::Directory },
        },
        PathObservation::OtherKind => match mode {
            Mode::Enable => Verdict::RejectOccupied { occupant: OccupantKind::Unknown },
            Mode::Disable => Verdict::Tolerated { occupant: OccupantKind::Unknown },
        },
    }
}

/// How a batch failure relates to the entry it arose from.
pub open spec fn batch_error_matches(e: EngineError, entry: EntryObservation, mode: Mode) -> bool {
    match spec_entry_verdict(mode, entry) {
        Verdict::RejectSourceMissing => e matches EngineError::SourceNotFound { name, path }
            && name@ == entry.name@ && path@ == entry.source@,
        Verdict::RejectOccupied { occupant } => e matches EngineError::TargetOccupied {
            name,
            path,
            occupant: o,
        } && name@ == entry.name@ && path@ == entry.target@ && o == occupant,
        Verdict::RejectUnreadable => e matches EngineError::Unhandled { detail }
            && entry.target_state matches PathObservation::ReadError { message } && detail@
            == message@,
        _ => false,
    }
}

/// Every entry of the batch passed validation under `mode`.
pub open spec fn batch_passes(mode: Mode, entries: Seq<EntryObservation>) -> bool {
    forall|i: int|
        0 <= i < entries.len() ==> !(#[trigger] spec_entry_verdict(mode, entries[i])).is_reject()
}

/// The batch failure is the first rejecting entry's, and every entry
/// before it passed.
pub open spec fn batch_error_is_first(
    e: EngineError,
    mode: Mode,
    entries: Seq<EntryObservation>,
) -> bool {
    exists|i: int|
        0 <= i < entries.len() && (#[trigger] spec_entry_verdict(mode, entries[i])).is_reject()
            && (forall|j: int|
            0 <= j < i ==> !(#[trigger] spec_entry_verdict(mode, entries[j])).is_reject())
            && batch_error_matches(e, entries[i], mode)
}

/// What the `enable` pass does for one entry: create the link, or report
/// an existing symlink as already linked instead of erroring.
#[derive(Clone, Copy, PartialEq, Eq, Structural, Debug)]
pub enum PlannedLink {
    /// Create a symlink at `target` pointing at `source`.
    Create,
    /// The target is a symlink already; report, do not touch.
    AlreadyLinked,
}

/// The action `enable` takes on a target in the given state.
pub open spec fn spec_enable_action(target: PathObservation) -> PlannedLink {
    match target {
        PathObservation::SymlinkTo { .. } => PlannedLink::AlreadyLinked,
        _ => PlannedLink::Create,
    }
}

/// One step of an `enable` plan.
#[derive(Debug)]
pub struct EnableItem {
    pub name: String,
    pub source: String,
    pub target: String,
    pub action: PlannedLink,
}

/// The plan step for one validated entry.
pub open spec fn enable_item_matches(item: EnableItem, entry: EntryObservation) -> bool {
    item.name@ == entry.name@ && item.source@ == entry.source@ && item.target@ == entry.target@
        && item.action == spec_enable_action(entry.target_state)
}

/// Validates the whole batch for `enable` and, only when every entry
/// passed, returns the mutations to perform, one per entry in the given
/// order. On the first rejecting entry the batch fails with that entry's
/// error and no plan: nothing is mutated for any entry.
pub fn plan_enable(entries: &Vec<EntryObservation>) -> (r: Result<Vec<EnableItem>, EngineError>)
    ensures
        r is Ok <==> batch_passes(Mode::Enable, entries@),
        r matches Ok(plan) ==> plan@.len() == entries@.len() && (forall|i: int|
            0 <= i < entries@.len() ==> enable_item_matches(#[trigger] plan@[i], entries@[i])),
        r matches Err(e) ==> batch_error_is_first(e, Mode::Enable, entries@),
{
    let n = entries.len();
    let mut plan: Vec<EnableItem> = Vec::new();
    let mut i: usize = 0;
    while i < n
        invariant
            i <= n,
            n == entries@.len(),
            plan@.len() == i,
            forall|k: int|
                0 <= k < i ==> !(#[trigger] spec_entry_verdict(
                    Mode::Enable,
                    entries@[k],
                )).is_reject(),
            forall|k: int| 0 <= k < i ==> enable_item_matches(#[trigger] plan@[k], entries@[k]),
        decreases n - i,
    {
        let ghost idx = i as int;
        let e = &entries[i];
        if !e.source_exists {
            let err = EngineError::SourceNotFound { name: e.name.clone(), path: e.source.clone() };
            proof {
                assert((#[trigger] spec_entry_verdict(Mode::Enable, entries@[idx])).is_reject());
                assert(batch_error_matches(err, entries@[idx], Mode::Enable));
            }
            return Err(err);
        }
        match &e.target_state {
            PathObservation::Missing => {
                plan.push(
                    EnableItem {
                        name: e.name.clone(),
                        source: e.source.clone(),
                        target: e.target.clone(),
                        action: PlannedLink::Create,
                    },
                );
            },
            PathObservation::SymlinkTo { .. } => {
                plan.push(
                    EnableItem {
                        name: e.name.clone(),
                        source: e.source.clone(),
                        target: e.target.clone(),
                        action: PlannedLink::AlreadyLinked,
                    },
                );
            },
            PathObservation::RegularFile => {
                let err = EngineError::TargetOccupied {
                    name: e.name.clone(),
                    path: e.target.clone(),
                    occupant: OccupantKind::File,
                };
                proof {
                    assert((#[trigger] spec_entry_verdict(
                        Mode::Enable,
                        entries@[idx],
                    )).is_reject());
                    assert(batch_error_matches(err, entries@[idx], Mode::Enable));
                }
                return Err(err);
            },
            PathObservation::Directory => {
                let err = EngineError::TargetOccupied {
                    name: e.name.clone(),
                    path: e.target.clone(),
                    occupant: OccupantKind::Directory,
                };
                proof {
                    assert((#[trigger] spec_entry_verdict(
                        Mode::Enable,
                        entries@[idx],
                    )).is_reject());
                    assert(batch_error_matches(err, entries@[idx], Mode::Enable));
                }
                return Err(err);
            },
            PathObservation::OtherKind => {
                let err = EngineError::TargetOccupied {
                    name: e.name.clone(),
                    path: e.target.clone(),
                    occupant: OccupantKind::Unknown,
                };
                proof {
                    assert((#[trigger] spec_entry_verdict(
                        Mode::Enable,
                        entries@[idx],
                    )).is_reject());
                    assert(batch_error_matches(err, entries@[idx], Mode::Enable));
                }
                return Err(err);
            },
            PathObservation::ReadError { message } => {
                let err = EngineError::Unhandled { detail: message.clone() };
                proof {
                    assert((#[trigger] spec_entry_verdict(
                        Mode::Enable,
                        entries@[idx],
                    )).is_reject());
                    assert(batch_error_matches(err, entries@[idx], Mode::Enable));
                }
                return Err(err);
            },
        }
        i = i + 1;
    }
    Ok(plan)
}

/// One step of a `disable` plan: the file at `target` is removed. Removal
/// is unconditional once the entry is selected; a tolerated occupied
/// target is still removed, and its verdict is kept for reporting.
#[derive(Debug)]
pub struct RemovalItem {
    pub name: String,
    pub target: String,
    pub verdict: Verdict,
}

/// The plan step for one validated entry.
pub open spec fn removal_item_matches(item: RemovalItem, entry: EntryObservation) -> bool {
    item.name@ == entry.name@ && item.target@ == entry.target@ && item.verdict
        == spec_entry_verdict(Mode::Disable, entry)
}

/// Validates the whole batch for `disable` and, only when every entry
/// passed, returns the removals to perform, one per entry in the given
/// order. An occupied target is tolerated — noted on the step, not fatal.
/// On the first rejecting entry the batch fails with that entry's error
/// and no plan: nothing is removed for any entry.
pub fn plan_disable(entries: &Vec<EntryObservation>) -> (r: Result<Vec<RemovalItem>, EngineError>)
    ensures
        r is Ok <==> batch_passes(Mode::Disable, entries@),
        r matches Ok(plan) ==> plan@.len() == entries@.len() && (forall|i: int|
            0 <= i < entries@.len() ==> removal_item_matches(#[trigger] plan@[i], entries@[i])),
        r matches Err(e) ==> batch_error_is_first(e, Mode::Disable, entries@),
{
    let n = entries.len();
    let mut plan: Vec<RemovalItem> = Vec::new();
    let mut i: usize = 0;
    while i < n
        invariant
            i <= n,
            n == entries@.len(),
            plan@.len() == i,
            forall|k: int|
                0 <= k < i ==> !(#[trigger] spec_entry_verdict(
                    Mode::Disable,
                    entries@[k],
                )).is_reject(),
            forall|k: int| 0 <= k < i ==> removal_item_matches(#[trigger] plan@[k], entries@[k]),
        decreases n - i,
    {
        let ghost idx = i as int;
        let e = &entries[i];
        if !e.source_exists {
            let err = EngineError::SourceNotFound { name: e.name.clone(), path: e.source.clone() };
            proof {
                assert((#[trigger] spec_entry_verdict(Mode::Disable, entries@[idx])).is_reject());
                assert(batch_error_matches(err, entries@[idx], Mode::Disable));
            }
            return Err(err);
        }
        let verdict = validate_entry(Mode::Disable, true, &e.target_state);
        match &e.target_state {
            PathObservation::ReadError { message } => {
                let err = EngineError::Unhandled { detail: message.clone() };
                proof {
                    assert((#[trigger] spec_entry_verdict(
                        Mode::Disable,
                        entries@[idx],
                    )).is_reject());
                    assert(batch_error_matches(err, entries@[idx], Mode::Disable));
                }
                return Err(err);
            },
            _ => {
                plan.push(
                    RemovalItem { name: e.name.clone(), target: e.target.clone(), verdict },
                );
            },
        }
        i = i + 1;
    }
    Ok(plan)
}

/// A single entry whose declared source does not exist blocks the whole
/// batch, under either mode: its verdict rejects, so no plan is produced
/// and no entry of the batch — that one or any other — is mutated.
pub proof fn lemma_fail_fast_on_bad_source(mode: Mode, entries: Seq<EntryObservation>, i: int)
    requires
        0 <= i < entries.len(),
        !entries[i].source_exists,
    ensures
        spec_entry_verdict(mode, entries[i]).is_reject(),
        !batch_passes(mode, entries),
{
    assert((#[trigger] spec_entry_verdict(mode, entries[i])).is_reject());
}

/// The tolerance asymmetry on an occupied target: with the source
/// present, a target occupied by a non-symlink rejects `enable` but is
/// merely tolerated by `disable`, with the same occupant kind reported
/// either way.
pub proof fn lemma_occupied_tolerance_asymmetry(target: PathObservation)
    requires
        target matches PathObservation::RegularFile || target matches PathObservation::Directory
            || target matches PathObservation::OtherKind,
    ensures
        spec_verdict(Mode::Enable, true, target) == (Verdict::RejectOccupied {
            occupant: spec_occupant(target),
        }),
        spec_verdict(Mode::Disable, true, target) == (Verdict::Tolerated {
            occupant: spec_occupant(target),
        }),
        spec_verdict(Mode::Enable, true, target).is_reject(),
        !spec_verdict(Mode::Disable, true, target).is_reject(),
{
}

} // verus!
