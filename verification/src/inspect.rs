//! Classifying a target path's on-disk state relative to its source.
//!
//! The caller queries the filesystem (lstat of the target, a followed stat
//! of the symlink's destination, a stat of the resolved source) and hands
//! the observations in; classification itself is a pure decision.

use vstd::prelude::*;
use crate::state::{EngineError, LinkState, OccupantKind, PathObservation, StatResult};

verus! {

/// The classification the observations call for, or `None` where a query
/// failed for a reason other than "path does not exist" and the failure
/// must surface as an unhandled error.
///
/// Matching destination against source compares sizes only. This weak
/// equivalence is deliberate: two files of identical size are
/// indistinguishable here, and strengthening the comparison would change
/// observable behaviour for existing configurations.
pub open spec fn spec_link_state(
    target: PathObservation,
    dest: StatResult,
    source: Result<u64, String>,
) -> Option<LinkState> {
    match target {
        PathObservation::Missing => Some(LinkState::Absent),
        PathObservation::RegularFile => Some(
            LinkState::OccupiedByOther { occupant: OccupantKind::File },
        ),
        PathObservation::Directory => Some(
            LinkState::OccupiedByOther { occupant: OccupantKind::Directory },
        ),
        PathObservation::OtherKind => Some(
            LinkState::OccupiedByOther { occupant: OccupantKind::Unknown },
        ),
        PathObservation::ReadError { .. } => None,
        PathObservation::SymlinkTo { .. } => match dest {
            StatResult::Missing => Some(LinkState::BrokenLink),
            StatResult::Error { .. } => None,
            StatResult::Present { size: dest_size } => match source {
                Result::Ok(source_size) => Some(
                    if dest_size == source_size {
                        LinkState::LinkedCorrectly
                    } else {
                        LinkState::LinkedMismatched
                    },
                ),
                Result::Err(_) => None,
            },
        },
    }
}

/// The OS error text surfaced when `spec_link_state` is `None`.
pub open spec fn spec_unhandled_detail(
    target: PathObservation,
    dest: StatResult,
    source: Result<u64, String>,
) -> Seq<char> {
    match target {
        PathObservation::ReadError { message } => message@,
        PathObservation::SymlinkTo { .. } => match dest {
            StatResult::Error { message } => message@,
            StatResult::Present { .. } => match source {
                Result::Err(message) => message@,
                _ => Seq::<char>::empty(),
            },
            _ => Seq::<char>::empty(),
        },
        _ => Seq::<char>::empty(),
    }
}

/// How an inspection result relates to the observations it came from:
/// the classification where one is defined, otherwise an unhandled error
/// carrying the failing query's OS error text.
pub open spec fn inspect_result_matches(
    target: PathObservation,
    dest: StatResult,
    source: Result<u64, String>,
    r: Result<LinkState, EngineError>,
) -> bool {
    match spec_link_state(target, dest, source) {
        Some(st) => r matches Ok(got) && got == st,
        None => r matches Err(e) && e matches EngineError::Unhandled { detail } && detail@
            == spec_unhandled_detail(target, dest, source),
    }
}

/// Classifies one entry's target from read-only observations.
pub fn inspect(
    target: &PathObservation,
    dest: &StatResult,
    source: &Result<u64, String>,
) -> (r: Result<LinkState, EngineError>)
    ensures
        inspect_result_matches(*target, *dest, *source, r),
{
    match target {
        PathObservation::Missing => Ok(LinkState::Absent),
        PathObservation::RegularFile => Ok(
            LinkState::OccupiedByOther { occupant: OccupantKind::File },
        ),
        PathObservation::Directory => Ok(
            LinkState::OccupiedByOther { occupant: OccupantKind::Directory },
        ),
        PathObservation::OtherKind => Ok(
            LinkState::OccupiedByOther { occupant: OccupantKind::Unknown },
        ),
        PathObservation::ReadError { message } => Err(
            EngineError::Unhandled { detail: message.clone() },
        ),
        PathObservation::SymlinkTo { .. } => match dest {
            StatResult::Missing => Ok(LinkState::BrokenLink),
            StatResult::Error { message } => Err(
                EngineError::Unhandled { detail: message.clone() },
            ),
            StatResult::Present { size: dest_size } => match source {
                Result::Ok(source_size) => Ok(
                    if *dest_size == *source_size {
                        LinkState::LinkedCorrectly
                    } else {
                        LinkState::LinkedMismatched
                    },
                ),
                Result::Err(message) => Err(EngineError::Unhandled { detail: message.clone() }),
            },
        },
    }
}

/// One entry's inspection inputs, as gathered by the caller: the entry's
/// name, the lstat of its resolved target, the followed stat of the
/// symlink's stored destination (meaningful only when the target is a
/// symlink), and the size of the resolved source or the error that
/// reading it gave.
pub struct EntryInspection {
    pub name: String,
    pub target: PathObservation,
    pub dest: StatResult,
    pub source: Result<u64, String>,
}

/// Every entry classified `LinkedCorrectly`.
pub open spec fn all_linked(results: Seq<Result<LinkState, EngineError>>) -> bool {
    forall|i: int|
        0 <= i < results.len() ==> (#[trigger] results[i]) matches Ok(LinkState::LinkedCorrectly)
}

/// Classifies each entry in the given order, without mutating anything,
/// and aggregates whether any entry is not correctly linked — the signal
/// the caller turns into a failing exit status.
pub fn status_batch(items: &Vec<EntryInspection>) -> (out: (
    Vec<Result<LinkState, EngineError>>,
    bool,
))
    ensures
        out.0@.len() == items@.len(),
        forall|i: int|
            0 <= i < items@.len() ==> inspect_result_matches(
                items@[i].target,
                items@[i].dest,
                items@[i].source,
                #[trigger] out.0@[i],
            ),
        out.1 == !all_linked(out.0@),
{
    let n = items.len();
    let mut results: Vec<Result<LinkState, EngineError>> = Vec::new();
    let mut any_not_linked = false;
    let mut i: usize = 0;
    while i < n
        invariant
            i <= n,
            n == items@.len(),
            results@.len() == i,
            forall|k: int|
                0 <= k < i ==> inspect_result_matches(
                    items@[k].target,
                    items@[k].dest,
                    items@[k].source,
                    #[trigger] results@[k],
                ),
            any_not_linked == !all_linked(results@),
        decreases n - i,
    {
        let item = &items[i];
        let r = inspect(&item.target, &item.dest, &item.source);
        let linked = match r {
            Ok(LinkState::LinkedCorrectly) => true,
            _ => false,
        };
        let ghost prev = results@;
        results.push(r);
        if !linked {
            any_not_linked = true;
        }
        proof {
            let now = results@;
            if any_not_linked {
                if !linked {
                    assert(!((#[trigger] now[now.len() - 1]) matches Ok(
                        LinkState::LinkedCorrectly,
                    )));
                } else {
                    let k = choose|k: int|
                        0 <= k < prev.len() && !((#[trigger] prev[k]) matches Ok(
                            LinkState::LinkedCorrectly,
                        ));
                    assert(!((#[trigger] now[k]) matches Ok(LinkState::LinkedCorrectly)));
                }
                assert(!all_linked(now));
            } else {
                assert forall|k: int| 0 <= k < now.len() implies (#[trigger] now[k]) matches Ok(
                    LinkState::LinkedCorrectly,
                ) by {
                    if k < prev.len() {
                        assert(prev[k] matches Ok(LinkState::LinkedCorrectly));
                    }
                }
            }
        }
        i = i + 1;
    }
    (results, any_not_linked)
}

/// Inspecting the same observations twice yields the same classification:
/// inspection mutates nothing, so repeated `status` runs without an
/// intervening mutation agree on every entry.
pub proof fn lemma_status_idempotent(
    target: PathObservation,
    dest: StatResult,
    source: Result<u64, String>,
    r1: Result<LinkState, EngineError>,
    r2: Result<LinkState, EngineError>,
)
    requires
        inspect_result_matches(target, dest, source, r1),
        inspect_result_matches(target, dest, source, r2),
    ensures
        r1 is Ok <==> r2 is Ok,
        r1 matches Ok(a) ==> r2 matches Ok(b) && a == b,
        r1 matches Err(EngineError::Unhandled { detail: d1 }) ==> r2 matches Err(
            EngineError::Unhandled { detail: d2 },
        ) && d1@ == d2@,
{
}

} // verus!
