use pono::inspect::{inspect, status_batch, EntryInspection};
use pono::reconcile::{
    plan_disable, plan_enable, validate_entry, EntryObservation, PlannedLink,
};
use pono::state::{
    EngineError, LinkState, Mode, OccupantKind, PathObservation, StatResult, Verdict,
};

fn observed(
    name: &str,
    source: &str,
    target: &str,
    source_exists: bool,
    target_state: PathObservation,
) -> EntryObservation {
    EntryObservation {
        name: name.to_string(),
        source: source.to_string(),
        target: target.to_string(),
        source_exists,
        target_state,
    }
}

#[test]
fn absent_target_is_absent() {
    let r = inspect(&PathObservation::Missing, &StatResult::Missing, &Ok(0));
    assert_eq!(r.unwrap(), LinkState::Absent);
}

#[test]
fn occupied_target_reports_occupant_kind() {
    let file = inspect(&PathObservation::RegularFile, &StatResult::Missing, &Ok(0));
    assert_eq!(
        file.unwrap(),
        LinkState::OccupiedByOther {
            occupant: OccupantKind::File
        }
    );
    let dir = inspect(&PathObservation::Directory, &StatResult::Missing, &Ok(0));
    assert_eq!(
        dir.unwrap(),
        LinkState::OccupiedByOther {
            occupant: OccupantKind::Directory
        }
    );
}

#[test]
fn dangling_symlink_is_broken() {
    let r = inspect(
        &PathObservation::SymlinkTo {
            dest: "/gone".to_string(),
        },
        &StatResult::Missing,
        &Ok(3),
    );
    assert_eq!(r.unwrap(), LinkState::BrokenLink);
}

#[test]
fn matching_sizes_are_linked_correctly() {
    let r = inspect(
        &PathObservation::SymlinkTo {
            dest: "/src".to_string(),
        },
        &StatResult::Present { size: 42 },
        &Ok(42),
    );
    assert_eq!(r.unwrap(), LinkState::LinkedCorrectly);
}

#[test]
fn differing_sizes_are_mismatched() {
    let r = inspect(
        &PathObservation::SymlinkTo {
            dest: "/src".to_string(),
        },
        &StatResult::Present { size: 42 },
        &Ok(41),
    );
    assert_eq!(r.unwrap(), LinkState::LinkedMismatched);
}

#[test]
fn equal_length_different_bytes_count_as_linked() {
    // The equivalence is size-only by design: these two files hold
    // different bytes but the same byte count, and the classification
    // must call them correctly linked. Any strengthening of the
    // comparison should trip this test and be made deliberately.
    let source_file: Vec<u8> = b"hello".to_vec();
    let dest_file: Vec<u8> = b"world".to_vec();
    assert_ne!(source_file, dest_file);
    let r = inspect(
        &PathObservation::SymlinkTo {
            dest: "/elsewhere".to_string(),
        },
        &StatResult::Present {
            size: dest_file.len() as u64,
        },
        &Ok(source_file.len() as u64),
    );
    assert_eq!(r.unwrap(), LinkState::LinkedCorrectly);
}

#[test]
fn unreadable_target_surfaces_os_error() {
    let r = inspect(
        &PathObservation::ReadError {
            message: "permission denied".to_string(),
        },
        &StatResult::Missing,
        &Ok(0),
    );
    match r {
        Err(EngineError::Unhandled { detail }) => assert_eq!(detail, "permission denied"),
        other => panic!("expected an unhandled error, got {:?}", other),
    }
}

#[test]
fn unreadable_source_surfaces_os_error() {
    let r = inspect(
        &PathObservation::SymlinkTo {
            dest: "/src".to_string(),
        },
        &StatResult::Present { size: 1 },
        &Err("source vanished".to_string()),
    );
    match r {
        Err(EngineError::Unhandled { detail }) => assert_eq!(detail, "source vanished"),
        other => panic!("expected an unhandled error, got {:?}", other),
    }
}

#[test]
fn status_is_idempotent_without_mutation() {
    let target = PathObservation::SymlinkTo {
        dest: "/src".to_string(),
    };
    let dest = StatResult::Present { size: 5 };
    let source = Ok(5);
    let first = inspect(&target, &dest, &source);
    let second = inspect(&target, &dest, &source);
    assert_eq!(first.unwrap(), second.unwrap());
}

#[test]
fn status_batch_flags_any_entry_not_linked() {
    let items = vec![
        EntryInspection {
            name: "good".to_string(),
            target: PathObservation::SymlinkTo {
                dest: "/a".to_string(),
            },
            dest: StatResult::Present { size: 1 },
            source: Ok(1),
        },
        EntryInspection {
            name: "bad".to_string(),
            target: PathObservation::Missing,
            dest: StatResult::Missing,
            source: Ok(0),
        },
    ];
    let (results, any_not_linked) = status_batch(&items);
    assert_eq!(results.len(), 2);
    assert!(any_not_linked);

    let all_good = vec![EntryInspection {
        name: "good".to_string(),
        target: PathObservation::SymlinkTo {
            dest: "/a".to_string(),
        },
        dest: StatResult::Present { size: 1 },
        source: Ok(1),
    }];
    let (_, any_not_linked) = status_batch(&all_good);
    assert!(!any_not_linked);
}

#[test]
fn occupied_target_is_fatal_for_enable_only() {
    let v_enable = validate_entry(Mode::Enable, true, &PathObservation::RegularFile);
    assert_eq!(
        v_enable,
        Verdict::RejectOccupied {
            occupant: OccupantKind::File
        }
    );
    let v_disable = validate_entry(Mode::Disable, true, &PathObservation::RegularFile);
    assert_eq!(
        v_disable,
        Verdict::Tolerated {
            occupant: OccupantKind::File
        }
    );
}

#[test]
fn missing_source_rejects_under_both_modes() {
    assert_eq!(
        validate_entry(Mode::Enable, false, &PathObservation::Missing),
        Verdict::RejectSourceMissing
    );
    assert_eq!(
        validate_entry(Mode::Disable, false, &PathObservation::Missing),
        Verdict::RejectSourceMissing
    );
}

#[test]
fn one_bad_source_blocks_the_whole_batch() {
    // Entry "alpha" is fine; entry "beta" has no source. The batch must
    // produce no plan at all — neither entry may be mutated — and the
    // failure must name "beta" and its attempted path.
    let entries = vec![
        observed("alpha", "/src/a", "/tgt/a", true, PathObservation::Missing),
        observed("beta", "/src/b", "/tgt/b", false, PathObservation::Missing),
    ];
    match plan_enable(&entries) {
        Err(EngineError::SourceNotFound { name, path }) => {
            assert_eq!(name, "beta");
            assert_eq!(path, "/src/b");
        }
        other => panic!("expected a missing-source failure, got {:?}", other),
    }
}

#[test]
fn enable_plan_creates_links_in_given_order() {
    let entries = vec![
        observed("alpha", "/src/a", "/tgt/a", true, PathObservation::Missing),
        observed(
            "beta",
            "/src/b",
            "/tgt/b",
            true,
            PathObservation::SymlinkTo {
                dest: "/src/b".to_string(),
            },
        ),
    ];
    let plan = plan_enable(&entries).expect("both entries validate");
    assert_eq!(plan.len(), 2);
    assert_eq!(plan[0].name, "alpha");
    assert_eq!(plan[0].source, "/src/a");
    assert_eq!(plan[0].target, "/tgt/a");
    assert_eq!(plan[0].action, PlannedLink::Create);
    // A target that is a symlink already is reported, not re-created.
    assert_eq!(plan[1].name, "beta");
    assert_eq!(plan[1].action, PlannedLink::AlreadyLinked);
}

#[test]
fn enable_fails_on_occupied_target() {
    let entries = vec![observed(
        "notlink",
        "/src/x",
        "/tgt/.gitkeep",
        true,
        PathObservation::RegularFile,
    )];
    match plan_enable(&entries) {
        Err(EngineError::TargetOccupied {
            name,
            path,
            occupant,
        }) => {
            assert_eq!(name, "notlink");
            assert_eq!(path, "/tgt/.gitkeep");
            assert_eq!(occupant, OccupantKind::File);
        }
        other => panic!("expected an occupied-target failure, got {:?}", other),
    }
}

#[test]
fn disable_tolerates_occupied_target_but_still_removes() {
    // The asymmetry pinned down: the same occupied target that is fatal
    // for enable passes disable's validation, and the removal is still
    // planned for it.
    let entries = vec![observed(
        "notlink",
        "/src/x",
        "/tgt/.gitkeep",
        true,
        PathObservation::RegularFile,
    )];
    assert!(matches!(
        plan_enable(&entries),
        Err(EngineError::TargetOccupied { .. })
    ));
    let plan = plan_disable(&entries).expect("disable tolerates the occupied target");
    assert_eq!(plan.len(), 1);
    assert_eq!(plan[0].name, "notlink");
    assert_eq!(plan[0].target, "/tgt/.gitkeep");
    assert_eq!(
        plan[0].verdict,
        Verdict::Tolerated {
            occupant: OccupantKind::File
        }
    );
}

#[test]
fn disable_fails_on_missing_source() {
    let entries = vec![observed(
        "gone",
        "/src/gone",
        "/tgt/gone",
        false,
        PathObservation::Missing,
    )];
    match plan_disable(&entries) {
        Err(EngineError::SourceNotFound { name, .. }) => assert_eq!(name, "gone"),
        other => panic!("expected a missing-source failure, got {:?}", other),
    }
}

#[test]
fn unreadable_target_fails_both_plans() {
    let entries = vec![observed(
        "odd",
        "/src/o",
        "/tgt/o",
        true,
        PathObservation::ReadError {
            message: "input/output error".to_string(),
        },
    )];
    match plan_enable(&entries) {
        Err(EngineError::Unhandled { detail }) => assert_eq!(detail, "input/output error"),
        other => panic!("expected an unhandled failure, got {:?}", other),
    }
    assert!(matches!(
        plan_disable(&entries),
        Err(EngineError::Unhandled { .. })
    ));
}
