use dbmerge::error::MergeError;
use dbmerge::mapping::EntityKind;
use dbmerge::orchestrator::{advance, statistics_tables, total_rows, MergePhase};
use dbmerge::schema::plan_provenance;
use dbmerge::txn::{StoreRole, TxnAction, TxnCoordinator};

#[test]
fn provenance_planning_is_idempotent() {
    // First call: the column is absent, so it is created.
    let first = plan_provenance(false, false);
    assert!(first.create_reported);
    assert!(first.issue_change);
    // Second call, after the change landed: already present, nothing issued.
    let second = plan_provenance(true, false);
    assert!(!second.create_reported);
    assert!(!second.issue_change);
    // Dry-run: the check still reports, the change is withheld.
    let dry = plan_provenance(false, true);
    assert!(dry.create_reported);
    assert!(!dry.issue_change);
}

#[test]
fn transaction_commands_address_the_target_first() {
    let mut txn = TxnCoordinator::new(false);
    let begin = txn.begin();
    assert_eq!(begin.len(), 2);
    assert_eq!(begin[0].store, StoreRole::Target);
    assert_eq!(begin[0].action, TxnAction::Begin);
    assert_eq!(begin[1].store, StoreRole::Source);
    let commit = txn.commit();
    assert_eq!(commit.len(), 2);
    assert_eq!(commit[0].store, StoreRole::Target);
    assert_eq!(commit[0].action, TxnAction::Commit);
    assert_eq!(commit[1].store, StoreRole::Source);
}

#[test]
fn rollback_covers_both_stores() {
    let mut txn = TxnCoordinator::new(false);
    let _ = txn.begin();
    let rollback = txn.rollback();
    assert_eq!(rollback.len(), 2);
    assert_eq!(rollback[0].action, TxnAction::Rollback);
    assert_eq!(rollback[1].action, TxnAction::Rollback);
}

#[test]
fn dry_run_issues_no_transaction_commands() {
    let mut txn = TxnCoordinator::new(true);
    assert!(txn.begin().is_empty());
    assert!(txn.commit().is_empty());
}

#[test]
fn phases_advance_in_the_fixed_order() {
    let mut p = MergePhase::Idle;
    let order = [
        MergePhase::SchemaReady,
        MergePhase::AccountsMerged,
        MergePhase::PlayersMerged,
        MergePhase::ClansMerged,
        MergePhase::HistoriesMerged,
        MergePhase::AuxiliaryMerged,
        MergePhase::Verified,
        MergePhase::Committed,
    ];
    for expected in order {
        p = advance(p, true);
        assert_eq!(p, expected);
    }
}

#[test]
fn any_failed_step_rolls_back() {
    assert_eq!(advance(MergePhase::Idle, false), MergePhase::RolledBack);
    assert_eq!(advance(MergePhase::ClansMerged, false), MergePhase::RolledBack);
    assert_eq!(advance(MergePhase::Verified, false), MergePhase::RolledBack);
    // RolledBack is terminal.
    assert_eq!(advance(MergePhase::RolledBack, true), MergePhase::RolledBack);
}

#[test]
fn statistics_cover_the_four_reported_tables() {
    let tables = statistics_tables(4);
    assert_eq!(
        tables,
        vec!["account", "player", "clan_sv4", "gift_code_histories"]
    );
    assert_eq!(total_rows(3, 4), 7);
    assert_eq!(total_rows(i64::MAX, i64::MAX), (i64::MAX as i128) * 2);
}

#[test]
fn errors_render_readable_messages() {
    assert_eq!(
        MergeError::Connection.message(),
        "store connection failed"
    );
    assert_eq!(
        MergeError::SchemaMismatch { column: "old_id".to_string() }.message(),
        "missing or unusable column: old_id"
    );
    assert_eq!(
        MergeError::MalformedReference.message(),
        "malformed embedded member reference"
    );
    assert_eq!(
        MergeError::DuplicateIdentifier { kind: EntityKind::Player, id: -7 }.message(),
        "duplicate player identifier: -7"
    );
}
