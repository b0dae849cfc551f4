//! Idempotent schema evolution: the provenance column.
//!
//! The target store's `account` and `player` tables get a nullable integer
//! `old_id` column recording each row's pre-merge identifier. The catalog is
//! consulted first; the additive change is issued only when the column is
//! absent, and never in dry-run mode (where the check still runs, for
//! accurate reporting).

use vstd::prelude::*;

verus! {

/// The outcome of planning the provenance column for one table:
/// `create_reported` is what the run reports (the column was not there), and
/// `issue_change` is whether the additive schema change is actually sent.
#[derive(Debug, Clone, Copy, PartialEq, Eq, Structural)]
pub struct ProvenanceStep {
    pub create_reported: bool,
    pub issue_change: bool,
}

/// What planning yields: report creation exactly when the column is absent,
/// and issue the change exactly when additionally not in dry-run mode.
pub open spec fn plan_provenance_spec(column_present: bool, dry_run: bool) -> ProvenanceStep {
    ProvenanceStep { create_reported: !column_present, issue_change: !column_present && !dry_run }
}

/// Plans the provenance column for one table from its catalog state.
pub fn plan_provenance(column_present: bool, dry_run: bool) -> (r: ProvenanceStep)
    ensures
        r == plan_provenance_spec(column_present, dry_run),
{
    ProvenanceStep { create_reported: !column_present, issue_change: !column_present && !dry_run }
}

/// Whether the column exists after a planned step is applied to the store.
pub open spec fn column_after(column_present: bool, step: ProvenanceStep) -> bool {
    column_present || step.issue_change
}

/// Law: ensuring the provenance column twice in sequence never fails — the
/// planning is total — and outside dry-run the second step reports the
/// column already present and issues no further change, whatever the
/// catalog first held.
pub proof fn lemma_provenance_idempotent(column_present: bool)
    ensures
        ({
            let first = plan_provenance_spec(column_present, false);
            let second = plan_provenance_spec(column_after(column_present, first), false);
            !second.create_reported && !second.issue_change
        }),
{
}

} // verus!
