//! The run's sequencing and planning.
//!
//! Phases advance in one fixed dependency order — accounts, then players,
//! then clans (whose member arrays need the player mapping), then
//! gift-code histories and the auxiliary tables (whose player references
//! need it too) — and any step's failure moves the run to `RolledBack`
//! without attempting downstream steps.
//!
//! Planning is pure: from a snapshot of the source store's rows and the
//! target store's catalog answers, it computes every identifier mapping and
//! every transformed row. The surrounding program performs the reads before
//! and the writes after; in dry-run mode the plan carries no writes at all
//! while the mappings are computed exactly as in a live run.

use vstd::prelude::*;
use crate::digits::{clan_column_name, clan_table_name, dec_rep};
use crate::error::MergeError;
use crate::mapping::{generated_map, has_duplicate, EntityKind, MappingRegistry};
use crate::merge::{
    account_bad_column, account_row_ok, account_rules, bulk_clan_row, bulk_player_row,
    clan_offsets_fit, clan_pair_rel, first_bad_rule, gift_bad_column, gift_history_rules,
    gift_row_ok, is_account_rules, is_gift_rules, is_vip_rules, lemma_account_rules_semantics,
    lemma_first_bad_rule, lemma_gift_rules_semantics, lemma_rule_value_map_independent,
    lemma_vip_rules_semantics, members_needs_rewrite, members_rewrite_fails, player_offsets_fit,
    player_pair_value, player_vip_rules, rule_error_column, rule_value, rules_offset_ok,
    rules_ok, transform_row, transformed_rel, vip_row_ok, ColumnRule,
};
use crate::schema::{plan_provenance, plan_provenance_spec, ProvenanceStep};
use crate::value::{row_int_col, Row, SqlValue};

verus! {

/// Where a run stands in the fixed order.
#[derive(Debug, Clone, Copy, PartialEq, Eq, Structural)]
pub enum MergePhase {
    Idle,
    SchemaReady,
    AccountsMerged,
    PlayersMerged,
    ClansMerged,
    HistoriesMerged,
    AuxiliaryMerged,
    Verified,
    Committed,
    RolledBack,
}

/// The position of a phase in the fixed order.
pub open spec fn phase_index(p: MergePhase) -> int {
    match p {
        MergePhase::Idle => 0,
        MergePhase::SchemaReady => 1,
        MergePhase::AccountsMerged => 2,
        MergePhase::PlayersMerged => 3,
        MergePhase::ClansMerged => 4,
        MergePhase::HistoriesMerged => 5,
        MergePhase::AuxiliaryMerged => 6,
        MergePhase::Verified => 7,
        MergePhase::Committed => 8,
        MergePhase::RolledBack => 9,
    }
}

/// The phase a successful step reaches from each phase; the two terminal
/// phases stay where they are.
pub open spec fn phase_successor(p: MergePhase) -> MergePhase {
    match p {
        MergePhase::Idle => MergePhase::SchemaReady,
        MergePhase::SchemaReady => MergePhase::AccountsMerged,
        MergePhase::AccountsMerged => MergePhase::PlayersMerged,
        MergePhase::PlayersMerged => MergePhase::ClansMerged,
        MergePhase::ClansMerged => MergePhase::HistoriesMerged,
        MergePhase::HistoriesMerged => MergePhase::AuxiliaryMerged,
        MergePhase::AuxiliaryMerged => MergePhase::Verified,
        MergePhase::Verified => MergePhase::Committed,
        MergePhase::Committed => MergePhase::Committed,
        MergePhase::RolledBack => MergePhase::RolledBack,
    }
}

/// Advances the run past one step: to the next phase in order when the step
/// succeeded, to `RolledBack` when it failed.
pub fn advance(p: MergePhase, step_ok: bool) -> (r: MergePhase)
    ensures
        r == (if step_ok {
            phase_successor(p)
        } else {
            MergePhase::RolledBack
        }),
{
    if !step_ok {
        return MergePhase::RolledBack;
    }
    match p {
        MergePhase::Idle => MergePhase::SchemaReady,
        MergePhase::SchemaReady => MergePhase::AccountsMerged,
        MergePhase::AccountsMerged => MergePhase::PlayersMerged,
        MergePhase::PlayersMerged => MergePhase::ClansMerged,
        MergePhase::ClansMerged => MergePhase::HistoriesMerged,
        MergePhase::HistoriesMerged => MergePhase::AuxiliaryMerged,
        MergePhase::AuxiliaryMerged => MergePhase::Verified,
        MergePhase::Verified => MergePhase::Committed,
        MergePhase::Committed => MergePhase::Committed,
        MergePhase::RolledBack => MergePhase::RolledBack,
    }
}

/// Law: the ordering is strictly sequential — from any non-terminal phase a
/// successful step moves exactly one position forward, and a failed step
/// lands on `RolledBack`, so no step is ever reordered or skipped.
pub proof fn lemma_phases_sequential(p: MergePhase)
    ensures
        p != MergePhase::Committed && p != MergePhase::RolledBack ==> phase_index(
            phase_successor(p),
        ) == phase_index(p) + 1,
{
}

/// The merge parameters of one run.
#[derive(Debug, Clone, Copy, PartialEq, Eq, Structural)]
pub struct MergeSettings {
    pub id_offset: i64,
    pub target_server: u8,
    pub dry_run: bool,
}

/// What the surrounding program read before planning: every source row per
/// entity, and whether the target store's catalog already shows the
/// provenance column on the two tables that carry one. The auxiliary
/// player-vip table may be absent altogether.
#[derive(Debug)]
pub struct SourceSnapshot {
    pub accounts: Vec<Row>,
    pub players: Vec<Row>,
    pub clans: Vec<Row>,
    pub gift_histories: Vec<Row>,
    pub player_vips: Option<Vec<Row>>,
    pub account_old_id_present: bool,
    pub player_old_id_present: bool,
}

/// What a planned run will do: the provenance steps, one transformed row
/// vector per entity (all empty in dry-run), and the fully populated
/// mapping registry.
#[derive(Debug)]
pub struct MergePlan {
    pub account_provenance: ProvenanceStep,
    pub player_provenance: ProvenanceStep,
    pub account_rows: Vec<Row>,
    pub player_rows: Vec<Row>,
    pub clan_rows: Vec<Row>,
    pub gift_rows: Vec<Row>,
    pub vip_rows: Vec<Row>,
    pub registry: MappingRegistry,
}

/// The clan-reference column of player rows for a target server.
pub open spec fn clan_col_spec(server: u8) -> Seq<char> {
    "clan_id_sv"@ + dec_rep(server as nat)
}

/// Whether every row has an integer identifier.
pub open spec fn all_ids_present(rows: Seq<Row>) -> bool {
    forall|i: int| 0 <= i < rows.len() ==> row_int_col(#[trigger] rows[i], "id"@) is Some
}

/// The identifiers of rows that all have one.
pub open spec fn ids_of(rows: Seq<Row>) -> Seq<i64> {
    Seq::new(rows.len(), |i: int| row_int_col(rows[i], "id"@).unwrap())
}

/// Whether every integer column identifier the plan offsets stays within
/// machine range, across all three remapped entities.
pub open spec fn snapshot_offsets_fit(s: SourceSnapshot, offset: i64, clan_col: Seq<char>) -> bool {
    &&& forall|i: int|
        0 <= i < s.accounts@.len() ==> (match row_int_col(#[trigger] s.accounts@[i], "id"@) {
            Some(x) => i64::MIN <= x + offset <= i64::MAX,
            None => true,
        })
    &&& forall|i: int|
        0 <= i < s.players@.len() ==> player_offsets_fit(#[trigger] s.players@[i], offset, clan_col)
    &&& forall|i: int| 0 <= i < s.clans@.len() ==> clan_offsets_fit(#[trigger] s.clans@[i], offset)
}

/// How a bulk-transformed player row relates to its source, with the row's
/// own identifier as provenance.
pub open spec fn player_row_out(src: Row, offset: i64, clan_col: Seq<char>, out: Row) -> bool {
    let id = row_int_col(src, "id"@).unwrap();
    &&& out.cols@.len() == src.cols@.len() + (if src.has_col("old_id"@) {
        0int
    } else {
        1
    })
    &&& forall|k: int|
        0 <= k < src.cols@.len() ==> (#[trigger] out.cols@[k]).0 == src.cols@[k].0
            && out.cols@[k].1 == player_pair_value(
            src.cols@[k].0@,
            src.cols@[k].1,
            id,
            offset,
            clan_col,
        )
    &&& !src.has_col("old_id"@) ==> out.cols@[src.cols@.len() as int].0@ == "old_id"@
        && out.cols@[src.cols@.len() as int].1 == SqlValue::Int(id)
}

/// How a bulk-transformed clan row relates to its source.
pub open spec fn clan_row_out(src: Row, offset: i64, m: Map<i64, i64>, out: Row) -> bool {
    &&& out.cols@.len() == src.cols@.len()
    &&& forall|k: int|
        0 <= k < src.cols@.len() ==> (#[trigger] out.cols@[k]).0 == src.cols@[k].0 && clan_pair_rel(
            src.cols@[k].0@,
            src.cols@[k].1,
            m,
            offset,
            out.cols@[k].1,
        )
}

/// Whether some clan row's member array defeats rewriting.
pub open spec fn some_clan_members_bad(clans: Seq<Row>) -> bool {
    exists|i: int, k: int|
        0 <= i < clans.len() && 0 <= k < (#[trigger] clans[i]).cols@.len() && members_needs_rewrite(
            (#[trigger] clans[i].cols@[k]).0@,
            clans[i].cols@[k].1,
        ) && (clans[i].cols@[k].1 matches SqlValue::Text(s) && members_rewrite_fails(s@))
}

/// Whether every row carries an integer in the given column.
pub open spec fn all_int_col(rows: Seq<Row>, name: Seq<char>) -> bool {
    forall|i: int| 0 <= i < rows.len() ==> row_int_col(#[trigger] rows[i], name) is Some
}

/// The success side of planning: provenance steps as planned, every mapping
/// generated, and — outside dry-run — every row vector transformed; in
/// dry-run every row vector empty.
pub open spec fn plan_ok_rel(s: SourceSnapshot, cfg: MergeSettings, plan: MergePlan) -> bool {
    let offset = cfg.id_offset;
    let clan_col = clan_col_spec(cfg.target_server);
    let m = generated_map(ids_of(s.players@), offset);
    &&& plan.account_provenance == plan_provenance_spec(s.account_old_id_present, cfg.dry_run)
    &&& plan.player_provenance == plan_provenance_spec(s.player_old_id_present, cfg.dry_run)
    &&& all_ids_present(s.accounts@) && !has_duplicate(ids_of(s.accounts@))
    &&& all_ids_present(s.players@) && !has_duplicate(ids_of(s.players@))
    &&& all_ids_present(s.clans@) && !has_duplicate(ids_of(s.clans@))
    &&& plan.registry.map_of(EntityKind::Account) == generated_map(ids_of(s.accounts@), offset)
    &&& plan.registry.map_of(EntityKind::Player) == m
    &&& plan.registry.map_of(EntityKind::Clan) == generated_map(ids_of(s.clans@), offset)
    &&& plan.registry.map_of(EntityKind::GiftCodeHistory) == Map::<i64, i64>::empty()
    &&& plan.registry.map_of(EntityKind::PlayerVip) == Map::<i64, i64>::empty()
    &&& (if cfg.dry_run {
        &&& plan.account_rows@.len() == 0
        &&& plan.player_rows@.len() == 0
        &&& plan.clan_rows@.len() == 0
        &&& plan.gift_rows@.len() == 0
        &&& plan.vip_rows@.len() == 0
        &&& all_int_col(s.gift_histories@, "player_id"@)
        &&& (s.player_vips matches Some(v) ==> all_int_col(v@, "player_id"@))
    } else {
        &&& forall|i: int| 0 <= i < s.accounts@.len() ==> account_row_ok(#[trigger] s.accounts@[i])
        &&& (exists|rules: Seq<ColumnRule>|
            {
                &&& #[trigger] is_account_rules(rules)
                &&& plan.account_rows@.len() == s.accounts@.len()
                &&& forall|i: int|
                    0 <= i < s.accounts@.len() ==> transformed_rel(
                        rules,
                        #[trigger] s.accounts@[i],
                        m,
                        offset,
                        plan.account_rows@[i],
                    )
            })
        &&& plan.player_rows@.len() == s.players@.len()
        &&& forall|i: int|
            0 <= i < s.players@.len() ==> player_row_out(
                #[trigger] s.players@[i],
                offset,
                clan_col,
                plan.player_rows@[i],
            )
        &&& plan.clan_rows@.len() == s.clans@.len()
        &&& forall|i: int|
            0 <= i < s.clans@.len() ==> clan_row_out(
                #[trigger] s.clans@[i],
                offset,
                m,
                plan.clan_rows@[i],
            )
        &&& forall|i: int|
            0 <= i < s.gift_histories@.len() ==> gift_row_ok(#[trigger] s.gift_histories@[i])
        &&& (exists|rules: Seq<ColumnRule>|
            {
                &&& #[trigger] is_gift_rules(rules)
                &&& plan.gift_rows@.len() == s.gift_histories@.len()
                &&& forall|i: int|
                    0 <= i < s.gift_histories@.len() ==> transformed_rel(
                        rules,
                        #[trigger] s.gift_histories@[i],
                        m,
                        offset,
                        plan.gift_rows@[i],
                    )
            })
        &&& (match s.player_vips {
            Some(vips) => {
                &&& forall|i: int| 0 <= i < vips@.len() ==> vip_row_ok(#[trigger] vips@[i])
                &&& exists|rules: Seq<ColumnRule>|
                    {
                        &&& #[trigger] is_vip_rules(rules)
                        &&& plan.vip_rows@.len() == vips@.len()
                        &&& forall|i: int|
                            0 <= i < vips@.len() ==> transformed_rel(
                                rules,
                                #[trigger] vips@[i],
                                m,
                                offset,
                                plan.vip_rows@[i],
                            )
                    }
            },
            None => plan.vip_rows@.len() == 0,
        })
    })
}

/// The failure side of planning: the first stage that fails, in dependency
/// order, determines the error. Outside dry-run a stage also fails on the
/// first row its rule list refuses; in dry-run only the identifier columns
/// that mapping generation itself reads are checked.
pub open spec fn plan_err_rel(s: SourceSnapshot, cfg: MergeSettings, e: MergeError) -> bool {
    if !all_ids_present(s.accounts@) {
        e matches MergeError::SchemaMismatch { column } && column@ == "id"@
    } else if has_duplicate(ids_of(s.accounts@)) {
        e matches MergeError::DuplicateIdentifier { kind, id } && kind == EntityKind::Account
            && ids_of(s.accounts@).contains(id)
    } else if !cfg.dry_run && (exists|i: int|
        0 <= i < s.accounts@.len() && !account_row_ok(#[trigger] s.accounts@[i])) {
        exists|i: int|
            0 <= i < s.accounts@.len() && !account_row_ok(#[trigger] s.accounts@[i]) && (forall|
                j: int,
            |
                0 <= j < i ==> account_row_ok(#[trigger] s.accounts@[j])) && (e
                matches MergeError::SchemaMismatch { column } && column@ == account_bad_column(
                s.accounts@[i],
            ))
    } else if !all_ids_present(s.players@) {
        e matches MergeError::SchemaMismatch { column } && column@ == "id"@
    } else if has_duplicate(ids_of(s.players@)) {
        e matches MergeError::DuplicateIdentifier { kind, id } && kind == EntityKind::Player
            && ids_of(s.players@).contains(id)
    } else if !all_ids_present(s.clans@) {
        e matches MergeError::SchemaMismatch { column } && column@ == "id"@
    } else if has_duplicate(ids_of(s.clans@)) {
        e matches MergeError::DuplicateIdentifier { kind, id } && kind == EntityKind::Clan
            && ids_of(s.clans@).contains(id)
    } else if !cfg.dry_run && some_clan_members_bad(s.clans@) {
        e == MergeError::MalformedReference
    } else if cfg.dry_run && !all_int_col(s.gift_histories@, "player_id"@) {
        e matches MergeError::SchemaMismatch { column } && column@ == "player_id"@
    } else if !cfg.dry_run && (exists|i: int|
        0 <= i < s.gift_histories@.len() && !gift_row_ok(#[trigger] s.gift_histories@[i])) {
        exists|i: int|
            0 <= i < s.gift_histories@.len() && !gift_row_ok(#[trigger] s.gift_histories@[i]) && (
            forall|j: int|
                0 <= j < i ==> gift_row_ok(#[trigger] s.gift_histories@[j])) && (e
                matches MergeError::SchemaMismatch { column } && column@ == gift_bad_column(
                s.gift_histories@[i],
            ))
    } else {
        match s.player_vips {
            Some(vips) => {
                if cfg.dry_run && !all_int_col(vips@, "player_id"@) {
                    e matches MergeError::SchemaMismatch { column } && column@ == "player_id"@
                } else if !cfg.dry_run && (exists|i: int|
                    0 <= i < vips@.len() && !vip_row_ok(#[trigger] vips@[i])) {
                    e matches MergeError::SchemaMismatch { column } && column@ == "player_id"@
                } else {
                    false
                }
            },
            None => false,
        }
    }
}

/// Law: dry-run isolation. Two successful plans over one snapshot with the
/// same offset and target server, one dry and one live, populate every
/// entity kind's mapping identically, while the dry plan carries not one
/// row to write — so a dry run changes the target store's row counts by
/// nothing.
pub proof fn lemma_dry_run_isolated(
    s: SourceSnapshot,
    cfg_dry: MergeSettings,
    cfg_live: MergeSettings,
    p_dry: MergePlan,
    p_live: MergePlan,
)
    requires
        cfg_dry.dry_run,
        !cfg_live.dry_run,
        cfg_dry.id_offset == cfg_live.id_offset,
        cfg_dry.target_server == cfg_live.target_server,
        plan_ok_rel(s, cfg_dry, p_dry),
        plan_ok_rel(s, cfg_live, p_live),
    ensures
        p_dry.account_rows@.len() == 0,
        p_dry.player_rows@.len() == 0,
        p_dry.clan_rows@.len() == 0,
        p_dry.gift_rows@.len() == 0,
        p_dry.vip_rows@.len() == 0,
        forall|k: EntityKind| p_dry.registry.map_of(k) == p_live.registry.map_of(k),
{
    assert forall|k: EntityKind| p_dry.registry.map_of(k) == p_live.registry.map_of(k) by {
        match k {
            EntityKind::Account => {},
            EntityKind::Player => {},
            EntityKind::Clan => {},
            EntityKind::GiftCodeHistory => {},
            EntityKind::PlayerVip => {},
        }
    }
}

/// The identifiers of every row, read from the `id` column; fails with the
/// column name when a row has none.
fn collect_ids(rows: &Vec<Row>) -> (r: Result<Vec<i64>, MergeError>)
    ensures
        match r {
            Ok(ids) => all_ids_present(rows@) && ids@ == ids_of(rows@),
            Err(e) => !all_ids_present(rows@) && (e matches MergeError::SchemaMismatch { column }
                && column@ == "id"@),
        },
{
    let mut ids: Vec<i64> = Vec::new();
    let mut i: usize = 0;
    while i < rows.len()
        invariant
            i <= rows@.len(),
            ids@.len() == i,
            forall|j: int|
                0 <= j < i ==> row_int_col(#[trigger] rows@[j], "id"@) is Some && ids@[j]
                    == row_int_col(rows@[j], "id"@).unwrap(),
        decreases rows@.len() - i,
    {
        match rows[i].get("id") {
            Some(v) => {
                match v {
                    SqlValue::Int(x) => {
                        ids.push(*x);
                    },
                    _ => {
                        return Err(MergeError::SchemaMismatch { column: "id".to_owned() });
                    },
                }
            },
            None => {
                return Err(MergeError::SchemaMismatch { column: "id".to_owned() });
            },
        }
        i = i + 1;
    }
    proof {
        assert(ids@ =~= ids_of(rows@));
    }
    Ok(ids)
}

/// Whether every row carries an integer in the given column; fails with the
/// column name otherwise.
fn check_int_col(rows: &Vec<Row>, name: &str) -> (r: Result<(), MergeError>)
    ensures
        match r {
            Ok(_) => all_int_col(rows@, name@),
            Err(e) => !all_int_col(rows@, name@) && (e
                matches MergeError::SchemaMismatch { column } && column@ == name@),
        },
{
    let mut i: usize = 0;
    while i < rows.len()
        invariant
            i <= rows@.len(),
            forall|j: int| 0 <= j < i ==> row_int_col(#[trigger] rows@[j], name@) is Some,
        decreases rows@.len() - i,
    {
        match rows[i].get(name) {
            Some(v) => {
                match v {
                    SqlValue::Int(_) => {},
                    _ => {
                        return Err(MergeError::SchemaMismatch { column: name.to_owned() });
                    },
                }
            },
            None => {
                return Err(MergeError::SchemaMismatch { column: name.to_owned() });
            },
        }
        i = i + 1;
    }
    Ok(())
}

/// Transforms every row by one rule list, stopping at the first row a rule
/// refuses.
fn transform_all(rows: &Vec<Row>, rules: &Vec<ColumnRule>, reg: &MappingRegistry, offset: i64) -> (r:
    Result<Vec<Row>, MergeError>)
    requires
        forall|i: int|
            0 <= i < rows@.len() ==> rules_offset_ok(rules@, #[trigger] rows@[i], offset),
    ensures
        match r {
            Ok(out) => {
                &&& out@.len() == rows@.len()
                &&& forall|i: int|
                    0 <= i < rows@.len() ==> rules_ok(rules@, #[trigger] rows@[i])
                        && transformed_rel(
                        rules@,
                        rows@[i],
                        reg.map_of(EntityKind::Player),
                        offset,
                        out@[i],
                    )
            },
            Err(e) => exists|i: int|
                0 <= i < rows@.len() && !rules_ok(rules@, #[trigger] rows@[i]) && (forall|j: int|
                    0 <= j < i ==> rules_ok(rules@, #[trigger] rows@[j])) && (e
                    matches MergeError::SchemaMismatch { column } && column@ == rule_error_column(
                    rules@[first_bad_rule(rules@, rows@[i])],
                )),
        },
{
    let mut out: Vec<Row> = Vec::new();
    let mut i: usize = 0;
    while i < rows.len()
        invariant
            i <= rows@.len(),
            out@.len() == i,
            forall|j: int|
                0 <= j < rows@.len() ==> rules_offset_ok(rules@, #[trigger] rows@[j], offset),
            forall|j: int|
                0 <= j < i ==> rules_ok(rules@, #[trigger] rows@[j]) && transformed_rel(
                    rules@,
                    rows@[j],
                    reg.map_of(EntityKind::Player),
                    offset,
                    out@[j],
                ),
        decreases rows@.len() - i,
    {
        match transform_row(&rows[i], rules, reg, offset) {
            Ok(row) => {
                out.push(row);
            },
            Err(e) => {
                proof {
                    lemma_first_bad_rule(rules@, rows@[i as int]);
                }
                return Err(e);
            },
        }
        i = i + 1;
    }
    Ok(out)
}

/// Transforms every player row by the bulk strategy.
fn bulk_players_all(rows: Vec<Row>, offset: i64, clan_col: &str) -> (out: Vec<Row>)
    requires
        all_ids_present(rows@),
        forall|i: int|
            0 <= i < rows@.len() ==> player_offsets_fit(#[trigger] rows@[i], offset, clan_col@),
    ensures
        out@.len() == rows@.len(),
        forall|i: int|
            0 <= i < rows@.len() ==> player_row_out(
                #[trigger] rows@[i],
                offset,
                clan_col@,
                out@[i],
            ),
{
    let ghost orig = rows@;
    let mut rest = rows;
    let mut out: Vec<Row> = Vec::new();
    while rest.len() > 0
        invariant
            orig == rows@,
            all_ids_present(orig),
            forall|j: int|
                0 <= j < orig.len() ==> player_offsets_fit(#[trigger] orig[j], offset, clan_col@),
            out@.len() + rest@.len() == orig.len(),
            rest@ == orig.skip(out@.len() as int),
            forall|j: int|
                0 <= j < out@.len() ==> player_row_out(
                    #[trigger] orig[j],
                    offset,
                    clan_col@,
                    out@[j],
                ),
        decreases rest@.len(),
    {
        let ghost k = out@.len() as int;
        let row = rest.remove(0);
        proof {
            assert(row == orig[k]);
            assert(rest@ =~= orig.skip(k + 1));
        }
        let id: i64 = match row.get("id") {
            Some(v) => {
                match v {
                    SqlValue::Int(x) => *x,
                    _ => {
                        proof {
                            assert(false);
                        }
                        0
                    },
                }
            },
            None => {
                proof {
                    assert(false);
                }
                0
            },
        };
        let nrow = bulk_player_row(row, id, offset, clan_col);
        out.push(nrow);
    }
    out
}

/// Transforms every clan row by the bulk strategy, stopping at the first
/// member array that defeats rewriting.
fn bulk_clans_all(rows: Vec<Row>, offset: i64, reg: &MappingRegistry) -> (r: Result<
    Vec<Row>,
    MergeError,
>)
    requires
        forall|i: int| 0 <= i < rows@.len() ==> clan_offsets_fit(#[trigger] rows@[i], offset),
    ensures
        match r {
            Ok(out) => {
                &&& out@.len() == rows@.len()
                &&& forall|i: int|
                    0 <= i < rows@.len() ==> clan_row_out(
                        #[trigger] rows@[i],
                        offset,
                        reg.map_of(EntityKind::Player),
                        out@[i],
                    )
                &&& !some_clan_members_bad(rows@)
            },
            Err(e) => e == MergeError::MalformedReference && some_clan_members_bad(rows@),
        },
{
    let ghost orig = rows@;
    let ghost m = reg.map_of(EntityKind::Player);
    let mut rest = rows;
    let mut out: Vec<Row> = Vec::new();
    while rest.len() > 0
        invariant
            orig == rows@,
            m == reg.map_of(EntityKind::Player),
            forall|j: int| 0 <= j < orig.len() ==> clan_offsets_fit(#[trigger] orig[j], offset),
            out@.len() + rest@.len() == orig.len(),
            rest@ == orig.skip(out@.len() as int),
            forall|j: int| 0 <= j < out@.len() ==> clan_row_out(#[trigger] orig[j], offset, m, out@[j]),
        decreases rest@.len(),
    {
        let ghost k = out@.len() as int;
        let row = rest.remove(0);
        proof {
            assert(row == orig[k]);
            assert(rest@ =~= orig.skip(k + 1));
        }
        match bulk_clan_row(row, offset, reg) {
            Ok(nrow) => {
                out.push(nrow);
            },
            Err(e) => {
                proof {
                    let bad = choose|kk: int|
                        0 <= kk < orig[k].cols@.len() && members_needs_rewrite(
                            (#[trigger] orig[k].cols@[kk]).0@,
                            orig[k].cols@[kk].1,
                        ) && (orig[k].cols@[kk].1 matches SqlValue::Text(s)
                            && members_rewrite_fails(s@));
                    assert(some_clan_members_bad(orig));
                }
                return Err(e);
            },
        }
    }
    proof {
        reveal_strlit("id");
        reveal_strlit("members");
        if some_clan_members_bad(orig) {
            let (i, kk) = choose|i: int, kk: int|
                0 <= i < orig.len() && 0 <= kk < (#[trigger] orig[i]).cols@.len()
                    && members_needs_rewrite(
                    (#[trigger] orig[i].cols@[kk]).0@,
                    orig[i].cols@[kk].1,
                ) && (orig[i].cols@[kk].1 matches SqlValue::Text(s) && members_rewrite_fails(s@));
            assert(clan_row_out(orig[i], offset, m, out@[i]));
            assert(clan_pair_rel(
                orig[i].cols@[kk].0@,
                orig[i].cols@[kk].1,
                m,
                offset,
                out@[i].cols@[kk].1,
            ));
            assert(orig[i].cols@[kk].0@ == "members"@);
            assert("members"@.len() == 7);
            assert("id"@.len() == 2);
            assert(orig[i].cols@[kk].0@ != "id"@);
            match orig[i].cols@[kk].1 {
                SqlValue::Text(s) => {
                    assert(members_rewrite_fails(s@));
                    assert(!members_rewrite_fails(s@));
                },
                _ => {
                    assert(false);
                },
            }
        }
    }
    Ok(out)
}

/// Plans one whole run from a snapshot: the provenance steps, the mapping
/// of every remapped entity, and — outside dry-run — every transformed
/// row, in strict dependency order. Failure at any stage yields that
/// stage's error and plans nothing.
pub fn plan_merge(snapshot: SourceSnapshot, settings: MergeSettings) -> (r: Result<
    MergePlan,
    MergeError,
>)
    requires
        snapshot_offsets_fit(snapshot, settings.id_offset, clan_col_spec(settings.target_server)),
    ensures
        match r {
            Ok(plan) => plan_ok_rel(snapshot, settings, plan),
            Err(e) => plan_err_rel(snapshot, settings, e),
        },
{
    let offset = settings.id_offset;
    let ghost g_clan_col = clan_col_spec(settings.target_server);
    let account_provenance = plan_provenance(snapshot.account_old_id_present, settings.dry_run);
    let player_provenance = plan_provenance(snapshot.player_old_id_present, settings.dry_run);
    let mut registry = MappingRegistry::new();

    // Accounts: identifiers, mapping, and (live) the explicit-column rows.
    let account_ids = match collect_ids(&snapshot.accounts) {
        Ok(ids) => ids,
        Err(e) => {
            return Err(e);
        },
    };
    if let Err(e) = registry.generate(EntityKind::Account, &account_ids, offset) {
        return Err(e);
    }
    let account_rule_list = account_rules();
    let ghost m_at_accounts = registry.map_of(EntityKind::Player);
    proof {
        assert forall|i: int| 0 <= i < snapshot.accounts@.len() implies rules_offset_ok(
            account_rule_list@,
            #[trigger] snapshot.accounts@[i],
            offset,
        ) by {}
    }
    let account_rows: Vec<Row> = if settings.dry_run {
        Vec::new()
    } else {
        match transform_all(&snapshot.accounts, &account_rule_list, &registry, offset) {
            Ok(rows) => rows,
            Err(e) => {
                proof {
                    let i = choose|i: int|
                        0 <= i < snapshot.accounts@.len() && !rules_ok(
                            account_rule_list@,
                            #[trigger] snapshot.accounts@[i],
                        ) && (forall|j: int|
                            0 <= j < i ==> rules_ok(
                                account_rule_list@,
                                #[trigger] snapshot.accounts@[j],
                            ));
                    assert forall|j: int| 0 <= j < snapshot.accounts@.len() implies rules_ok(
                        account_rule_list@,
                        #[trigger] snapshot.accounts@[j],
                    ) == account_row_ok(snapshot.accounts@[j]) by {
                        lemma_account_rules_semantics(account_rule_list@, snapshot.accounts@[j]);
                    }
                    lemma_account_rules_semantics(account_rule_list@, snapshot.accounts@[i]);
                }
                return Err(e);
            },
        }
    };
    proof {
        if !settings.dry_run {
            assert forall|i: int| 0 <= i < snapshot.accounts@.len() implies account_row_ok(
                #[trigger] snapshot.accounts@[i],
            ) by {
                lemma_account_rules_semantics(account_rule_list@, snapshot.accounts@[i]);
            }
        }
    }

    // Players: identifiers, mapping, and (live) the bulk rows.
    let player_ids = match collect_ids(&snapshot.players) {
        Ok(ids) => ids,
        Err(e) => {
            return Err(e);
        },
    };
    proof {
        assert forall|i: int| 0 <= i < player_ids@.len() implies i64::MIN <= #[trigger] player_ids@[i]
            + offset <= i64::MAX by {
            let row = snapshot.players@[i];
            crate::value::lemma_col_first_index(row.cols@, "id"@);
            let idx = crate::value::col_first_index(row.cols@, "id"@);
            assert(row.cols@[idx].0@ == "id"@);
            assert(row.cols@[idx].1 == SqlValue::Int(player_ids@[i]));
            assert(player_offsets_fit(row, offset, g_clan_col));
        }
    }
    if let Err(e) = registry.generate(EntityKind::Player, &player_ids, offset) {
        return Err(e);
    }
    let clan_col = clan_column_name(settings.target_server);
    let player_rows: Vec<Row> = if settings.dry_run {
        Vec::new()
    } else {
        bulk_players_all(snapshot.players, offset, clan_col.as_str())
    };

    // Clans: identifiers, mapping, and (live) the bulk rows with the member
    // arrays rewritten against the now-complete player mapping.
    let clan_ids = match collect_ids(&snapshot.clans) {
        Ok(ids) => ids,
        Err(e) => {
            return Err(e);
        },
    };
    proof {
        assert forall|i: int| 0 <= i < clan_ids@.len() implies i64::MIN <= #[trigger] clan_ids@[i]
            + offset <= i64::MAX by {
            let row = snapshot.clans@[i];
            crate::value::lemma_col_first_index(row.cols@, "id"@);
            let idx = crate::value::col_first_index(row.cols@, "id"@);
            assert(row.cols@[idx].0@ == "id"@);
            assert(row.cols@[idx].1 == SqlValue::Int(clan_ids@[i]));
            assert(clan_offsets_fit(row, offset));
        }
    }
    if let Err(e) = registry.generate(EntityKind::Clan, &clan_ids, offset) {
        return Err(e);
    }
    let clan_rows: Vec<Row> = if settings.dry_run {
        Vec::new()
    } else {
        match bulk_clans_all(snapshot.clans, offset, &registry) {
            Ok(rows) => rows,
            Err(e) => {
                return Err(e);
            },
        }
    };

    // Gift-code histories: player references through the mapping.
    let gift_rule_list = gift_history_rules();
    let gift_rows: Vec<Row> = if settings.dry_run {
        if let Err(e) = check_int_col(&snapshot.gift_histories, "player_id") {
            return Err(e);
        }
        Vec::new()
    } else {
        proof {
            assert forall|i: int| 0 <= i < snapshot.gift_histories@.len() implies rules_offset_ok(
                gift_rule_list@,
                #[trigger] snapshot.gift_histories@[i],
                offset,
            ) by {
                if exists|k: int|
                    0 <= k < gift_rule_list@.len() && (#[trigger] gift_rule_list@[k]) is NewId {
                    let k = choose|k: int|
                        0 <= k < gift_rule_list@.len() && (#[trigger] gift_rule_list@[k]) is NewId;
                    assert(false);
                }
            }
        }
        match transform_all(&snapshot.gift_histories, &gift_rule_list, &registry, offset) {
            Ok(rows) => rows,
            Err(e) => {
                proof {
                    let i = choose|i: int|
                        0 <= i < snapshot.gift_histories@.len() && !rules_ok(
                            gift_rule_list@,
                            #[trigger] snapshot.gift_histories@[i],
                        ) && (forall|j: int|
                            0 <= j < i ==> rules_ok(
                                gift_rule_list@,
                                #[trigger] snapshot.gift_histories@[j],
                            ));
                    assert forall|j: int| 0 <= j < snapshot.gift_histories@.len() implies rules_ok(
                        gift_rule_list@,
                        #[trigger] snapshot.gift_histories@[j],
                    ) == gift_row_ok(snapshot.gift_histories@[j]) by {
                        lemma_gift_rules_semantics(gift_rule_list@, snapshot.gift_histories@[j]);
                    }
                    lemma_gift_rules_semantics(gift_rule_list@, snapshot.gift_histories@[i]);
                }
                return Err(e);
            },
        }
    };
    proof {
        if !settings.dry_run {
            assert forall|i: int| 0 <= i < snapshot.gift_histories@.len() implies gift_row_ok(
                #[trigger] snapshot.gift_histories@[i],
            ) by {
                lemma_gift_rules_semantics(gift_rule_list@, snapshot.gift_histories@[i]);
            }
        }
    }

    // The auxiliary player-vip table, when it exists at all.
    let vip_rule_list = player_vip_rules();
    let vip_rows: Vec<Row> = match &snapshot.player_vips {
        Some(vips) => {
            if settings.dry_run {
                if let Err(e) = check_int_col(vips, "player_id") {
                    return Err(e);
                }
                Vec::new()
            } else {
                proof {
                    assert forall|i: int| 0 <= i < vips@.len() implies rules_offset_ok(
                        vip_rule_list@,
                        #[trigger] vips@[i],
                        offset,
                    ) by {
                        if exists|k: int|
                            0 <= k < vip_rule_list@.len() && (#[trigger] vip_rule_list@[k])
                                is NewId {
                            let k = choose|k: int|
                                0 <= k < vip_rule_list@.len() && (#[trigger] vip_rule_list@[k])
                                    is NewId;
                            assert(false);
                        }
                    }
                }
                match transform_all(vips, &vip_rule_list, &registry, offset) {
                    Ok(rows) => rows,
                    Err(e) => {
                        proof {
                            let i = choose|i: int|
                                0 <= i < vips@.len() && !rules_ok(
                                    vip_rule_list@,
                                    #[trigger] vips@[i],
                                ) && (forall|j: int|
                                    0 <= j < i ==> rules_ok(vip_rule_list@, #[trigger] vips@[j]));
                            lemma_vip_rules_semantics(vip_rule_list@, vips@[i]);
                        }
                        return Err(e);
                    },
                }
            }
        },
        None => Vec::new(),
    };

    let plan = MergePlan {
        account_provenance,
        player_provenance,
        account_rows,
        player_rows,
        clan_rows,
        gift_rows,
        vip_rows,
        registry,
    };
    proof {
        let m = generated_map(ids_of(snapshot.players@), offset);
        assert(ids_of(snapshot.players@) == player_ids@);
        if !settings.dry_run {
            assert forall|i: int| 0 <= i < snapshot.accounts@.len() implies transformed_rel(
                account_rule_list@,
                #[trigger] snapshot.accounts@[i],
                m,
                offset,
                plan.account_rows@[i],
            ) by {
                let row = snapshot.accounts@[i];
                assert(transformed_rel(
                    account_rule_list@,
                    row,
                    m_at_accounts,
                    offset,
                    plan.account_rows@[i],
                ));
                assert forall|k: int| 0 <= k < account_rule_list@.len() implies (
                #[trigger] plan.account_rows@[i].cols@[k]).0@ == crate::merge::rule_name(
                    account_rule_list@[k],
                ) && crate::value::sql_eq(
                    rule_value(account_rule_list@[k], row, m, offset),
                    plan.account_rows@[i].cols@[k].1,
                ) by {
                    assert(!(account_rule_list@[k] is PlayerRef));
                    lemma_rule_value_map_independent(
                        account_rule_list@[k],
                        row,
                        m_at_accounts,
                        m,
                        offset,
                    );
                }
            }
            assert(exists|rules: Seq<ColumnRule>|
                {
                    &&& #[trigger] is_account_rules(rules)
                    &&& plan.account_rows@.len() == snapshot.accounts@.len()
                    &&& forall|i: int|
                        0 <= i < snapshot.accounts@.len() ==> transformed_rel(
                            rules,
                            #[trigger] snapshot.accounts@[i],
                            m,
                            offset,
                            plan.account_rows@[i],
                        )
                }) by {
                assert(is_account_rules(account_rule_list@));
            }
            assert(exists|rules: Seq<ColumnRule>|
                {
                    &&& #[trigger] is_gift_rules(rules)
                    &&& plan.gift_rows@.len() == snapshot.gift_histories@.len()
                    &&& forall|i: int|
                        0 <= i < snapshot.gift_histories@.len() ==> transformed_rel(
                            rules,
                            #[trigger] snapshot.gift_histories@[i],
                            m,
                            offset,
                            plan.gift_rows@[i],
                        )
                }) by {
                assert(is_gift_rules(gift_rule_list@));
            }
            match snapshot.player_vips {
                Some(vips) => {
                    assert forall|i: int| 0 <= i < vips@.len() implies vip_row_ok(
                        #[trigger] vips@[i],
                    ) by {
                        lemma_vip_rules_semantics(vip_rule_list@, vips@[i]);
                    }
                    assert(exists|rules: Seq<ColumnRule>|
                        {
                            &&& #[trigger] is_vip_rules(rules)
                            &&& plan.vip_rows@.len() == vips@.len()
                            &&& forall|i: int|
                                0 <= i < vips@.len() ==> transformed_rel(
                                    rules,
                                    #[trigger] vips@[i],
                                    m,
                                    offset,
                                    plan.vip_rows@[i],
                                )
                        }) by {
                        assert(is_vip_rules(vip_rule_list@));
                    }
                },
                None => {},
            }
        }
        assert(plan_ok_rel(snapshot, settings, plan));
    }
    Ok(plan)
}

/// The tables whose row counts the pre-merge report lists, target server's
/// clan table included.
pub fn statistics_tables(target_server: u8) -> (r: Vec<String>)
    ensures
        r@.len() == 4,
        r@[0]@ == "account"@,
        r@[1]@ == "player"@,
        r@[2]@ == "clan_sv"@ + dec_rep(target_server as nat),
        r@[3]@ == "gift_code_histories"@,
{
    let mut v: Vec<String> = Vec::new();
    v.push("account".to_owned());
    v.push("player".to_owned());
    v.push(clan_table_name(target_server));
    v.push("gift_code_histories".to_owned());
    v
}

/// The combined row count of one table across the two stores; wide enough
/// that the sum always fits.
pub fn total_rows(target_count: i64, source_count: i64) -> (t: i128)
    ensures
        t == target_count + source_count,
{
    target_count as i128 + source_count as i128
}

} // verus!
