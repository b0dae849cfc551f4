//! The post-merge referential-integrity audit.
//!
//! One pass over the committed player rows finds those whose `account_id`
//! matches no committed account row — the outer-join-with-missing-parent
//! check. The report carries the exact total and a sample capped at
//! `ORPHAN_SAMPLE_CAP` rows; it is informational and never blocks the
//! commit/rollback decision, which has already been made.

use vstd::prelude::*;
use std::collections::HashSet;
use crate::value::{col_or_null, lemma_sql_eq_sym, row_int_col, sql_eq, Row, SqlValue};

verus! {

broadcast use vstd::std_specs::hash::group_hash_axioms;

/// How many orphan rows the detailed sample holds at most.
pub const ORPHAN_SAMPLE_CAP: usize = 20;

/// The identifiers of the account rows: every integer held by an `id`
/// column.
pub open spec fn account_ids(accounts: Seq<Row>) -> Set<i64> {
    Set::new(
        |v: i64|
            exists|i: int|
                0 <= i < accounts.len() && row_int_col(#[trigger] accounts[i], "id"@) == Some(v),
    )
}

/// Whether a player row has no parent account: its `account_id` is absent,
/// not an integer, or an integer matching no account identifier.
pub open spec fn is_orphan(p: Row, ids: Set<i64>) -> bool {
    match row_int_col(p, "account_id"@) {
        Some(a) => !ids.contains(a),
        None => true,
    }
}

/// The positions of the orphan rows, in row order.
pub open spec fn orphan_indices(players: Seq<Row>, ids: Set<i64>) -> Seq<int>
    decreases players.len(),
{
    if players.len() == 0 {
        Seq::empty()
    } else {
        let prefix = orphan_indices(players.drop_last(), ids);
        if is_orphan(players.last(), ids) {
            prefix.push(players.len() - 1)
        } else {
            prefix
        }
    }
}

/// One sampled orphan: the row's identifier, name and dangling reference.
#[derive(Debug, PartialEq)]
pub struct OrphanRecord {
    pub player_id: SqlValue,
    pub player_name: SqlValue,
    pub account_id: SqlValue,
}

/// Whether a sampled record reports one player row.
pub open spec fn record_matches(rec: OrphanRecord, p: Row) -> bool {
    &&& sql_eq(col_or_null(p, "id"@), rec.player_id)
    &&& sql_eq(col_or_null(p, "name"@), rec.player_name)
    &&& sql_eq(col_or_null(p, "account_id"@), rec.account_id)
}

/// The audit's result: the exact number of orphan player rows, and records
/// for the first of them up to the sample cap.
#[derive(Debug)]
pub struct OrphanReport {
    pub total: usize,
    pub sample: Vec<OrphanRecord>,
}

/// How `account_ids` grows when one more account row is considered.
proof fn lemma_account_ids_push(s: Seq<Row>, r: Row)
    ensures
        account_ids(s.push(r)) =~= (match row_int_col(r, "id"@) {
            Some(x) => account_ids(s).insert(x),
            None => account_ids(s),
        }),
{
    let all = s.push(r);
    let base = account_ids(s);
    let full = account_ids(all);
    assert(all[s.len() as int] == r);
    match row_int_col(r, "id"@) {
        Some(x) => {
            assert forall|v: i64| full.contains(v) implies base.insert(x).contains(v) by {
                let i = choose|i: int|
                    0 <= i < all.len() && row_int_col(#[trigger] all[i], "id"@) == Some(v);
                if i < s.len() {
                    assert(s[i] == all[i]);
                    assert(account_ids(s).contains(v));
                }
            }
            assert forall|v: i64| base.insert(x).contains(v) implies full.contains(v) by {
                if v == x {
                    assert(row_int_col(all[s.len() as int], "id"@) == Some(v));
                } else {
                    let i = choose|i: int|
                        0 <= i < s.len() && row_int_col(#[trigger] s[i], "id"@) == Some(v);
                    assert(all[i] == s[i]);
                    assert(row_int_col(all[i], "id"@) == Some(v));
                }
            }
        },
        None => {
            assert forall|v: i64| full.contains(v) implies base.contains(v) by {
                let i = choose|i: int|
                    0 <= i < all.len() && row_int_col(#[trigger] all[i], "id"@) == Some(v);
                if i < s.len() {
                    assert(s[i] == all[i]);
                    assert(account_ids(s).contains(v));
                }
            }
            assert forall|v: i64| base.contains(v) implies full.contains(v) by {
                let i = choose|i: int|
                    0 <= i < s.len() && row_int_col(#[trigger] s[i], "id"@) == Some(v);
                assert(all[i] == s[i]);
                assert(row_int_col(all[i], "id"@) == Some(v));
            }
        },
    }
}

/// A copy of a row's column value, `Null` where the column is absent.
fn clone_col(r: &Row, name: &str) -> (v: SqlValue)
    ensures
        sql_eq(col_or_null(*r, name@), v),
{
    match r.get(name) {
        Some(value) => value.clone(),
        None => SqlValue::Null,
    }
}

/// Finds every committed player row without a parent account row, returning
/// the exact total and the first orphans up to the sample cap, in row order.
pub fn find_orphans(players: &Vec<Row>, accounts: &Vec<Row>) -> (r: OrphanReport)
    ensures
        ({
            let ids = account_ids(accounts@);
            let oi = orphan_indices(players@, ids);
            &&& r.total == oi.len()
            &&& r.sample@.len() == if oi.len() < ORPHAN_SAMPLE_CAP {
                oi.len() as int
            } else {
                ORPHAN_SAMPLE_CAP as int
            }
            &&& forall|j: int|
                0 <= j < r.sample@.len() ==> record_matches(#[trigger] r.sample@[j], players@[oi[j]])
        }),
{
    let mut ids: HashSet<i64> = HashSet::new();
    let mut i: usize = 0;
    while i < accounts.len()
        invariant
            i <= accounts@.len(),
            ids@ == account_ids(accounts@.take(i as int)),
        decreases accounts@.len() - i,
    {
        let ghost pre = accounts@.take(i as int);
        match accounts[i].get("id") {
            Some(v) => {
                match v {
                    SqlValue::Int(x) => {
                        ids.insert(*x);
                    },
                    _ => {},
                }
            },
            None => {},
        }
        i = i + 1;
        proof {
            assert(accounts@.take(i as int) =~= pre.push(accounts@[i - 1]));
            lemma_account_ids_push(pre, accounts@[i - 1]);
            assert(ids@ =~= account_ids(accounts@.take(i as int)));
        }
    }
    proof {
        assert(accounts@.take(accounts@.len() as int) =~= accounts@);
    }
    let ghost gids = account_ids(accounts@);
    let mut total: usize = 0;
    let mut sample: Vec<OrphanRecord> = Vec::new();
    let mut k: usize = 0;
    while k < players.len()
        invariant
            k <= players@.len(),
            ids@ == gids,
            gids == account_ids(accounts@),
            total == orphan_indices(players@.take(k as int), gids).len(),
            total <= k,
            sample@.len() == if total < ORPHAN_SAMPLE_CAP {
                total as int
            } else {
                ORPHAN_SAMPLE_CAP as int
            },
            forall|j: int|
                0 <= j < sample@.len() ==> record_matches(
                    #[trigger] sample@[j],
                    players@[orphan_indices(players@.take(k as int), gids)[j]],
                ),
            forall|j: int|
                0 <= j < orphan_indices(players@.take(k as int), gids).len() ==> 0
                    <= #[trigger] orphan_indices(players@.take(k as int), gids)[j] < k,
        decreases players@.len() - k,
    {
        let ghost pre = players@.take(k as int);
        let ghost pre_oi = orphan_indices(pre, gids);
        let p = &players[k];
        let orphan: bool = match p.get("account_id") {
            Some(v) => {
                match v {
                    SqlValue::Int(a) => !ids.contains(a),
                    _ => true,
                }
            },
            None => true,
        };
        proof {
            assert(orphan == is_orphan(players@[k as int], gids));
        }
        if orphan {
            total = total + 1;
            if sample.len() < ORPHAN_SAMPLE_CAP {
                let rec = OrphanRecord {
                    player_id: clone_col(p, "id"),
                    player_name: clone_col(p, "name"),
                    account_id: clone_col(p, "account_id"),
                };
                proof {
                    lemma_sql_eq_sym(col_or_null(*p, "id"@), rec.player_id);
                }
                sample.push(rec);
            }
        }
        k = k + 1;
        proof {
            let cur = players@.take(k as int);
            assert(cur =~= pre.push(players@[k - 1]));
            assert(cur.drop_last() =~= pre);
            assert(cur.last() == players@[k - 1]);
            let cur_oi = orphan_indices(cur, gids);
            if is_orphan(players@[k - 1], gids) {
                assert(cur_oi == pre_oi.push(pre.len() as int));
            } else {
                assert(cur_oi == pre_oi);
            }
        }
    }
    proof {
        assert(players@.take(players@.len() as int) =~= players@);
    }
    OrphanReport { total, sample }
}

} // verus!
