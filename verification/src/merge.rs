//! Row transformation per entity.
//!
//! Two interchangeable strategies realize the same contract. The
//! explicit-column strategy builds each target row from an enumerated rule
//! list, one rule per output column, and can apply bespoke per-column
//! fixups (decoding bit columns, defaulting); any source column not
//! enumerated is dropped. The catalog-driven bulk strategy keeps whatever
//! columns a row arrived with and adjusts the few identifier columns in
//! place, so it survives schema drift but applies no bespoke fixups.

use vstd::prelude::*;
use crate::error::MergeError;
use crate::mapping::{lookup_spec, EntityKind, MappingRegistry};
use crate::value::{coerce_bit, coerce_bit_spec, col_first_index, col_or_null, row_int_col, sql_eq, Row, SqlValue};

verus! {

/// One output column of the explicit-column strategy.
///
/// `NewId` emits the offset identifier under `id`; `Provenance` emits the
/// pre-merge identifier under `old_id`; `Required` copies a column that must
/// be present and non-null; `Optional` copies a column or null; `Defaulted`
/// copies a column, substituting the default where it is absent or null;
/// `BitFlag` decodes a bit-width-1 column to a boolean or null;
/// `BitDefaulted` decodes likewise but substitutes false; `PlayerRef` maps a
/// required integer column through the player mapping.
#[derive(Debug)]
pub enum ColumnRule {
    NewId,
    Provenance,
    Required { name: String },
    Optional { name: String },
    Defaulted { name: String, default: SqlValue },
    BitFlag { name: String },
    BitDefaulted { name: String },
    PlayerRef { name: String },
}

/// The output column name of one rule.
pub open spec fn rule_name(rule: ColumnRule) -> Seq<char> {
    match rule {
        ColumnRule::NewId => "id"@,
        ColumnRule::Provenance => "old_id"@,
        ColumnRule::Required { name } => name@,
        ColumnRule::Optional { name } => name@,
        ColumnRule::Defaulted { name, default: _ } => name@,
        ColumnRule::BitFlag { name } => name@,
        ColumnRule::BitDefaulted { name } => name@,
        ColumnRule::PlayerRef { name } => name@,
    }
}

/// Whether one rule can be applied to a source row.
pub open spec fn rule_ok(rule: ColumnRule, row: Row) -> bool {
    match rule {
        ColumnRule::NewId => row_int_col(row, "id"@) is Some,
        ColumnRule::Provenance => row_int_col(row, "id"@) is Some,
        ColumnRule::Required { name } => row.has_col(name@) && !(row.col_value(name@) is Null),
        ColumnRule::PlayerRef { name } => row_int_col(row, name@) is Some,
        _ => true,
    }
}

/// The value one rule emits for a source row.
pub open spec fn rule_value(
    rule: ColumnRule,
    row: Row,
    player_map: Map<i64, i64>,
    offset: i64,
) -> SqlValue
    recommends
        rule_ok(rule, row),
{
    match rule {
        ColumnRule::NewId => SqlValue::Int(
            (row_int_col(row, "id"@).unwrap() + offset) as i64,
        ),
        ColumnRule::Provenance => SqlValue::Int(row_int_col(row, "id"@).unwrap()),
        ColumnRule::Required { name } => row.col_value(name@),
        ColumnRule::Optional { name } => col_or_null(row, name@),
        ColumnRule::Defaulted { name, default } => {
            let v = col_or_null(row, name@);
            if v is Null {
                default
            } else {
                v
            }
        },
        ColumnRule::BitFlag { name } => match coerce_bit_spec(col_or_null(row, name@)) {
            Some(b) => SqlValue::Bool(b),
            None => SqlValue::Null,
        },
        ColumnRule::BitDefaulted { name } => match coerce_bit_spec(col_or_null(row, name@)) {
            Some(b) => SqlValue::Bool(b),
            None => SqlValue::Bool(false),
        },
        ColumnRule::PlayerRef { name } => SqlValue::Int(
            lookup_spec(player_map, row_int_col(row, name@).unwrap()),
        ),
    }
}

/// The source column an inapplicable rule misses: the identifier column for
/// the two identifier rules, the rule's own column otherwise.
pub open spec fn rule_error_column(rule: ColumnRule) -> Seq<char> {
    match rule {
        ColumnRule::NewId => "id"@,
        ColumnRule::Provenance => "id"@,
        _ => rule_name(rule),
    }
}

/// The position of the first rule that cannot be applied, or `-1`.
pub open spec fn first_bad_rule(rules: Seq<ColumnRule>, row: Row) -> int
    decreases rules.len(),
{
    if rules.len() == 0 {
        -1
    } else if !rule_ok(rules[0], row) {
        0
    } else {
        let rest = first_bad_rule(rules.skip(1), row);
        if rest == -1 {
            -1
        } else {
            1 + rest
        }
    }
}

/// Whether every rule can be applied.
pub open spec fn rules_ok(rules: Seq<ColumnRule>, row: Row) -> bool {
    forall|k: int| 0 <= k < rules.len() ==> rule_ok(#[trigger] rules[k], row)
}

/// What `first_bad_rule` finds: the first inapplicable rule, or none.
pub proof fn lemma_first_bad_rule(rules: Seq<ColumnRule>, row: Row)
    ensures
        first_bad_rule(rules, row) == -1 ==> rules_ok(rules, row),
        first_bad_rule(rules, row) != -1 ==> {
            let b = first_bad_rule(rules, row);
            &&& 0 <= b < rules.len()
            &&& !rule_ok(rules[b], row)
            &&& forall|j: int| 0 <= j < b ==> rule_ok(#[trigger] rules[j], row)
        },
    decreases rules.len(),
{
    if rules.len() > 0 && rule_ok(rules[0], row) {
        let rest = rules.skip(1);
        lemma_first_bad_rule(rest, row);
        let r = first_bad_rule(rest, row);
        if r == -1 {
            assert forall|k: int| 0 <= k < rules.len() implies rule_ok(
                #[trigger] rules[k],
                row,
            ) by {
                if k > 0 {
                    assert(rest[k - 1] == rules[k]);
                }
            }
        } else {
            assert(rules[1 + r] == rest[r]);
            assert forall|j: int| 0 <= j < 1 + r implies rule_ok(#[trigger] rules[j], row) by {
                if j > 0 {
                    assert(rest[j - 1] == rules[j]);
                }
            }
        }
    }
}

/// How a transformed row relates to its source: one output column per rule,
/// in rule order, under the rule's name and with the rule's value.
pub open spec fn transformed_rel(
    rules: Seq<ColumnRule>,
    row: Row,
    player_map: Map<i64, i64>,
    offset: i64,
    out: Row,
) -> bool {
    &&& out.cols@.len() == rules.len()
    &&& forall|k: int|
        0 <= k < rules.len() ==> {
            &&& (#[trigger] out.cols@[k]).0@ == rule_name(rules[k])
            &&& sql_eq(rule_value(rules[k], row, player_map, offset), out.cols@[k].1)
        }
}

/// Whether the offset identifier of a row stays within machine range; only
/// rule lists that emit a new identifier constrain anything.
pub open spec fn rules_offset_ok(rules: Seq<ColumnRule>, row: Row, offset: i64) -> bool {
    ((exists|k: int| 0 <= k < rules.len() && (#[trigger] rules[k]) is NewId) && row_int_col(
        row,
        "id"@,
    ) is Some) ==> i64::MIN <= row_int_col(row, "id"@).unwrap() + offset <= i64::MAX
}

/// Transforms one source row by the explicit-column strategy: every rule
/// applied in order against the player mapping and the configured offset.
/// Fails with the first inapplicable rule's column name.
pub fn transform_row(
    row: &Row,
    rules: &Vec<ColumnRule>,
    reg: &MappingRegistry,
    offset: i64,
) -> (r: Result<Row, MergeError>)
    requires
        rules_offset_ok(rules@, *row, offset),
    ensures
        match r {
            Ok(out) => rules_ok(rules@, *row) && transformed_rel(
                rules@,
                *row,
                reg.map_of(EntityKind::Player),
                offset,
                out,
            ),
            Err(e) => {
                &&& !rules_ok(rules@, *row)
                &&& e matches MergeError::SchemaMismatch { column } && column@
                    == rule_error_column(rules@[first_bad_rule(rules@, *row)])
            },
        },
{
    let ghost m = reg.map_of(EntityKind::Player);
    let mut cols: Vec<(String, SqlValue)> = Vec::new();
    let mut k: usize = 0;
    while k < rules.len()
        invariant
            k <= rules@.len(),
            rules_offset_ok(rules@, *row, offset),
            m == reg.map_of(EntityKind::Player),
            forall|j: int| 0 <= j < k ==> rule_ok(#[trigger] rules@[j], *row),
            cols@.len() == k,
            forall|j: int|
                0 <= j < k ==> (#[trigger] cols@[j]).0@ == rule_name(rules@[j]) && sql_eq(
                    rule_value(rules@[j], *row, m, offset),
                    cols@[j].1,
                ),
        decreases rules@.len() - k,
    {
        match &rules[k] {
            ColumnRule::NewId => {
                match row.get("id") {
                    Some(v) => {
                        match v {
                            SqlValue::Int(x) => {
                                proof {
                                    assert(rules@[k as int] is NewId);
                                }
                                let nid = *x + offset;
                                cols.push(("id".to_owned(), SqlValue::Int(nid)));
                            },
                            _ => {
                                proof {
                                    lemma_first_bad_rule(rules@, *row);
                                }
                                return Err(MergeError::SchemaMismatch { column: "id".to_owned() });
                            },
                        }
                    },
                    None => {
                        proof {
                            lemma_first_bad_rule(rules@, *row);
                        }
                        return Err(MergeError::SchemaMismatch { column: "id".to_owned() });
                    },
                }
            },
            ColumnRule::Provenance => {
                match row.get("id") {
                    Some(v) => {
                        match v {
                            SqlValue::Int(x) => {
                                cols.push(("old_id".to_owned(), SqlValue::Int(*x)));
                            },
                            _ => {
                                proof {
                                    lemma_first_bad_rule(rules@, *row);
                                }
                                return Err(MergeError::SchemaMismatch { column: "id".to_owned() });
                            },
                        }
                    },
                    None => {
                        proof {
                            lemma_first_bad_rule(rules@, *row);
                        }
                        return Err(MergeError::SchemaMismatch { column: "id".to_owned() });
                    },
                }
            },
            ColumnRule::Required { name } => {
                match row.get(name.as_str()) {
                    Some(v) => {
                        let is_null: bool = match v {
                            SqlValue::Null => true,
                            _ => false,
                        };
                        if is_null {
                            proof {
                                lemma_first_bad_rule(rules@, *row);
                            }
                            return Err(MergeError::SchemaMismatch { column: name.clone() });
                        }
                        cols.push((name.clone(), v.clone()));
                    },
                    None => {
                        proof {
                            lemma_first_bad_rule(rules@, *row);
                        }
                        return Err(MergeError::SchemaMismatch { column: name.clone() });
                    },
                }
            },
            ColumnRule::Optional { name } => {
                let v = match row.get(name.as_str()) {
                    Some(v) => v.clone(),
                    None => SqlValue::Null,
                };
                cols.push((name.clone(), v));
            },
            ColumnRule::Defaulted { name, default } => {
                let v = match row.get(name.as_str()) {
                    Some(v) => {
                        match v {
                            SqlValue::Null => default.clone(),
                            other => other.clone(),
                        }
                    },
                    None => default.clone(),
                };
                cols.push((name.clone(), v));
            },
            ColumnRule::BitFlag { name } => {
                let b = match row.get(name.as_str()) {
                    Some(v) => coerce_bit(v),
                    None => None,
                };
                let v = match b {
                    Some(b) => SqlValue::Bool(b),
                    None => SqlValue::Null,
                };
                cols.push((name.clone(), v));
            },
            ColumnRule::BitDefaulted { name } => {
                let b = match row.get(name.as_str()) {
                    Some(v) => coerce_bit(v),
                    None => None,
                };
                let v = match b {
                    Some(b) => SqlValue::Bool(b),
                    None => SqlValue::Bool(false),
                };
                cols.push((name.clone(), v));
            },
            ColumnRule::PlayerRef { name } => {
                match row.get(name.as_str()) {
                    Some(v) => {
                        match v {
                            SqlValue::Int(x) => {
                                let nid = reg.lookup(EntityKind::Player, *x);
                                cols.push((name.clone(), SqlValue::Int(nid)));
                            },
                            _ => {
                                proof {
                                    lemma_first_bad_rule(rules@, *row);
                                }
                                return Err(MergeError::SchemaMismatch { column: name.clone() });
                            },
                        }
                    },
                    None => {
                        proof {
                            lemma_first_bad_rule(rules@, *row);
                        }
                        return Err(MergeError::SchemaMismatch { column: name.clone() });
                    },
                }
            },
        }
        k = k + 1;
    }
    proof {
        lemma_first_bad_rule(rules@, *row);
    }
    Ok(Row { cols })
}

/// The enumerated column list of the account merger: the remapped
/// identifier, its provenance, the two required credential columns, and
/// every further account column with its defaulting and the two bit-column
/// decodes.
pub open spec fn is_account_rules(rules: Seq<ColumnRule>) -> bool {
    &&& rules.len() == 41
    &&& rules[0] is NewId
    &&& rules[1] is Provenance
    &&& (rules[2] matches ColumnRule::Required { name } && name@ == "username"@)
    &&& (rules[3] matches ColumnRule::Required { name } && name@ == "password"@)
    &&& (rules[4] matches ColumnRule::Optional { name } && name@ == "create_time"@)
    &&& (rules[5] matches ColumnRule::Optional { name } && name@ == "update_time"@)
    &&& (rules[6] matches ColumnRule::Defaulted { name, default } && name@ == "ban"@ && default
        == SqlValue::Int(0))
    &&& (rules[7] matches ColumnRule::Defaulted { name, default } && name@ == "point_post"@
        && default == SqlValue::Int(0))
    &&& (rules[8] matches ColumnRule::Defaulted { name, default } && name@ == "last_post"@
        && default == SqlValue::Int(0))
    &&& (rules[9] matches ColumnRule::Defaulted { name, default } && name@ == "role"@ && default
        == SqlValue::Int(-1i64))
    &&& (rules[10] matches ColumnRule::Defaulted { name, default } && name@ == "is_admin"@
        && default == SqlValue::Int(0))
    &&& (rules[11] matches ColumnRule::Optional { name } && name@ == "last_time_login"@)
    &&& (rules[12] matches ColumnRule::Optional { name } && name@ == "last_time_logout"@)
    &&& (rules[13] matches ColumnRule::Optional { name } && name@ == "ip_address"@)
    &&& (rules[14] matches ColumnRule::Defaulted { name, default } && name@ == "active"@ && default
        == SqlValue::Int(0))
    &&& (rules[15] matches ColumnRule::Optional { name } && name@ == "reward"@)
    &&& (rules[16] matches ColumnRule::Defaulted { name, default } && name@ == "thoi_vang"@
        && default == SqlValue::Int(0))
    &&& (rules[17] matches ColumnRule::Defaulted { name, default } && name@ == "server_login"@
        && default == SqlValue::Int(1))
    &&& (rules[18] matches ColumnRule::Defaulted { name, default } && name@ == "new_reg"@
        && default == SqlValue::Int(0))
    &&& (rules[19] matches ColumnRule::Optional { name } && name@ == "ip"@)
    &&& (rules[20] matches ColumnRule::Optional { name } && name@ == "phone"@)
    &&& (rules[21] matches ColumnRule::Optional { name } && name@ == "last_server_change_time"@)
    &&& (rules[22] matches ColumnRule::Defaulted { name, default } && name@ == "ruby"@ && default
        == SqlValue::Int(0))
    &&& (rules[23] matches ColumnRule::Optional { name } && name@ == "count_card"@)
    &&& (rules[24] matches ColumnRule::Optional { name } && name@ == "type_bonus"@)
    &&& (rules[25] matches ColumnRule::Optional { name } && name@ == "ref"@)
    &&& (rules[26] matches ColumnRule::Defaulted { name, default } && name@ == "diemgioithieu"@
        && default == SqlValue::Int(0))
    &&& (rules[27] matches ColumnRule::Defaulted { name, default } && name@ == "vnd_old"@
        && default == SqlValue::Int(0))
    &&& (rules[28] matches ColumnRule::Defaulted { name, default } && name@ == "tongnap_old"@
        && default == SqlValue::Int(0))
    &&& (rules[29] matches ColumnRule::Defaulted { name, default } && name@ == "gioithieu"@
        && default == SqlValue::Int(0))
    &&& (rules[30] matches ColumnRule::Defaulted { name, default } && name@ == "tongnap"@
        && default == SqlValue::Int(0))
    &&& (rules[31] matches ColumnRule::Defaulted { name, default } && name@ == "account_old"@
        && default == SqlValue::Int(0))
    &&& (rules[32] matches ColumnRule::Defaulted { name, default } && name@ == "pointNap"@
        && default == SqlValue::Int(0))
    &&& (rules[33] matches ColumnRule::Defaulted { name, default } && name@ == "vnd"@ && default
        == SqlValue::Int(0))
    &&& (rules[34] matches ColumnRule::Defaulted { name, default } && name@ == "tongnapcu"@
        && default == SqlValue::Int(0))
    &&& (rules[35] matches ColumnRule::BitFlag { name } && name@ == "is_daily"@)
    &&& (rules[36] matches ColumnRule::Optional { name } && name@ == "money"@)
    &&& (rules[37] matches ColumnRule::BitFlag { name } && name@ == "isAdmin"@)
    &&& (rules[38] matches ColumnRule::Optional { name } && name@ == "purchasedGifts"@)
    &&& (rules[39] matches ColumnRule::Optional { name } && name@ == "claimed_accumulate"@)
    &&& (rules[40] matches ColumnRule::Optional { name } && name@ == "ip_address_register"@)
}

/// Builds the account merger's column rules.
pub fn account_rules() -> (r: Vec<ColumnRule>)
    ensures
        is_account_rules(r@),
{
    let mut r: Vec<ColumnRule> = Vec::new();
    r.push(ColumnRule::NewId);
    r.push(ColumnRule::Provenance);
    r.push(ColumnRule::Required { name: "username".to_owned() });
    r.push(ColumnRule::Required { name: "password".to_owned() });
    r.push(ColumnRule::Optional { name: "create_time".to_owned() });
    r.push(ColumnRule::Optional { name: "update_time".to_owned() });
    r.push(ColumnRule::Defaulted { name: "ban".to_owned(), default: SqlValue::Int(0) });
    r.push(ColumnRule::Defaulted { name: "point_post".to_owned(), default: SqlValue::Int(0) });
    r.push(ColumnRule::Defaulted { name: "last_post".to_owned(), default: SqlValue::Int(0) });
    r.push(ColumnRule::Defaulted { name: "role".to_owned(), default: SqlValue::Int(-1) });
    r.push(ColumnRule::Defaulted { name: "is_admin".to_owned(), default: SqlValue::Int(0) });
    r.push(ColumnRule::Optional { name: "last_time_login".to_owned() });
    r.push(ColumnRule::Optional { name: "last_time_logout".to_owned() });
    r.push(ColumnRule::Optional { name: "ip_address".to_owned() });
    r.push(ColumnRule::Defaulted { name: "active".to_owned(), default: SqlValue::Int(0) });
    r.push(ColumnRule::Optional { name: "reward".to_owned() });
    r.push(ColumnRule::Defaulted { name: "thoi_vang".to_owned(), default: SqlValue::Int(0) });
    r.push(ColumnRule::Defaulted { name: "server_login".to_owned(), default: SqlValue::Int(1) });
    r.push(ColumnRule::Defaulted { name: "new_reg".to_owned(), default: SqlValue::Int(0) });
    r.push(ColumnRule::Optional { name: "ip".to_owned() });
    r.push(ColumnRule::Optional { name: "phone".to_owned() });
    r.push(ColumnRule::Optional { name: "last_server_change_time".to_owned() });
    r.push(ColumnRule::Defaulted { name: "ruby".to_owned(), default: SqlValue::Int(0) });
    r.push(ColumnRule::Optional { name: "count_card".to_owned() });
    r.push(ColumnRule::Optional { name: "type_bonus".to_owned() });
    r.push(ColumnRule::Optional { name: "ref".to_owned() });
    r.push(ColumnRule::Defaulted { name: "diemgioithieu".to_owned(), default: SqlValue::Int(0) });
    r.push(ColumnRule::Defaulted { name: "vnd_old".to_owned(), default: SqlValue::Int(0) });
    r.push(ColumnRule::Defaulted { name: "tongnap_old".to_owned(), default: SqlValue::Int(0) });
    r.push(ColumnRule::Defaulted { name: "gioithieu".to_owned(), default: SqlValue::Int(0) });
    r.push(ColumnRule::Defaulted { name: "tongnap".to_owned(), default: SqlValue::Int(0) });
    r.push(ColumnRule::Defaulted { name: "account_old".to_owned(), default: SqlValue::Int(0) });
    r.push(ColumnRule::Defaulted { name: "pointNap".to_owned(), default: SqlValue::Int(0) });
    r.push(ColumnRule::Defaulted { name: "vnd".to_owned(), default: SqlValue::Int(0) });
    r.push(ColumnRule::Defaulted { name: "tongnapcu".to_owned(), default: SqlValue::Int(0) });
    r.push(ColumnRule::BitFlag { name: "is_daily".to_owned() });
    r.push(ColumnRule::Optional { name: "money".to_owned() });
    r.push(ColumnRule::BitFlag { name: "isAdmin".to_owned() });
    r.push(ColumnRule::Optional { name: "purchasedGifts".to_owned() });
    r.push(ColumnRule::Optional { name: "claimed_accumulate".to_owned() });
    r.push(ColumnRule::Optional { name: "ip_address_register".to_owned() });
    proof {
        assert(is_account_rules(r@));
    }
    r
}

/// What the account rule list requires of a source row: an integer
/// identifier and non-null credential columns.
pub open spec fn account_row_ok(row: Row) -> bool {
    &&& row_int_col(row, "id"@) is Some
    &&& row.has_col("username"@) && !(row.col_value("username"@) is Null)
    &&& row.has_col("password"@) && !(row.col_value("password"@) is Null)
}

/// The first column an unfit account row misses, in rule order.
pub open spec fn account_bad_column(row: Row) -> Seq<char> {
    if row_int_col(row, "id"@) is None {
        "id"@
    } else if !(row.has_col("username"@) && !(row.col_value("username"@) is Null)) {
        "username"@
    } else {
        "password"@
    }
}

/// The account rule list fails exactly on rows missing what
/// `account_row_ok` demands, and names the first missing column.
pub proof fn lemma_account_rules_semantics(rules: Seq<ColumnRule>, row: Row)
    requires
        is_account_rules(rules),
    ensures
        rules_ok(rules, row) == account_row_ok(row),
        !account_row_ok(row) ==> rule_error_column(rules[first_bad_rule(rules, row)])
            == account_bad_column(row),
{
    lemma_first_bad_rule(rules, row);
    if account_row_ok(row) {
        assert forall|k: int| 0 <= k < rules.len() implies rule_ok(#[trigger] rules[k], row) by {}
    } else {
        let b = first_bad_rule(rules, row);
        if row_int_col(row, "id"@) is None {
            assert(!rule_ok(rules[0], row));
            assert(b == 0);
        } else if !(row.has_col("username"@) && !(row.col_value("username"@) is Null)) {
            assert(rule_ok(rules[0], row) && rule_ok(rules[1], row));
            assert(!rule_ok(rules[2], row));
            assert(b == 2);
        } else {
            assert(rule_ok(rules[0], row) && rule_ok(rules[1], row) && rule_ok(rules[2], row));
            assert(!rule_ok(rules[3], row));
            assert(b == 3);
        }
    }
}

/// What the gift-code-history rule list requires of a source row.
pub open spec fn gift_row_ok(row: Row) -> bool {
    &&& row_int_col(row, "player_id"@) is Some
    &&& row.has_col("gift_code_id"@) && !(row.col_value("gift_code_id"@) is Null)
    &&& row.has_col("code"@) && !(row.col_value("code"@) is Null)
}

/// The first column an unfit gift-code-history row misses, in rule order.
pub open spec fn gift_bad_column(row: Row) -> Seq<char> {
    if row_int_col(row, "player_id"@) is None {
        "player_id"@
    } else if !(row.has_col("gift_code_id"@) && !(row.col_value("gift_code_id"@) is Null)) {
        "gift_code_id"@
    } else {
        "code"@
    }
}

/// The gift-code-history rule list fails exactly on rows missing what
/// `gift_row_ok` demands, and names the first missing column.
pub proof fn lemma_gift_rules_semantics(rules: Seq<ColumnRule>, row: Row)
    requires
        is_gift_rules(rules),
    ensures
        rules_ok(rules, row) == gift_row_ok(row),
        !gift_row_ok(row) ==> rule_error_column(rules[first_bad_rule(rules, row)])
            == gift_bad_column(row),
{
    lemma_first_bad_rule(rules, row);
    if gift_row_ok(row) {
        assert forall|k: int| 0 <= k < rules.len() implies rule_ok(#[trigger] rules[k], row) by {}
    } else {
        let b = first_bad_rule(rules, row);
        if row_int_col(row, "player_id"@) is None {
            assert(!rule_ok(rules[0], row));
            assert(b == 0);
        } else if !(row.has_col("gift_code_id"@) && !(row.col_value("gift_code_id"@) is Null)) {
            assert(rule_ok(rules[0], row));
            assert(!rule_ok(rules[1], row));
            assert(b == 1);
        } else {
            assert(rule_ok(rules[0], row) && rule_ok(rules[1], row));
            assert(!rule_ok(rules[2], row));
            assert(b == 2);
        }
    }
}

/// What the player-vip rule list requires of a source row.
pub open spec fn vip_row_ok(row: Row) -> bool {
    row_int_col(row, "player_id"@) is Some
}

/// The player-vip rule list fails exactly on rows without an integer player
/// reference, naming that column.
pub proof fn lemma_vip_rules_semantics(rules: Seq<ColumnRule>, row: Row)
    requires
        is_vip_rules(rules),
    ensures
        rules_ok(rules, row) == vip_row_ok(row),
        !vip_row_ok(row) ==> rule_error_column(rules[first_bad_rule(rules, row)]) == "player_id"@,
{
    lemma_first_bad_rule(rules, row);
    if vip_row_ok(row) {
        assert forall|k: int| 0 <= k < rules.len() implies rule_ok(#[trigger] rules[k], row) by {}
    } else {
        assert(!rule_ok(rules[0], row));
        assert(first_bad_rule(rules, row) == 0);
    }
}

/// The value a rule emits does not depend on the player mapping unless the
/// rule consults it.
pub proof fn lemma_rule_value_map_independent(
    rule: ColumnRule,
    row: Row,
    m1: Map<i64, i64>,
    m2: Map<i64, i64>,
    offset: i64,
)
    requires
        !(rule is PlayerRef),
    ensures
        rule_value(rule, row, m1, offset) == rule_value(rule, row, m2, offset),
{
}

/// An integer value offset by the configured amount; any other value passes
/// through, as arithmetic on null does in the store.
pub open spec fn offset_int(v: SqlValue, offset: i64) -> SqlValue {
    match v {
        SqlValue::Int(x) => SqlValue::Int((x + offset) as i64),
        _ => v,
    }
}

/// What the bulk strategy does to one player column, by name: the identifier
/// and the account reference are offset, the clan reference is offset under
/// the sentinel guard, the provenance column takes the row's pre-merge
/// identifier, and every other column passes through.
pub open spec fn player_pair_value(
    n: Seq<char>,
    v: SqlValue,
    id: i64,
    offset: i64,
    clan_col: Seq<char>,
) -> SqlValue {
    if n == "id"@ {
        offset_int(v, offset)
    } else if n == "old_id"@ {
        SqlValue::Int(id)
    } else if n == "account_id"@ {
        offset_int(v, offset)
    } else if n == clan_col {
        match v {
            SqlValue::Int(c) => if c == crate::rewrite::NO_RELATION {
                v
            } else {
                SqlValue::Int((c + offset) as i64)
            },
            _ => v,
        }
    } else {
        v
    }
}

/// Whether every integer the bulk player transform offsets stays within
/// machine range.
pub open spec fn player_offsets_fit(row: Row, offset: i64, clan_col: Seq<char>) -> bool {
    forall|k: int|
        0 <= k < row.cols@.len() ==> {
            let n = (#[trigger] row.cols@[k]).0@;
            match row.cols@[k].1 {
                SqlValue::Int(x) => ((n == "id"@ || n == "account_id"@) ==> i64::MIN <= x + offset
                    <= i64::MAX) && ((n == clan_col && x != crate::rewrite::NO_RELATION)
                    ==> i64::MIN <= x + offset <= i64::MAX),
                _ => true,
            }
        }
}

/// Transforms one player row by the catalog-driven bulk strategy: every
/// column adjusted by name per `player_pair_value`, in place, and the
/// provenance column appended when the row did not already carry one. The
/// caller passes the row's pre-merge identifier, already consulted for
/// mapping generation.
pub fn bulk_player_row(row: Row, id: i64, offset: i64, clan_col: &str) -> (out: Row)
    requires
        player_offsets_fit(row, offset, clan_col@),
    ensures
        out.cols@.len() == row.cols@.len() + (if row.has_col("old_id"@) {
            0int
        } else {
            1
        }),
        forall|k: int|
            0 <= k < row.cols@.len() ==> (#[trigger] out.cols@[k]).0 == row.cols@[k].0
                && out.cols@[k].1 == player_pair_value(
                row.cols@[k].0@,
                row.cols@[k].1,
                id,
                offset,
                clan_col@,
            ),
        !row.has_col("old_id"@) ==> out.cols@[row.cols@.len() as int].0@ == "old_id"@
            && out.cols@[row.cols@.len() as int].1 == SqlValue::Int(id),
{
    let ghost orig = row.cols@;
    let mut rest = row.cols;
    let mut cols: Vec<(String, SqlValue)> = Vec::new();
    let mut found_old: bool = false;
    while rest.len() > 0
        invariant
            orig == row.cols@,
            forall|k: int|
                0 <= k < orig.len() ==> {
                    let n = (#[trigger] orig[k]).0@;
                    match orig[k].1 {
                        SqlValue::Int(x) => ((n == "id"@ || n == "account_id"@) ==> i64::MIN <= x
                            + offset <= i64::MAX) && ((n == clan_col@ && x
                            != crate::rewrite::NO_RELATION) ==> i64::MIN <= x + offset
                            <= i64::MAX),
                        _ => true,
                    }
                },
            cols@.len() + rest@.len() == orig.len(),
            rest@ == orig.skip(cols@.len() as int),
            forall|k: int|
                0 <= k < cols@.len() ==> (#[trigger] cols@[k]).0 == orig[k].0 && cols@[k].1
                    == player_pair_value(orig[k].0@, orig[k].1, id, offset, clan_col@),
            found_old <==> exists|j: int|
                0 <= j < cols@.len() && (#[trigger] cols@[j]).0@ == "old_id"@,
        decreases rest@.len(),
    {
        let ghost k = cols@.len() as int;
        let pair = rest.remove(0);
        proof {
            assert(pair == orig[k]);
            assert(rest@ =~= orig.skip(k + 1));
        }
        let (n, v) = pair;
        let is_id = crate::value::str_eq(n.as_str(), "id");
        let is_old = crate::value::str_eq(n.as_str(), "old_id");
        let is_acc = crate::value::str_eq(n.as_str(), "account_id");
        let is_clan = crate::value::str_eq(n.as_str(), clan_col);
        let nv: SqlValue = if is_id {
            match v {
                SqlValue::Int(x) => SqlValue::Int(x + offset),
                other => other,
            }
        } else if is_old {
            SqlValue::Int(id)
        } else if is_acc {
            match v {
                SqlValue::Int(x) => SqlValue::Int(x + offset),
                other => other,
            }
        } else if is_clan {
            match v {
                SqlValue::Int(c) => {
                    if c == crate::rewrite::NO_RELATION {
                        SqlValue::Int(c)
                    } else {
                        SqlValue::Int(c + offset)
                    }
                },
                other => other,
            }
        } else {
            v
        };
        if is_old {
            found_old = true;
        }
        let ghost prev_cols = cols@;
        cols.push((n, nv));
        proof {
            assert(cols@[k].1 == player_pair_value(orig[k].0@, orig[k].1, id, offset, clan_col@));
            if is_old {
                assert(cols@[k].0@ == "old_id"@);
            } else if found_old {
                let j = choose|j: int|
                    0 <= j < prev_cols.len() && (#[trigger] prev_cols[j]).0@ == "old_id"@;
                assert(cols@[j].0@ == "old_id"@);
            } else {
                assert forall|j: int| 0 <= j < cols@.len() implies (#[trigger] cols@[j]).0@
                    != "old_id"@ by {
                    if j < k {
                        assert(prev_cols[j] == cols@[j]);
                    } else {
                        assert(cols@[j].0 == n);
                    }
                }
            }
        }
    }
    if !found_old {
        proof {
            crate::value::lemma_col_first_index(orig, "old_id"@);
            assert(orig.skip(0) =~= orig);
            if col_first_index(orig, "old_id"@) != -1 {
                let j = col_first_index(orig, "old_id"@);
                assert(cols@[j].0 == orig[j].0);
            }
        }
        cols.push(("old_id".to_owned(), SqlValue::Int(id)));
    } else {
        proof {
            let j = choose|j: int| 0 <= j < cols@.len() && (#[trigger] cols@[j]).0@ == "old_id"@;
            crate::value::lemma_col_first_index(orig, "old_id"@);
            if col_first_index(orig, "old_id"@) == -1 {
                assert(orig[j].0@ != "old_id"@);
            }
        }
    }
    Row { cols }
}

/// Whether a clan row's member array calls for rewriting: a `members` value
/// holding non-empty text.
pub open spec fn members_needs_rewrite(n: Seq<char>, v: SqlValue) -> bool {
    n == "members"@ && (v matches SqlValue::Text(s) && s@.len() > 0)
}

/// Whether rewriting a member-array text fails: it is not a JSON array, or
/// one of its string elements does not hold a serialized object.
pub open spec fn members_rewrite_fails(s: Seq<char>) -> bool {
    match crate::json::parsed_json(s) {
        Some(v) => !(v matches crate::json::JsonValue::Arr(elems)
            && crate::rewrite::decode_ok(elems@)),
        None => true,
    }
}

/// What the bulk strategy does to one clan column, by name: the identifier
/// is offset, a non-empty member array is rewritten against the player
/// mapping, and every other column passes through. The clan table carries no
/// provenance column.
pub open spec fn clan_pair_rel(
    n: Seq<char>,
    v: SqlValue,
    m: Map<i64, i64>,
    offset: i64,
    nv: SqlValue,
) -> bool {
    if n == "id"@ {
        nv == offset_int(v, offset)
    } else if members_needs_rewrite(n, v) {
        match v {
            SqlValue::Text(s) => {
                &&& !members_rewrite_fails(s@)
                &&& (nv matches SqlValue::Text(t) && (crate::json::parsed_json(s@)
                    matches Some(crate::json::JsonValue::Arr(elems))
                    && crate::rewrite::array_rewrite_output(elems@, m, t@)))
            },
            _ => false,
        }
    } else {
        nv == v
    }
}

/// Whether every integer the bulk clan transform offsets stays within
/// machine range.
pub open spec fn clan_offsets_fit(row: Row, offset: i64) -> bool {
    forall|k: int|
        0 <= k < row.cols@.len() ==> {
            let n = (#[trigger] row.cols@[k]).0@;
            match row.cols@[k].1 {
                SqlValue::Int(x) => n == "id"@ ==> i64::MIN <= x + offset <= i64::MAX,
                _ => true,
            }
        }
}

/// Transforms one clan row by the catalog-driven bulk strategy: every column
/// adjusted by name per `clan_pair_rel`, in place. Fails with
/// `MalformedReference` exactly when a member array that calls for
/// rewriting cannot be rewritten.
pub fn bulk_clan_row(row: Row, offset: i64, reg: &MappingRegistry) -> (r: Result<Row, MergeError>)
    requires
        clan_offsets_fit(row, offset),
    ensures
        match r {
            Ok(out) => {
                &&& out.cols@.len() == row.cols@.len()
                &&& forall|k: int|
                    0 <= k < row.cols@.len() ==> (#[trigger] out.cols@[k]).0 == row.cols@[k].0
                        && clan_pair_rel(
                        row.cols@[k].0@,
                        row.cols@[k].1,
                        reg.map_of(EntityKind::Player),
                        offset,
                        out.cols@[k].1,
                    )
            },
            Err(e) => {
                &&& e == MergeError::MalformedReference
                &&& exists|k: int|
                    0 <= k < row.cols@.len() && members_needs_rewrite(
                        (#[trigger] row.cols@[k]).0@,
                        row.cols@[k].1,
                    ) && (row.cols@[k].1 matches SqlValue::Text(s) && members_rewrite_fails(s@))
            },
        },
{
    let ghost orig = row.cols@;
    let ghost m = reg.map_of(EntityKind::Player);
    let mut rest = row.cols;
    let mut cols: Vec<(String, SqlValue)> = Vec::new();
    while rest.len() > 0
        invariant
            orig == row.cols@,
            m == reg.map_of(EntityKind::Player),
            forall|k: int|
                0 <= k < orig.len() ==> {
                    let n = (#[trigger] orig[k]).0@;
                    match orig[k].1 {
                        SqlValue::Int(x) => n == "id"@ ==> i64::MIN <= x + offset <= i64::MAX,
                        _ => true,
                    }
                },
            cols@.len() + rest@.len() == orig.len(),
            rest@ == orig.skip(cols@.len() as int),
            forall|k: int|
                0 <= k < cols@.len() ==> (#[trigger] cols@[k]).0 == orig[k].0 && clan_pair_rel(
                    orig[k].0@,
                    orig[k].1,
                    m,
                    offset,
                    cols@[k].1,
                ),
        decreases rest@.len(),
    {
        let ghost k = cols@.len() as int;
        let pair = rest.remove(0);
        proof {
            assert(pair == orig[k]);
            assert(rest@ =~= orig.skip(k + 1));
        }
        let (n, v) = pair;
        let is_id = crate::value::str_eq(n.as_str(), "id");
        let is_members = crate::value::str_eq(n.as_str(), "members");
        let nv: SqlValue = if is_id {
            match v {
                SqlValue::Int(x) => SqlValue::Int(x + offset),
                other => other,
            }
        } else if is_members {
            match v {
                SqlValue::Text(s) => {
                    if s.as_str().is_empty() {
                        SqlValue::Text(s)
                    } else {
                        match crate::rewrite::rewrite_embedded_array(s.as_str(), reg) {
                            Ok(t) => SqlValue::Text(t),
                            Err(e) => {
                                proof {
                                    assert(members_needs_rewrite(orig[k].0@, orig[k].1));
                                }
                                return Err(e);
                            },
                        }
                    }
                },
                other => other,
            }
        } else {
            v
        };
        cols.push((n, nv));
        proof {
            assert(clan_pair_rel(orig[k].0@, orig[k].1, m, offset, cols@[k].1));
        }
    }
    Ok(Row { cols })
}

/// The enumerated column list of the gift-code-history merger: the player
/// reference mapped, the code columns copied, the clone type defaulted.
pub open spec fn is_gift_rules(rules: Seq<ColumnRule>) -> bool {
    &&& rules.len() == 5
    &&& (rules[0] matches ColumnRule::PlayerRef { name } && name@ == "player_id"@)
    &&& (rules[1] matches ColumnRule::Required { name } && name@ == "gift_code_id"@)
    &&& (rules[2] matches ColumnRule::Required { name } && name@ == "code"@)
    &&& (rules[3] matches ColumnRule::Defaulted { name, default } && name@ == "type_clone"@
        && default == SqlValue::Int(-1i64))
    &&& (rules[4] matches ColumnRule::Optional { name } && name@ == "created_at"@)
}

/// Builds the gift-code-history merger's column rules.
pub fn gift_history_rules() -> (r: Vec<ColumnRule>)
    ensures
        is_gift_rules(r@),
{
    let mut r: Vec<ColumnRule> = Vec::new();
    r.push(ColumnRule::PlayerRef { name: "player_id".to_owned() });
    r.push(ColumnRule::Required { name: "gift_code_id".to_owned() });
    r.push(ColumnRule::Required { name: "code".to_owned() });
    r.push(ColumnRule::Defaulted { name: "type_clone".to_owned(), default: SqlValue::Int(-1) });
    r.push(ColumnRule::Optional { name: "created_at".to_owned() });
    proof {
        assert(is_gift_rules(r@));
    }
    r
}

/// The enumerated column list of the auxiliary player-vip merger: the player
/// reference mapped, the two vip flags decoded with a false default.
pub open spec fn is_vip_rules(rules: Seq<ColumnRule>) -> bool {
    &&& rules.len() == 3
    &&& (rules[0] matches ColumnRule::PlayerRef { name } && name@ == "player_id"@)
    &&& (rules[1] matches ColumnRule::BitDefaulted { name } && name@ == "vip_1"@)
    &&& (rules[2] matches ColumnRule::BitDefaulted { name } && name@ == "vip_2"@)
}

/// Builds the auxiliary player-vip merger's column rules.
pub fn player_vip_rules() -> (r: Vec<ColumnRule>)
    ensures
        is_vip_rules(r@),
{
    let mut r: Vec<ColumnRule> = Vec::new();
    r.push(ColumnRule::PlayerRef { name: "player_id".to_owned() });
    r.push(ColumnRule::BitDefaulted { name: "vip_1".to_owned() });
    r.push(ColumnRule::BitDefaulted { name: "vip_2".to_owned() });
    proof {
        assert(is_vip_rules(r@));
    }
    r
}

} // verus!
