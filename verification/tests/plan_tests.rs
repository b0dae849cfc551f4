use dbmerge::error::MergeError;
use dbmerge::mapping::EntityKind;
use dbmerge::orchestrator::{plan_merge, MergeSettings, SourceSnapshot};
use dbmerge::value::{Row, SqlValue};

fn row(cols: Vec<(&str, SqlValue)>) -> Row {
    Row { cols: cols.into_iter().map(|(n, v)| (n.to_string(), v)).collect() }
}

fn get(r: &Row, name: &str) -> SqlValue {
    match r.get(name) {
        Some(SqlValue::Null) => SqlValue::Null,
        Some(SqlValue::Int(x)) => SqlValue::Int(*x),
        Some(SqlValue::Uint(x)) => SqlValue::Uint(*x),
        Some(SqlValue::Bool(b)) => SqlValue::Bool(*b),
        Some(SqlValue::Text(s)) => SqlValue::Text(s.clone()),
        Some(SqlValue::Bytes(b)) => SqlValue::Bytes(b.clone()),
        Some(SqlValue::Temporal(s)) => SqlValue::Temporal(s.clone()),
        Some(SqlValue::Decimal(s)) => SqlValue::Decimal(s.clone()),
        None => panic!("column {} missing", name),
    }
}

fn scenario_snapshot() -> SourceSnapshot {
    let account = row(vec![
        ("id", SqlValue::Int(5)),
        ("username", SqlValue::Text("hero".to_string())),
        ("password", SqlValue::Text("SECRET-REDACTED".to_string())),
        ("ban", SqlValue::Int(0)),
        ("is_daily", SqlValue::Bytes(vec![1])),
    ]);
    let player = row(vec![
        ("id", SqlValue::Int(5)),
        ("account_id", SqlValue::Int(5)),
        ("name", SqlValue::Text("hero".to_string())),
        ("clan_id_sv4", SqlValue::Int(3)),
    ]);
    let clan = row(vec![
        ("id", SqlValue::Int(3)),
        ("members", SqlValue::Text(r#"[{"id":5}]"#.to_string())),
    ]);
    let gift = row(vec![
        ("id", SqlValue::Int(77)),
        ("player_id", SqlValue::Int(5)),
        ("gift_code_id", SqlValue::Int(9)),
        ("code", SqlValue::Text("WELCOME".to_string())),
    ]);
    let vip = row(vec![
        ("player_id", SqlValue::Int(5)),
        ("vip_1", SqlValue::Int(1)),
    ]);
    SourceSnapshot {
        accounts: vec![account],
        players: vec![player],
        clans: vec![clan],
        gift_histories: vec![gift],
        player_vips: Some(vec![vip]),
        account_old_id_present: false,
        player_old_id_present: true,
    }
}

fn settings(dry_run: bool) -> MergeSettings {
    MergeSettings { id_offset: 1000, target_server: 4, dry_run }
}

#[test]
fn end_to_end_scenario() {
    let plan = plan_merge(scenario_snapshot(), settings(false)).unwrap();

    // Account id=5 with offset 1000 becomes id=1005, old_id=5.
    let a = &plan.account_rows[0];
    assert_eq!(get(a, "id"), SqlValue::Int(1005));
    assert_eq!(get(a, "old_id"), SqlValue::Int(5));
    assert_eq!(get(a, "username"), SqlValue::Text("hero".to_string()));
    // Enumerated defaults land for columns the source row lacked.
    assert_eq!(get(a, "role"), SqlValue::Int(-1));
    assert_eq!(get(a, "server_login"), SqlValue::Int(1));
    assert_eq!(get(a, "create_time"), SqlValue::Null);
    // The bit column decodes to a boolean.
    assert_eq!(get(a, "is_daily"), SqlValue::Bool(true));
    assert_eq!(get(a, "isAdmin"), SqlValue::Null);
    assert_eq!(a.cols.len(), 41);

    // Player id=5, account_id=5, clan_id_sv4=3 becomes 1005/1005/1003.
    let p = &plan.player_rows[0];
    assert_eq!(get(p, "id"), SqlValue::Int(1005));
    assert_eq!(get(p, "account_id"), SqlValue::Int(1005));
    assert_eq!(get(p, "clan_id_sv4"), SqlValue::Int(1003));
    assert_eq!(get(p, "old_id"), SqlValue::Int(5));
    assert_eq!(get(p, "name"), SqlValue::Text("hero".to_string()));

    // Clan id=3 becomes 1003 and its member entry now references 1005,
    // in the same encoding it arrived in.
    let c = &plan.clan_rows[0];
    assert_eq!(get(c, "id"), SqlValue::Int(1003));
    assert_eq!(get(c, "members"), SqlValue::Text(r#"[{"id":1005}]"#.to_string()));

    // Gift history and vip rows follow the player mapping.
    let g = &plan.gift_rows[0];
    assert_eq!(get(g, "player_id"), SqlValue::Int(1005));
    assert_eq!(get(g, "gift_code_id"), SqlValue::Int(9));
    assert_eq!(get(g, "type_clone"), SqlValue::Int(-1));
    assert_eq!(get(g, "created_at"), SqlValue::Null);
    let v = &plan.vip_rows[0];
    assert_eq!(get(v, "player_id"), SqlValue::Int(1005));
    assert_eq!(get(v, "vip_1"), SqlValue::Bool(true));
    assert_eq!(get(v, "vip_2"), SqlValue::Bool(false));

    // Provenance plans: account column absent, player column present.
    assert!(plan.account_provenance.create_reported);
    assert!(plan.account_provenance.issue_change);
    assert!(!plan.player_provenance.create_reported);
    assert!(!plan.player_provenance.issue_change);

    // The registry maps every remapped identifier.
    assert_eq!(plan.registry.lookup(EntityKind::Account, 5), 1005);
    assert_eq!(plan.registry.lookup(EntityKind::Player, 5), 1005);
    assert_eq!(plan.registry.lookup(EntityKind::Clan, 3), 1003);
}

#[test]
fn dry_run_plans_no_writes_but_full_mappings() {
    let dry = plan_merge(scenario_snapshot(), settings(true)).unwrap();
    assert!(dry.account_rows.is_empty());
    assert!(dry.player_rows.is_empty());
    assert!(dry.clan_rows.is_empty());
    assert!(dry.gift_rows.is_empty());
    assert!(dry.vip_rows.is_empty());
    // No schema change is issued, though the absence is still reported.
    assert!(dry.account_provenance.create_reported);
    assert!(!dry.account_provenance.issue_change);

    // The registry is populated exactly as in a live run.
    let live = plan_merge(scenario_snapshot(), settings(false)).unwrap();
    for id in [5i64, 3, 99, -1] {
        for kind in [EntityKind::Account, EntityKind::Player, EntityKind::Clan] {
            assert_eq!(dry.registry.lookup(kind, id), live.registry.lookup(kind, id));
        }
    }
}

#[test]
fn missing_identifier_aborts() {
    let mut s = scenario_snapshot();
    s.accounts = vec![row(vec![("username", SqlValue::Text("x".to_string()))])];
    let err = plan_merge(s, settings(false)).unwrap_err();
    assert_eq!(err, MergeError::SchemaMismatch { column: "id".to_string() });
}

#[test]
fn duplicate_identifiers_abort() {
    let mut s = scenario_snapshot();
    let dup = || {
        row(vec![
            ("id", SqlValue::Int(8)),
            ("username", SqlValue::Text("a".to_string())),
            ("password", SqlValue::Text("SECRET-REDACTED".to_string())),
        ])
    };
    s.accounts = vec![dup(), dup()];
    let err = plan_merge(s, settings(false)).unwrap_err();
    assert_eq!(
        err,
        MergeError::DuplicateIdentifier { kind: EntityKind::Account, id: 8 }
    );
}

#[test]
fn malformed_members_abort_live_runs_only() {
    let mut s = scenario_snapshot();
    s.clans = vec![row(vec![
        ("id", SqlValue::Int(3)),
        ("members", SqlValue::Text("not json".to_string())),
    ])];
    let err = plan_merge(s, settings(false)).unwrap_err();
    assert_eq!(err, MergeError::MalformedReference);

    let mut s2 = scenario_snapshot();
    s2.clans = vec![row(vec![
        ("id", SqlValue::Int(3)),
        ("members", SqlValue::Text("not json".to_string())),
    ])];
    // A dry run never parses member arrays; it still computes the mappings.
    let dry = plan_merge(s2, settings(true)).unwrap();
    assert_eq!(dry.registry.lookup(EntityKind::Clan, 3), 1003);
}

#[test]
fn missing_required_account_column_aborts_live() {
    let mut s = scenario_snapshot();
    s.accounts = vec![row(vec![("id", SqlValue::Int(5))])];
    let err = plan_merge(s, settings(false)).unwrap_err();
    assert_eq!(err, MergeError::SchemaMismatch { column: "username".to_string() });
}

#[test]
fn dry_run_still_checks_player_references() {
    let mut s = scenario_snapshot();
    s.gift_histories = vec![row(vec![("code", SqlValue::Text("X".to_string()))])];
    let err = plan_merge(s, settings(true)).unwrap_err();
    assert_eq!(err, MergeError::SchemaMismatch { column: "player_id".to_string() });
}

#[test]
fn an_empty_source_store_plans_an_empty_merge() {
    let s = SourceSnapshot {
        accounts: vec![],
        players: vec![],
        clans: vec![],
        gift_histories: vec![],
        player_vips: None,
        account_old_id_present: true,
        player_old_id_present: true,
    };
    let plan = plan_merge(s, settings(false)).unwrap();
    assert!(plan.account_rows.is_empty());
    assert!(plan.player_rows.is_empty());
    assert!(plan.clan_rows.is_empty());
    assert!(plan.gift_rows.is_empty());
    assert!(plan.vip_rows.is_empty());
    assert_eq!(plan.registry.lookup(EntityKind::Account, 1), 1);
}

#[test]
fn absent_auxiliary_table_is_skipped() {
    let mut s = scenario_snapshot();
    s.player_vips = None;
    let plan = plan_merge(s, settings(false)).unwrap();
    assert!(plan.vip_rows.is_empty());
}

#[test]
fn empty_members_text_is_left_alone() {
    let mut s = scenario_snapshot();
    s.clans = vec![row(vec![
        ("id", SqlValue::Int(3)),
        ("members", SqlValue::Text(String::new())),
    ])];
    let plan = plan_merge(s, settings(false)).unwrap();
    assert_eq!(get(&plan.clan_rows[0], "members"), SqlValue::Text(String::new()));
}

#[test]
fn null_and_sentinel_player_references_are_kept() {
    let mut s = scenario_snapshot();
    s.players = vec![
        row(vec![
            ("id", SqlValue::Int(5)),
            ("account_id", SqlValue::Null),
            ("clan_id_sv4", SqlValue::Int(-1)),
        ]),
    ];
    let plan = plan_merge(s, settings(false)).unwrap();
    let p = &plan.player_rows[0];
    assert_eq!(get(p, "account_id"), SqlValue::Null);
    assert_eq!(get(p, "clan_id_sv4"), SqlValue::Int(-1));
    assert_eq!(get(p, "id"), SqlValue::Int(1005));
}
