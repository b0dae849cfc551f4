use dbmerge::audit::find_orphans;
use dbmerge::value::{Row, SqlValue};

fn row(cols: Vec<(&str, SqlValue)>) -> Row {
    Row { cols: cols.into_iter().map(|(n, v)| (n.to_string(), v)).collect() }
}

fn account(id: i64) -> Row {
    row(vec![("id", SqlValue::Int(id))])
}

fn player(id: i64, name: &str, account_id: i64) -> Row {
    row(vec![
        ("id", SqlValue::Int(id)),
        ("name", SqlValue::Text(name.to_string())),
        ("account_id", SqlValue::Int(account_id)),
    ])
}

#[test]
fn an_orphan_is_reported_exactly_once() {
    let accounts = vec![account(1), account(2)];
    let players = vec![
        player(10, "ok-one", 1),
        player(11, "lost", 99),
        player(12, "ok-two", 2),
    ];
    let report = find_orphans(&players, &accounts);
    assert_eq!(report.total, 1);
    assert_eq!(report.sample.len(), 1);
    assert_eq!(report.sample[0].player_id, SqlValue::Int(11));
    assert_eq!(report.sample[0].player_name, SqlValue::Text("lost".to_string()));
    assert_eq!(report.sample[0].account_id, SqlValue::Int(99));
}

#[test]
fn no_orphans_means_an_empty_report() {
    let accounts = vec![account(1)];
    let players = vec![player(10, "a", 1), player(11, "b", 1)];
    let report = find_orphans(&players, &accounts);
    assert_eq!(report.total, 0);
    assert!(report.sample.is_empty());
}

#[test]
fn the_sample_is_capped_but_the_total_is_exact() {
    let accounts = vec![account(1)];
    let mut players = Vec::new();
    for i in 0..25 {
        players.push(player(100 + i, "orphan", 50 + i));
    }
    let report = find_orphans(&players, &accounts);
    assert_eq!(report.total, 25);
    assert_eq!(report.sample.len(), 20);
    // The sample holds the first orphans, in row order.
    assert_eq!(report.sample[0].player_id, SqlValue::Int(100));
    assert_eq!(report.sample[19].player_id, SqlValue::Int(119));
}

#[test]
fn null_references_count_as_orphans() {
    let accounts = vec![account(1)];
    let players = vec![row(vec![
        ("id", SqlValue::Int(10)),
        ("name", SqlValue::Text("nullref".to_string())),
        ("account_id", SqlValue::Null),
    ])];
    let report = find_orphans(&players, &accounts);
    assert_eq!(report.total, 1);
    assert_eq!(report.sample[0].account_id, SqlValue::Null);
}

#[test]
fn committed_scenario_after_a_merge() {
    // A committed player row whose account reference matches no committed
    // account row is the audit's one finding.
    let accounts = vec![account(1005)];
    let players = vec![player(2005, "migrated", 1005), player(2006, "dangling", 1042)];
    let report = find_orphans(&players, &accounts);
    assert_eq!(report.total, 1);
    assert_eq!(report.sample.len(), 1);
    assert_eq!(report.sample[0].player_id, SqlValue::Int(2006));
}
