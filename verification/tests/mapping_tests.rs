use dbmerge::error::MergeError;
use dbmerge::mapping::{EntityKind, MappingRegistry};

#[test]
fn generated_ids_map_to_offset() {
    let mut reg = MappingRegistry::new();
    let ids = vec![1i64, 5, 42];
    reg.generate(EntityKind::Account, &ids, 1000).unwrap();
    assert_eq!(reg.lookup(EntityKind::Account, 1), 1001);
    assert_eq!(reg.lookup(EntityKind::Account, 5), 1005);
    assert_eq!(reg.lookup(EntityKind::Account, 42), 1042);
}

#[test]
fn lookup_misses_pass_through() {
    let mut reg = MappingRegistry::new();
    let ids = vec![1i64, 2, 3];
    reg.generate(EntityKind::Player, &ids, 500).unwrap();
    assert_eq!(reg.lookup(EntityKind::Player, 99), 99);
    assert_eq!(reg.lookup(EntityKind::Player, -7), -7);
    // Another kind's table is untouched.
    assert_eq!(reg.lookup(EntityKind::Clan, 1), 1);
}

#[test]
fn sentinel_is_never_offset() {
    let mut reg = MappingRegistry::new();
    // A mapping that would even move -1 itself, were it consulted.
    let ids = vec![-1i64, 3];
    reg.generate(EntityKind::Clan, &ids, 1000).unwrap();
    assert_eq!(reg.lookup_or_sentinel(EntityKind::Clan, -1, -1), -1);
    assert_eq!(reg.lookup_or_sentinel(EntityKind::Clan, 3, -1), 1003);
    assert_eq!(reg.lookup_or_sentinel(EntityKind::Clan, 8, -1), 8);
}

#[test]
fn duplicate_identifiers_are_refused() {
    let mut reg = MappingRegistry::new();
    let ids = vec![1i64, 2, 1];
    let err = reg.generate(EntityKind::Account, &ids, 10).unwrap_err();
    match err {
        MergeError::DuplicateIdentifier { kind, id } => {
            assert_eq!(kind, EntityKind::Account);
            assert_eq!(id, 1);
        },
        other => panic!("unexpected error: {:?}", other),
    }
    // The failed generation left the registry unchanged.
    assert_eq!(reg.lookup(EntityKind::Account, 1), 1);
}

#[test]
fn regeneration_replaces_the_table() {
    let mut reg = MappingRegistry::new();
    reg.generate(EntityKind::Player, &vec![1i64], 100).unwrap();
    reg.generate(EntityKind::Player, &vec![2i64], 200).unwrap();
    assert_eq!(reg.lookup(EntityKind::Player, 1), 1);
    assert_eq!(reg.lookup(EntityKind::Player, 2), 202);
}

#[test]
fn negative_offsets_work() {
    let mut reg = MappingRegistry::new();
    reg.generate(EntityKind::Account, &vec![1000i64, 2000], -500).unwrap();
    assert_eq!(reg.lookup(EntityKind::Account, 1000), 500);
    assert_eq!(reg.lookup(EntityKind::Account, 2000), 1500);
}
