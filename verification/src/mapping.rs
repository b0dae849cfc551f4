//! Identifier remapping: one bijective old-identifier to new-identifier table
//! per entity kind.
//!
//! Mapping generation assigns `new_id = old_id + offset` to every identifier
//! of a source entity, refusing duplicate inputs. Lookups pass unknown
//! identifiers through unchanged, so rows already resident in the target
//! store are never remapped, and a reserved sentinel value is never offset.

use vstd::prelude::*;
use std::collections::HashMap;
use crate::error::MergeError;

verus! {

broadcast use vstd::std_specs::hash::group_hash_axioms;

/// One logical row type of the two stores.
#[derive(Debug, Clone, Copy, PartialEq, Eq, Structural)]
pub enum EntityKind {
    Account,
    Player,
    Clan,
    GiftCodeHistory,
    PlayerVip,
}

/// What a lookup returns: the mapped identifier if present, the identifier
/// itself otherwise (pass-through for rows outside the merge scope).
pub open spec fn lookup_spec(m: Map<i64, i64>, old_id: i64) -> i64 {
    if m.contains_key(old_id) {
        m[old_id]
    } else {
        old_id
    }
}

/// As `lookup_spec`, except that the sentinel value is returned unchanged
/// without consulting the mapping.
pub open spec fn lookup_or_sentinel_spec(m: Map<i64, i64>, old_id: i64, sentinel: i64) -> i64 {
    if old_id == sentinel {
        sentinel
    } else {
        lookup_spec(m, old_id)
    }
}

/// Whether the same identifier occurs at two positions of the input.
pub open spec fn has_duplicate(ids: Seq<i64>) -> bool {
    exists|i: int, j: int| 0 <= i < j < ids.len() && ids[i] == ids[j]
}

/// The mapping that generation builds: every listed identifier, and no other,
/// maps to itself plus the offset.
pub open spec fn generated_map(ids: Seq<i64>, offset: i64) -> Map<i64, i64> {
    Map::new(|k: i64| ids.contains(k), |k: i64| (k + offset) as i64)
}

/// Per entity kind, the old-identifier to new-identifier table of one run.
#[derive(Debug)]
pub struct MappingRegistry {
    accounts: HashMap<i64, i64>,
    players: HashMap<i64, i64>,
    clans: HashMap<i64, i64>,
    gift_histories: HashMap<i64, i64>,
    player_vips: HashMap<i64, i64>,
}

impl MappingRegistry {
    /// The mapping held for one entity kind.
    pub closed spec fn map_of(self, kind: EntityKind) -> Map<i64, i64> {
        match kind {
            EntityKind::Account => self.accounts@,
            EntityKind::Player => self.players@,
            EntityKind::Clan => self.clans@,
            EntityKind::GiftCodeHistory => self.gift_histories@,
            EntityKind::PlayerVip => self.player_vips@,
        }
    }

    /// A registry with every table empty.
    pub fn new() -> (r: Self)
        ensures
            forall|k: EntityKind| r.map_of(k) == Map::<i64, i64>::empty(),
    {
        MappingRegistry {
            accounts: HashMap::new(),
            players: HashMap::new(),
            clans: HashMap::new(),
            gift_histories: HashMap::new(),
            player_vips: HashMap::new(),
        }
    }

    /// The table backing one entity kind.
    fn table(&self, kind: EntityKind) -> (r: &HashMap<i64, i64>)
        ensures
            r@ == self.map_of(kind),
    {
        match kind {
            EntityKind::Account => &self.accounts,
            EntityKind::Player => &self.players,
            EntityKind::Clan => &self.clans,
            EntityKind::GiftCodeHistory => &self.gift_histories,
            EntityKind::PlayerVip => &self.player_vips,
        }
    }

    /// Populates the table of one entity kind with `new_id = old_id + offset`
    /// for every identifier of the input, replacing any earlier table of that
    /// kind. Fails, leaving the registry unchanged, exactly when the input
    /// contains a duplicate.
    pub fn generate(&mut self, kind: EntityKind, ids: &Vec<i64>, offset: i64) -> (r: Result<
        (),
        MergeError,
    >)
        requires
            forall|i: int| 0 <= i < ids@.len() ==> i64::MIN <= #[trigger] ids@[i] + offset <= i64::MAX,
        ensures
            match r {
                Ok(_) => {
                    &&& !has_duplicate(ids@)
                    &&& final(self).map_of(kind) == generated_map(ids@, offset)
                    &&& forall|k2: EntityKind|
                        k2 != kind ==> final(self).map_of(k2) == old(self).map_of(k2)
                },
                Err(e) => {
                    &&& has_duplicate(ids@)
                    &&& e matches MergeError::DuplicateIdentifier { kind: k, id }
                    &&& k == kind
                    &&& ids@.contains(id)
                    &&& *final(self) == *old(self)
                },
            },
    {
        let mut table: HashMap<i64, i64> = HashMap::new();
        let mut i: usize = 0;
        while i < ids.len()
            invariant
                i <= ids@.len(),
                forall|j: int|
                    0 <= j < ids@.len() ==> i64::MIN <= #[trigger] ids@[j] + offset <= i64::MAX,
                table@ == generated_map(ids@.take(i as int), offset),
                !has_duplicate(ids@.take(i as int)),
            decreases ids@.len() - i,
        {
            let id = ids[i];
            if table.contains_key(&id) {
                proof {
                    let taken = ids@.take(i as int);
                    assert(taken.contains(id));
                    let j = choose|j: int| 0 <= j < taken.len() && taken[j] == id;
                    assert(ids@[j] == id && j < i);
                    assert(has_duplicate(ids@));
                }
                return Err(MergeError::DuplicateIdentifier { kind, id });
            }
            let ghost prev = ids@.take(i as int);
            table.insert(id, id + offset);
            i = i + 1;
            proof {
                broadcast use vstd::seq_lib::lemma_seq_contains_after_push;

                let cur = ids@.take(i as int);
                assert(cur =~= prev.push(id));
                assert(!prev.contains(id));
                assert(table@ =~= generated_map(cur, offset));
                assert(!has_duplicate(cur)) by {
                    if has_duplicate(cur) {
                        let (i0, j0) = choose|i0: int, j0: int|
                            0 <= i0 < j0 < cur.len() && cur[i0] == cur[j0];
                        if j0 < prev.len() {
                            assert(prev[i0] == prev[j0]);
                        } else {
                            assert(prev.contains(prev[i0]));
                        }
                    }
                }
            }
        }
        proof {
            assert(ids@.take(ids@.len() as int) =~= ids@);
            assert(table@ =~= generated_map(ids@, offset));
        }
        match kind {
            EntityKind::Account => self.accounts = table,
            EntityKind::Player => self.players = table,
            EntityKind::Clan => self.clans = table,
            EntityKind::GiftCodeHistory => self.gift_histories = table,
            EntityKind::PlayerVip => self.player_vips = table,
        }
        Ok(())
    }

    /// The mapped identifier if one was generated, the identifier itself
    /// otherwise.
    pub fn lookup(&self, kind: EntityKind, old_id: i64) -> (r: i64)
        ensures
            r == lookup_spec(self.map_of(kind), old_id),
    {
        match self.table(kind).get(&old_id) {
            Some(v) => *v,
            None => old_id,
        }
    }

    /// As `lookup`, except that the sentinel is returned unchanged.
    pub fn lookup_or_sentinel(&self, kind: EntityKind, old_id: i64, sentinel: i64) -> (r: i64)
        ensures
            r == lookup_or_sentinel_spec(self.map_of(kind), old_id, sentinel),
    {
        if old_id == sentinel {
            sentinel
        } else {
            self.lookup(kind, old_id)
        }
    }
}

/// Law: after mapping generation, every identifier of the generated set looks
/// up to itself plus the offset.
pub proof fn lemma_lookup_after_generate(ids: Seq<i64>, offset: i64, old_id: i64)
    requires
        ids.contains(old_id),
        i64::MIN <= old_id + offset <= i64::MAX,
    ensures
        lookup_spec(generated_map(ids, offset), old_id) == old_id + offset,
{
}

/// Law: a sentinel looked up as itself comes back unchanged, whatever mapping
/// was generated and whatever the offset; in particular the no-relation value
/// `-1` is never offset.
pub proof fn lemma_sentinel_fixed(m: Map<i64, i64>, sentinel: i64)
    ensures
        lookup_or_sentinel_spec(m, sentinel, sentinel) == sentinel,
{
}

/// Law: an identifier outside the generated set passes through a lookup
/// unchanged.
pub proof fn lemma_lookup_miss(ids: Seq<i64>, offset: i64, x: i64)
    requires
        !ids.contains(x),
    ensures
        lookup_spec(generated_map(ids, offset), x) == x,
{
}

} // verus!
