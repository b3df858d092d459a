use crate::pills::domain::pills_repository::{pill_views, PillRepository, RepositoryError};
use crate::pills::domain::{Pill, PillId, PillView};
use crate::store::{is_snapshot, lists};
use std::collections::HashMap;
use vstd::std_specs::hash::spec_hash_map_iter;
use vstd::std_specs::iter::IteratorSpec;
use vstd::prelude::*;

verus! {

broadcast use vstd::std_specs::hash::group_hash_axioms;

/// A pill repository that keeps its pills in the memory of the process.
pub struct InMemoryPillRepository {
    pills: HashMap<u128, Pill>,
}

impl InMemoryPillRepository {
    /// Every pill is stored under its own identifier.
    #[verifier::type_invariant]
    closed spec fn keyed_by_id(&self) -> bool {
        forall|key: u128| self.pills@.contains_key(key) ==> (#[trigger] self.pills@[key])@.id.0 == key
    }

    pub fn new() -> (repository: InMemoryPillRepository)
        ensures
            repository.pills() == Map::<PillId, PillView>::empty(),
            repository.reliable(),
    {
        let repository = InMemoryPillRepository { pills: HashMap::new() };
        proof {
            assert(repository.pills() =~= Map::<PillId, PillView>::empty());
        }
        repository
    }
}

impl PillRepository for InMemoryPillRepository {
    closed spec fn pills(&self) -> Map<PillId, PillView> {
        Map::new(|id: PillId| self.pills@.contains_key(id.0), |id: PillId| self.pills@[id.0]@)
    }

    open spec fn reliable(&self) -> bool {
        true
    }

    fn save(&mut self, pill: &Pill) -> (saved: Result<(), RepositoryError>) {
        proof {
            use_type_invariant(&*self);
        }
        let id = pill.id();
        let mut pills: HashMap<u128, Pill> = HashMap::new();
        std::mem::swap(&mut self.pills, &mut pills);
        pills.insert(id.0, pill.clone());
        std::mem::swap(&mut self.pills, &mut pills);
        proof {
            assert(self.pills() =~= old(self).pills().insert(pill@.id, pill@));
        }
        Ok(())
    }

    fn find_by_id(&self, id: PillId) -> (found: Result<Option<Pill>, RepositoryError>) {
        proof {
            use_type_invariant(self);
        }
        match self.pills.get(&id.0) {
            Some(pill) => Ok(Some(pill.clone())),
            None => Ok(None),
        }
    }

    fn find_all(&self) -> (found: Result<Vec<Pill>, RepositoryError>) {
        let mut pills: Vec<Pill> = Vec::new();
        let ghost mut keys: Seq<PillId> = Seq::empty();
        for entry in iter: self.pills.iter()
            invariant
                iter.seq() == spec_hash_map_iter(&self.pills).remaining(),
                iter.seq().no_duplicates(),
                keys.len() == iter.index(),
                pills@.len() == iter.index(),
                forall|i: int| 0 <= i < keys.len() ==> (#[trigger] keys[i]).0 == *iter.seq()[i].0,
                forall|i: int|
                    0 <= i < keys.len() ==> (#[trigger] pills@[i])@ == (*iter.seq()[i].1)@,
        {
            let (key, pill) = entry;
            proof {
                keys = keys.push(PillId(*key));
            }
            pills.push(pill.clone());
        }
        proof {
            let entries = spec_hash_map_iter(&self.pills).remaining();
            let stored = self.pills@;
            assert forall|i: int, j: int|
                0 <= i < keys.len() && 0 <= j < keys.len() && i != j implies keys[i] != keys[j] by {
                if keys[i] == keys[j] {
                    assert(stored[*entries[i].0] == *entries[i].1);
                    assert(stored[*entries[j].0] == *entries[j].1);
                    assert(entries[i] == entries[j]);
                }
            }
            assert forall|key: PillId| keys.contains(key) <==> self.pills().contains_key(key) by {
                if keys.contains(key) {
                    let i = choose|i: int| 0 <= i < keys.len() && keys[i] == key;
                    assert(stored.contains_key(*entries[i].0));
                }
                if self.pills().contains_key(key) {
                    assert(stored.contains_key(key.0));
                    assert(entries.contains((&key.0, &stored[key.0])));
                    let i = choose|i: int|
                        0 <= i < entries.len() && entries[i] == (&key.0, &stored[key.0]);
                    assert(keys[i].0 == key.0);
                }
            }
            assert forall|i: int| 0 <= i < keys.len() implies pill_views(pills@)[i]
                == self.pills()[#[trigger] keys[i]] by {
                assert(stored.contains_key(*entries[i].0));
                assert(stored[*entries[i].0] == *entries[i].1);
                assert(pills@[i]@ == (*entries[i].1)@);
            }
            assert(lists(keys, pill_views(pills@), self.pills()));
        }
        Ok(pills)
    }
}

} // verus!
