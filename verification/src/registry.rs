//! The latest-minter registry: the proxy's only durable state.
//!
//! The registry maps a target service to the account whose mint on that service
//! was reconciled last. It is modelled as a `Map` from identifier to identifier;
//! a service that is not a key has no minter on record.

use vstd::prelude::*;
use crate::account::AccountId;

verus! {

/// The minter on record for `nft_contract_id`, if there is one.
pub open spec fn latest_minter(
    registry: Map<Seq<char>, Seq<char>>,
    nft_contract_id: Seq<char>,
) -> Option<Seq<char>> {
    if registry.contains_key(nft_contract_id) {
        Some(registry[nft_contract_id])
    } else {
        None
    }
}

/// One entry of the registry.
struct MinterRecord {
    nft_contract_id: AccountId,
    minter_id: AccountId,
}

/// `entries[i]` is the entry kept for `nft_contract_id`.
spec fn records(entries: Seq<MinterRecord>, nft_contract_id: Seq<char>, i: int) -> bool {
    0 <= i < entries.len() && entries[i].nft_contract_id@ == nft_contract_id
}

/// No two entries are kept for the same service.
spec fn distinct_services(entries: Seq<MinterRecord>) -> bool {
    forall|i: int, j: int|
        0 <= i < j < entries.len() ==> entries[i].nft_contract_id@ != entries[j].nft_contract_id@
}

/// The mapping that a sequence of entries stands for.
spec fn as_map(entries: Seq<MinterRecord>) -> Map<Seq<char>, Seq<char>> {
    Map::new(
        |nft_contract_id: Seq<char>| exists|i: int| records(entries, nft_contract_id, i),
        |nft_contract_id: Seq<char>|
            entries[choose|i: int| records(entries, nft_contract_id, i)].minter_id@,
    )
}

/// With distinct services, the entry found for a service is the one the map reads.
proof fn lemma_entry_is_mapped(entries: Seq<MinterRecord>, nft_contract_id: Seq<char>, i: int)
    requires
        distinct_services(entries),
        records(entries, nft_contract_id, i),
    ensures
        as_map(entries).contains_key(nft_contract_id),
        as_map(entries)[nft_contract_id] == entries[i].minter_id@,
{
    let chosen = choose|k: int| records(entries, nft_contract_id, k);
    assert(records(entries, nft_contract_id, chosen));
    assert(chosen == i) by {
        if chosen < i {
            assert(entries[chosen].nft_contract_id@ != entries[i].nft_contract_id@);
        } else if i < chosen {
            assert(entries[i].nft_contract_id@ != entries[chosen].nft_contract_id@);
        }
    }
}

/// Replacing the entry of a service by another entry of the same service
/// overwrites that service's minter and nothing else.
proof fn lemma_overwrite(entries: Seq<MinterRecord>, i: int, record: MinterRecord)
    requires
        distinct_services(entries),
        records(entries, record.nft_contract_id@, i),
    ensures
        distinct_services(entries.update(i, record)),
        as_map(entries.update(i, record)) == as_map(entries).insert(
            record.nft_contract_id@,
            record.minter_id@,
        ),
{
    let updated = entries.update(i, record);
    assert(distinct_services(updated)) by {
        assert forall|a: int, b: int| 0 <= a < b < updated.len() implies updated[a].nft_contract_id@
            != updated[b].nft_contract_id@ by {
            assert(updated[a].nft_contract_id@ == entries[a].nft_contract_id@);
            assert(updated[b].nft_contract_id@ == entries[b].nft_contract_id@);
        }
    }
    let expected = as_map(entries).insert(record.nft_contract_id@, record.minter_id@);
    assert forall|key: Seq<char>| as_map(updated).contains_key(key) <==> expected.contains_key(
        key,
    ) by {
        if as_map(updated).contains_key(key) {
            let k = choose|k: int| records(updated, key, k);
            assert(records(entries, key, k));
        }
        if expected.contains_key(key) {
            if key == record.nft_contract_id@ {
                assert(records(updated, key, i));
            } else {
                let k = choose|k: int| records(entries, key, k);
                assert(records(updated, key, k));
            }
        }
    }
    assert forall|key: Seq<char>| as_map(updated).contains_key(key) implies as_map(updated)[key]
        == expected[key] by {
        let k = choose|k: int| records(updated, key, k);
        lemma_entry_is_mapped(updated, key, k);
        if key != record.nft_contract_id@ {
            assert(records(entries, key, k));
            lemma_entry_is_mapped(entries, key, k);
        } else {
            lemma_entry_is_mapped(updated, key, i);
        }
    }
}

/// Appending an entry for a service that has none adds that service and
/// nothing else.
proof fn lemma_append(entries: Seq<MinterRecord>, record: MinterRecord)
    requires
        distinct_services(entries),
        forall|i: int| !records(entries, record.nft_contract_id@, i),
    ensures
        distinct_services(entries.push(record)),
        as_map(entries.push(record)) == as_map(entries).insert(
            record.nft_contract_id@,
            record.minter_id@,
        ),
{
    let grown = entries.push(record);
    let last = entries.len() as int;
    assert(distinct_services(grown)) by {
        assert forall|a: int, b: int| 0 <= a < b < grown.len() implies grown[a].nft_contract_id@
            != grown[b].nft_contract_id@ by {
            if b == last {
                assert(!records(entries, record.nft_contract_id@, a));
            }
        }
    }
    let expected = as_map(entries).insert(record.nft_contract_id@, record.minter_id@);
    assert forall|key: Seq<char>| as_map(grown).contains_key(key) <==> expected.contains_key(
        key,
    ) by {
        if as_map(grown).contains_key(key) {
            let k = choose|k: int| records(grown, key, k);
            if k != last {
                assert(records(entries, key, k));
            }
        }
        if expected.contains_key(key) {
            if key == record.nft_contract_id@ {
                assert(records(grown, key, last));
            } else {
                let k = choose|k: int| records(entries, key, k);
                assert(records(grown, key, k));
            }
        }
    }
    assert forall|key: Seq<char>| as_map(grown).contains_key(key) implies as_map(grown)[key]
        == expected[key] by {
        let k = choose|k: int| records(grown, key, k);
        lemma_entry_is_mapped(grown, key, k);
        if key != record.nft_contract_id@ {
            assert(records(entries, key, k));
            lemma_entry_is_mapped(entries, key, k);
        } else {
            lemma_entry_is_mapped(grown, key, last);
        }
    }
}

/// The registry of latest minters, exclusively owned by the proxy that holds it.
///
/// It keeps at most one entry per target service. Entries are added and
/// overwritten through [`LatestMinters::insert`] and never removed.
pub struct LatestMinters {
    entries: Vec<MinterRecord>,
}

impl View for LatestMinters {
    type V = Map<Seq<char>, Seq<char>>;

    closed spec fn view(&self) -> Map<Seq<char>, Seq<char>> {
        as_map(self.entries@)
    }
}

impl LatestMinters {
    #[verifier::type_invariant]
    spec fn one_entry_per_service(&self) -> bool {
        distinct_services(self.entries@)
    }

    /// A registry with no minter on record for any service.
    pub fn new() -> (registry: Self)
        ensures
            registry@ == Map::<Seq<char>, Seq<char>>::empty(),
    {
        LatestMinters { entries: Vec::new() }
    }

    /// Where the entry of `nft_contract_id` is kept, if it has one.
    fn position(&self, nft_contract_id: &AccountId) -> (found: Option<usize>)
        ensures
            match found {
                Some(i) => records(self.entries@, nft_contract_id@, i as int),
                None => forall|i: int| !records(self.entries@, nft_contract_id@, i),
            },
    {
        let mut i: usize = 0;
        while i < self.entries.len()
            invariant
                i <= self.entries@.len(),
                forall|k: int| 0 <= k < i ==> !records(self.entries@, nft_contract_id@, k),
            decreases self.entries@.len() - i,
        {
            if self.entries[i].nft_contract_id == *nft_contract_id {
                return Some(i);
            }
            i = i + 1;
        }
        None
    }

    /// Looks up the minter on record for `nft_contract_id`.
    pub fn get(&self, nft_contract_id: &AccountId) -> (minter: Option<AccountId>)
        ensures
            minter.deep_view() == latest_minter(self@, nft_contract_id@),
    {
        proof {
            use_type_invariant(self);
        }
        match self.position(nft_contract_id) {
            Some(i) => {
                proof {
                    lemma_entry_is_mapped(self.entries@, nft_contract_id@, i as int);
                }
                Some(self.entries[i].minter_id.clone())
            },
            None => None,
        }
    }

    /// Puts `minter_id` on record for `nft_contract_id`, in place of the minter
    /// that was on record before, and returns that earlier minter.
    pub fn insert(&mut self, nft_contract_id: AccountId, minter_id: AccountId) -> (previous: Option<
        AccountId,
    >)
        ensures
            final(self)@ == old(self)@.insert(nft_contract_id@, minter_id@),
            previous.deep_view() == latest_minter(old(self)@, nft_contract_id@),
    {
        proof {
            use_type_invariant(&*self);
        }
        let found = self.position(&nft_contract_id);
        let record = MinterRecord { nft_contract_id, minter_id };
        let mut entries: Vec<MinterRecord> = Vec::new();
        std::mem::swap(&mut entries, &mut self.entries);
        let previous = match found {
            Some(i) => {
                proof {
                    lemma_entry_is_mapped(entries@, record.nft_contract_id@, i as int);
                    lemma_overwrite(entries@, i as int, record);
                }
                let earlier = entries[i].minter_id.clone();
                entries.set(i, record);
                Some(earlier)
            },
            None => {
                proof {
                    lemma_append(entries@, record);
                }
                entries.push(record);
                None
            },
        };
        self.entries = entries;
        previous
    }
}

} // verus!
