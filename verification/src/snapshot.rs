//! A key/value snapshot of configuration captured ahead of the build.

use vstd::prelude::*;

verus! {

/// The mapping that a list of entries stands for: a later entry replaces an
/// earlier one with the same key.
pub open spec fn mapping_of(entries: Seq<(Seq<char>, Seq<char>)>) -> Map<Seq<char>, Seq<char>>
    decreases entries.len(),
{
    if entries.len() == 0 {
        Map::empty()
    } else {
        mapping_of(entries.drop_last()).insert(entries.last().0, entries.last().1)
    }
}

/// String keys mapped to string values, as captured from an environment or
/// a configuration file. Its view is the mapping.
#[derive(Clone, Debug)]
pub struct Snapshot {
    entries: Vec<(String, String)>,
}

impl View for Snapshot {
    type V = Map<Seq<char>, Seq<char>>;

    closed spec fn view(&self) -> Map<Seq<char>, Seq<char>> {
        mapping_of(self.entries.deep_view())
    }
}

impl Snapshot {
    /// The snapshot without any key.
    pub fn new() -> (snapshot: Snapshot)
        ensures
            snapshot@ == Map::<Seq<char>, Seq<char>>::empty(),
    {
        let snapshot = Snapshot { entries: Vec::new() };
        assert(snapshot.entries.deep_view().len() == 0);
        snapshot
    }

    /// Maps `key` to `value`, replacing what `key` was mapped to before.
    pub fn insert(&mut self, key: String, value: String)
        ensures
            final(self)@ == old(self)@.insert(key@, value@),
    {
        let ghost before = self.entries.deep_view();
        self.entries.push((key, value));
        proof {
            let after = self.entries.deep_view();
            assert(after.drop_last() == before);
            assert(after.last() == (key@, value@));
        }
    }

    /// Looks `key` up.
    pub fn get_key(&self, key: &str) -> (found: Option<&str>)
        ensures
            match found {
                Some(value) => self@.contains_key(key@) && self@[key@] == value@,
                None => !self@.contains_key(key@),
            },
    {
        let wanted = key.to_owned();
        let ghost all = self.entries.deep_view();
        let mut i = self.entries.len();
        assert(all.take(i as int) == all);
        while i > 0
            invariant
                i <= self.entries.len(),
                all == self.entries.deep_view(),
                wanted@ == key@,
                mapping_of(all).contains_key(key@) == mapping_of(all.take(i as int)).contains_key(
                    key@,
                ),
                mapping_of(all).contains_key(key@) ==> mapping_of(all)[key@] == mapping_of(
                    all.take(i as int),
                )[key@],
            decreases i,
        {
            i = i - 1;
            proof {
                let upto = all.take(i + 1);
                assert(upto.drop_last() == all.take(i as int));
                assert(upto.last() == all[i as int]);
            }
            if self.entries[i].0 == wanted {
                return Some(self.entries[i].1.as_str());
            }
        }
        assert(all.take(0).len() == 0);
        None
    }
}

} // verus!
