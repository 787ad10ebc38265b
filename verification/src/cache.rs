use vstd::prelude::*;
use crate::types::opt_string_view;

verus! {

/// The lazily filled address-to-display-name cache. An entry holding
/// `None` records that resolution ran and found no name; an address with
/// no entry has not been attempted yet. Entries are only ever appended,
/// and a lookup reads the newest entry for its address, so an upsert is a
/// plain append: last write wins.
pub struct NameCache {
    entries: Vec<(String, Option<String>)>,
}

/// The mathematical content of the cache: the entries folded, in order,
/// into a map, so that a later entry for an address overrides an earlier
/// one.
pub open spec fn names_map(
    s: Seq<(String, Option<String>)>,
) -> Map<Seq<char>, Option<Seq<char>>>
    decreases s.len(),
{
    if s.len() == 0 {
        Map::empty()
    } else {
        names_map(s.drop_last()).insert(s.last().0@, opt_string_view(s.last().1))
    }
}

impl View for NameCache {
    type V = Map<Seq<char>, Option<Seq<char>>>;

    closed spec fn view(&self) -> Map<Seq<char>, Option<Seq<char>>> {
        names_map(self.entries@)
    }
}

/// What the newest entry for a key says: none at all, or its recorded name.
proof fn lemma_names_map_at(s: Seq<(String, Option<String>)>, k: Seq<char>)
    ensures
        s.len() == 0 ==> !names_map(s).contains_key(k),
        s.len() > 0 && s.last().0@ == k ==> names_map(s).contains_key(k) && names_map(s)[k]
            == opt_string_view(s.last().1),
        s.len() > 0 && s.last().0@ != k ==> (names_map(s).contains_key(k) <==> names_map(
            s.drop_last(),
        ).contains_key(k)) && (names_map(s).contains_key(k) ==> names_map(s)[k] == names_map(
            s.drop_last(),
        )[k]),
{
}

impl NameCache {
    pub fn new() -> (r: NameCache)
        ensures
            r@ == Map::<Seq<char>, Option<Seq<char>>>::empty(),
    {
        NameCache { entries: Vec::new() }
    }

    /// Record what resolution found for an address: a plain upsert,
    /// last write wins.
    pub fn insert(&mut self, address: String, ens_id: Option<String>)
        ensures
            final(self)@ == old(self)@.insert(address@, opt_string_view(ens_id)),
    {
        let ghost s0 = self.entries@;
        self.entries.push((address, ens_id));
        proof {
            assert(self.entries@.drop_last() =~= s0);
        }
    }

    /// What the cache knows of an address: `None` when resolution has not
    /// been attempted, otherwise the recorded (possibly absent) name.
    pub fn get(&self, address: &String) -> (r: Option<Option<String>>)
        ensures
            match r {
                None => !self@.contains_key(address@),
                Some(n) => self@.contains_key(address@) && opt_string_view(n) == self@[address@],
            },
    {
        let ghost s = self.entries@;
        let ghost k = address@;
        let mut i: usize = self.entries.len();
        proof {
            assert(s.take(i as int) =~= s);
        }
        while i > 0
            invariant
                i <= s.len(),
                s == self.entries@,
                k == address@,
                names_map(s).contains_key(k) <==> names_map(s.take(i as int)).contains_key(k),
                names_map(s).contains_key(k) ==> names_map(s)[k] == names_map(
                    s.take(i as int),
                )[k],
            decreases i,
        {
            i = i - 1;
            let hit = self.entries[i].0 == *address;
            proof {
                assert(s.take(i as int + 1).drop_last() =~= s.take(i as int));
                assert(s.take(i as int + 1).last() == s[i as int]);
                lemma_names_map_at(s.take(i as int + 1), k);
            }
            if hit {
                let name = match &self.entries[i].1 {
                    Some(n) => Some(n.clone()),
                    None => None,
                };
                return Some(name);
            }
        }
        proof {
            assert(s.take(0) =~= Seq::<(String, Option<String>)>::empty());
            lemma_names_map_at(s.take(0), k);
        }
        None
    }

    /// How many resolutions have been recorded, repeats included.
    pub fn len(&self) -> usize {
        self.entries.len()
    }
}

} // verus!
