//! The map from account field names to the record types behind them.

use vstd::prelude::*;
use vstd::string::*;
use crate::text::equal_text;

verus! {

/// The map that a list of insertions builds: a later insertion for a name
/// replaces an earlier one.
pub open spec fn map_of(entries: Seq<(String, String)>) -> Map<Seq<char>, Seq<char>>
    decreases entries.len(),
{
    if entries.len() == 0 {
        Map::empty()
    } else {
        map_of(entries.drop_last()).insert(entries.last().0@, entries.last().1@)
    }
}

/// From the name of an account field to the name of its record type, or to
/// `Signer` for a signer field.
pub struct TypeResolutionMap {
    entries: Vec<(String, String)>,
}

impl View for TypeResolutionMap {
    type V = Map<Seq<char>, Seq<char>>;

    closed spec fn view(&self) -> Map<Seq<char>, Seq<char>> {
        map_of(self.entries@)
    }
}

impl TypeResolutionMap {
    /// The empty map.
    pub fn new() -> (r: TypeResolutionMap)
        ensures
            r@ == Map::<Seq<char>, Seq<char>>::empty(),
    {
        TypeResolutionMap { entries: Vec::new() }
    }

    /// Records `value` for `key`; what was recorded for `key` before is
    /// replaced, and no other name is touched.
    pub fn insert(&mut self, key: String, value: String)
        ensures
            final(self)@ == old(self)@.insert(key@, value@),
    {
        let ghost before = self.entries@;
        self.entries.push((key, value));
        assert(self.entries@.drop_last() =~= before);
    }

    /// The type recorded for `key`, if there is one.
    pub fn get(&self, key: &str) -> (r: Option<&String>)
        ensures
            match r {
                Some(value) => self@.contains_key(key@) && self@[key@] == value@,
                None => !self@.contains_key(key@),
            },
    {
        let mut i: usize = self.entries.len();
        assert(self.entries@.take(i as int) =~= self.entries@);
        while i > 0
            invariant
                i <= self.entries.len(),
                self@.contains_key(key@) == map_of(self.entries@.take(i as int)).contains_key(
                    key@,
                ),
                self@.contains_key(key@) ==> self@[key@] == map_of(
                    self.entries@.take(i as int),
                )[key@],
            decreases i,
        {
            assert(self.entries@.take(i as int).drop_last() =~= self.entries@.take(i - 1));
            let entry = &self.entries[i - 1];
            if equal_text(entry.0.as_str(), key) {
                return Some(&entry.1);
            }
            i -= 1;
        }
        None
    }
}

} // verus!
