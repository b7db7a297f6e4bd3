//! The zone catalog: which authority answers for which zone.
//!
//! Zone names are compared without regard to the case of ASCII letters. A
//! name is registered at most once; registering it again replaces the
//! authority that was there.

use vstd::prelude::*;
use crate::text::text_views;
use crate::text::to_chars;
use crate::text::to_text;

verus! {

/// A letter in lower case; any other character as it is.
pub open spec fn lower_char(c: char) -> char {
    if 'A' <= c <= 'Z' {
        ((c as u8) + 32u8) as char
    } else {
        c
    }
}

/// A name with its ASCII letters in lower case: the form under which the
/// catalog keeps it.
pub open spec fn lower(name: Seq<char>) -> Seq<char> {
    name.map_values(|c: char| lower_char(c))
}

/// Lowering a name twice is lowering it once.
pub proof fn lower_is_idempotent(name: Seq<char>)
    ensures
        lower(lower(name)) == lower(name),
{
    assert(lower(lower(name)) =~= lower(name));
}

/// The name in the form under which the catalog keeps it.
pub fn to_lower(name: &str) -> (key: String)
    ensures
        key@ == lower(name@),
{
    let chars = to_chars(name);
    let mut lowered: Vec<char> = Vec::new();
    let mut i: usize = 0;
    while i < chars.len()
        invariant
            i <= chars@.len(),
            chars@ == name@,
            lowered@ == lower(chars@.take(i as int)),
        decreases chars@.len() - i,
    {
        let c = chars[i];
        let l = if 'A' <= c && c <= 'Z' {
            ((c as u8) + 32u8) as char
        } else {
            c
        };
        lowered.push(l);
        i += 1;
        assert(lowered@ =~= lower(chars@.take(i as int)));
    }
    assert(chars@.take(i as int) =~= chars@);
    to_text(&lowered)
}

/// The mapping from zone name to authority.
#[derive(Debug)]
pub struct Catalog<A> {
    pub names: Vec<String>,
    pub authorities: Vec<A>,
}

impl<A> View for Catalog<A> {
    type V = Map<Seq<char>, A>;

    /// The catalog as a map from lowered zone name to authority.
    open spec fn view(&self) -> Map<Seq<char>, A> {
        Map::new(
            |key: Seq<char>| self.keys().contains(key),
            |key: Seq<char>| self.authorities@[self.keys().index_of(key)],
        )
    }
}

impl<A> Catalog<A> {
    /// The names in the catalog, in the order in which they first came.
    pub open spec fn keys(&self) -> Seq<Seq<char>> {
        text_views(self.names@)
    }

    /// Each name has one authority, and no name stands twice.
    pub open spec fn wf(&self) -> bool {
        &&& self.names@.len() == self.authorities@.len()
        &&& self.keys().no_duplicates()
    }

    /// The catalog without a zone.
    pub fn new() -> (catalog: Catalog<A>)
        ensures
            catalog.wf(),
            catalog@ == Map::<Seq<char>, A>::empty(),
    {
        let catalog = Catalog { names: Vec::new(), authorities: Vec::new() };
        assert(catalog@ =~= Map::<Seq<char>, A>::empty());
        catalog
    }

    fn position(&self, key: &String) -> (at: Option<usize>)
        requires
            self.wf(),
        ensures
            match at {
                Some(i) => i < self.keys().len() && self.keys()[i as int] == key@,
                None => !self.keys().contains(key@),
            },
    {
        let mut i: usize = 0;
        while i < self.names.len()
            invariant
                i <= self.names@.len(),
                forall|k: int| 0 <= k < i ==> self.keys()[k] != key@,
            decreases self.names@.len() - i,
        {
            if self.names[i] == *key {
                return Some(i);
            }
            i += 1;
        }
        None
    }

    /// Registers `authority` for the zone `name`. An authority that was
    /// registered for that name before is replaced: the last registration
    /// wins.
    pub fn upsert(&mut self, name: &str, authority: A)
        requires
            old(self).wf(),
        ensures
            final(self).wf(),
            final(self)@ == old(self)@.insert(lower(name@), authority),
    {
        let key = to_lower(name);
        let ghost before = *self;
        match self.position(&key) {
            Some(i) => {
                self.authorities.set(i, authority);
                proof {
                    assert(self.keys() == before.keys());
                    assert forall|k: Seq<char>| self.keys().contains(k) implies #[trigger] self@[k]
                        == before@.insert(key@, authority)[k] by {
                        let j = self.keys().index_of(k);
                        if k != key@ {
                            assert(j != i);
                        }
                    }
                    assert(self@ =~= before@.insert(key@, authority));
                }
            },
            None => {
                self.names.push(key);
                self.authorities.push(authority);
                proof {
                    let old_keys = before.keys();
                    let new_keys = self.keys();
                    assert(new_keys =~= old_keys.push(key@));
                    assert forall|a: int, b: int|
                        0 <= a < new_keys.len() && 0 <= b < new_keys.len() && a
                            != b implies new_keys[a] != new_keys[b] by {
                        if a < old_keys.len() && b < old_keys.len() {
                        } else if a < old_keys.len() {
                            assert(old_keys.contains(old_keys[a]));
                        } else {
                            assert(old_keys.contains(old_keys[b]));
                        }
                    }
                    assert forall|k: Seq<char>| new_keys.contains(k) == (old_keys.contains(k) || k
                        == key@) by {
                        if old_keys.contains(k) {
                            let j = old_keys.index_of(k);
                            assert(new_keys[j] == k);
                        }
                        if k == key@ {
                            assert(new_keys[old_keys.len() as int] == k);
                        }
                        if new_keys.contains(k) {
                            let j = new_keys.index_of(k);
                            if j < old_keys.len() {
                                assert(old_keys[j] == k);
                            }
                        }
                    }
                    assert forall|k: Seq<char>| new_keys.contains(k) implies #[trigger] self@[k]
                        == before@.insert(key@, authority)[k] by {
                        let j = new_keys.index_of(k);
                        if k != key@ {
                            assert(j < old_keys.len());
                            let h = old_keys.index_of(k);
                            assert(new_keys[h] == k);
                            assert(h == j);
                        } else {
                            if j < old_keys.len() {
                                assert(old_keys[j] == k);
                                assert(old_keys.contains(k));
                            }
                        }
                    }
                    assert(self@ =~= before@.insert(key@, authority));
                }
            },
        }
    }

    /// The authority that is registered for the zone `name`.
    pub fn find(&self, name: &str) -> (found: Option<&A>)
        requires
            self.wf(),
        ensures
            match found {
                Some(authority) => self@.contains_key(lower(name@)) && *authority == self@[lower(
                    name@,
                )],
                None => !self@.contains_key(lower(name@)),
            },
    {
        let key = to_lower(name);
        match self.position(&key) {
            Some(i) => {
                proof {
                    assert(self.keys().contains(key@));
                    let j = self.keys().index_of(key@);
                    assert(j == i);
                }
                Some(&self.authorities[i])
            },
            None => None,
        }
    }

    /// Whether an authority is registered for the zone `name`.
    pub fn contains(&self, name: &str) -> (yes: bool)
        requires
            self.wf(),
        ensures
            yes == self@.contains_key(lower(name@)),
    {
        self.find(name).is_some()
    }

    /// The number of zones.
    pub fn len(&self) -> (count: usize)
        requires
            self.wf(),
        ensures
            self@.dom().finite(),
            count == self@.dom().len(),
    {
        proof {
            self.keys().unique_seq_to_set();
            assert(self@.dom() =~= self.keys().to_set());
        }
        self.names.len()
    }

    /// Whether the catalog holds no zone.
    pub fn is_empty(&self) -> (yes: bool)
        requires
            self.wf(),
        ensures
            yes == (self@ == Map::<Seq<char>, A>::empty()),
    {
        proof {
            if self.names@.len() > 0 {
                assert(self.keys().contains(self.keys()[0]));
                assert(self@.contains_key(self.keys()[0]));
            } else {
                assert(self@ =~= Map::<Seq<char>, A>::empty());
            }
        }
        self.names.len() == 0
    }
}

} // verus!
