//! One control scheme per local player.

use vstd::prelude::*;
use std::collections::HashMap;
use vstd::std_specs::iter::IteratorSpec;
use crate::control_scheme::ControlScheme;
use crate::universal_input::UniversalInput;

verus! {

/// The control schemes of several players, by player index.
#[derive(Debug)]
pub struct MultiScheme {
    map: HashMap<usize, ControlScheme>,
}

impl View for MultiScheme {
    type V = Map<usize, Map<UniversalInput, Seq<char>>>;

    closed spec fn view(&self) -> Map<usize, Map<UniversalInput, Seq<char>>> {
        self.map@.map_values(|c: ControlScheme| c@)
    }
}

/// Every key of a map, once each.
pub(crate) fn map_keys<V>(map: &HashMap<usize, V>) -> (r: Vec<usize>)
    ensures
        r@.to_set() == map@.dom(),
        r@.no_duplicates(),
{
    let ghost keys = vstd::std_specs::hash::spec_keys_iter(map).remaining().unref();
    let mut out: Vec<usize> = Vec::new();
    for k in it: map.keys()
        invariant
            keys == vstd::std_specs::hash::spec_keys_iter(map).remaining().unref(),
            it.seq().unref() == keys,
            out@ == keys.take(it.index()),
    {
        assert(keys.take(it.index() + 1) =~= keys.take(it.index()).push(*k));
        out.push(*k);
    }
    assert(out@ =~= keys);
    out
}

impl MultiScheme {
    /// No player has a scheme.
    pub fn new() -> (r: MultiScheme)
        ensures
            r@ == Map::<usize, Map<UniversalInput, Seq<char>>>::empty(),
    {
        let map = HashMap::new();
        let r = MultiScheme { map };
        assert(r@ =~= Map::<usize, Map<UniversalInput, Seq<char>>>::empty());
        r
    }

    /// The scheme of player `id`.
    pub fn get(&self, id: usize) -> (r: Option<&ControlScheme>)
        ensures
            match r {
                Some(c) => self@.contains_key(id) && c@ == self@[id],
                None => !self@.contains_key(id),
            },
    {
        self.map.get(&id)
    }

    /// Gives player `id` the scheme `control_scheme`, replacing any earlier one.
    pub fn insert(&mut self, id: usize, control_scheme: ControlScheme)
        ensures
            final(self)@ == old(self)@.insert(id, control_scheme@),
    {
        let ghost c = control_scheme@;
        self.map.insert(id, control_scheme);
        assert(self@ =~= old(self)@.insert(id, c));
    }

    /// Takes player `id`'s scheme away, if there is one.
    pub fn remove(&mut self, id: usize)
        ensures
            final(self)@ == old(self)@.remove(id),
    {
        self.map.remove(&id);
        assert(self@ =~= old(self)@.remove(id));
    }

    /// The indices of the players that have a scheme, once each, in no
    /// particular order.
    pub fn keys(&self) -> (r: Vec<usize>)
        ensures
            r@.to_set() == self@.dom(),
            r@.no_duplicates(),
    {
        map_keys(&self.map)
    }
}

impl PartialEq for MultiScheme {
    fn eq(&self, other: &MultiScheme) -> (r: bool) {
        if self.map.len() != other.map.len() {
            assert(self@.dom() =~= self.map@.dom());
            assert(other@.dom() =~= other.map@.dom());
            return false;
        }
        let ids = self.keys();
        let mut i: usize = 0;
        while i < ids.len()
            invariant
                i <= ids@.len(),
                ids@.to_set() == self@.dom(),
                self.map@.len() == other.map@.len(),
                forall|j: int|
                    0 <= j < i ==> other@.contains_key(#[trigger] ids@[j]) && other@[ids@[j]]
                        == self@[ids@[j]],
            decreases ids@.len() - i,
        {
            let id = ids[i];
            assert(ids@.to_set().contains(ids@[i as int]));
            match (self.get(id), other.get(id)) {
                (Some(mine), Some(theirs)) => {
                    if !(*mine == *theirs) {
                        return false;
                    }
                },
                _ => {
                    return false;
                },
            }
            i = i + 1;
        }
        proof {
            assert forall|k: usize| #[trigger] self@.dom().contains(k) implies other@.dom().contains(k)
                && other@[k] == self@[k] by {
                assert(ids@.to_set().contains(k));
                let j = choose|j: int| 0 <= j < ids@.len() && ids@[j] == k;
                assert(other@.contains_key(ids@[j]));
            }
            assert(self@.dom() =~= self.map@.dom());
            assert(other@.dom() =~= other.map@.dom());
            vstd::set_lib::lemma_subset_equality(self@.dom(), other@.dom());
            assert(self@ =~= other@);
        }
        true
    }
}

impl vstd::std_specs::cmp::PartialEqSpecImpl for MultiScheme {
    open spec fn obeys_eq_spec() -> bool {
        true
    }

    open spec fn eq_spec(&self, other: &MultiScheme) -> bool {
        self@ == other@
    }
}

impl Default for MultiScheme {
    fn default() -> (r: MultiScheme)
        ensures
            r@ == Map::<usize, Map<UniversalInput, Seq<char>>>::empty(),
    {
        MultiScheme::new()
    }
}

} // verus!
