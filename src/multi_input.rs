//! The action state of several local players.

use vstd::prelude::*;
use std::collections::HashMap;
use crate::action_input::{ActionInput, ButtonStates};
use crate::multi_scheme::map_keys;

verus! {

/// The action state of each player, by player index.
#[derive(Debug)]
pub struct MultiInput {
    map: HashMap<usize, ActionInput>,
}

impl View for MultiInput {
    type V = Map<usize, ButtonStates>;

    closed spec fn view(&self) -> Map<usize, ButtonStates> {
        self.map@.map_values(|a: ActionInput| a@)
    }
}

impl MultiInput {
    /// No players.
    pub fn new() -> (r: MultiInput)
        ensures
            r@ == Map::<usize, ButtonStates>::empty(),
    {
        let map = HashMap::new();
        let r = MultiInput { map };
        assert(r@ =~= Map::<usize, ButtonStates>::empty());
        r
    }

    /// The action state of player `id`.
    pub fn get(&self, id: usize) -> (r: Option<&ActionInput>)
        ensures
            match r {
                Some(a) => self@.contains_key(id) && a@ == self@[id],
                None => !self@.contains_key(id),
            },
    {
        self.map.get(&id)
    }

    /// Adds player `id` with nothing pressed, replacing its state if it had one.
    pub fn insert(&mut self, id: usize)
        ensures
            final(self)@ == old(self)@.insert(id, ButtonStates::empty()),
    {
        self.map.insert(id, ActionInput::new());
        assert(self@ =~= old(self)@.insert(id, ButtonStates::empty()));
    }

    /// Adds players `0..count`, each with nothing pressed.
    pub fn has_players(&mut self, count: usize)
        ensures
            final(self)@ == Map::new(
                |i: usize| old(self)@.contains_key(i) || i < count,
                |i: usize|
                    if i < count {
                        ButtonStates::empty()
                    } else {
                        old(self)@[i]
                    },
            ),
    {
        let ghost start = self@;
        let mut i: usize = 0;
        while i < count
            invariant
                i <= count,
                self@ == Map::new(
                    |j: usize| start.contains_key(j) || j < i,
                    |j: usize|
                        if j < i {
                            ButtonStates::empty()
                        } else {
                            start[j]
                        },
                ),
            decreases count - i,
        {
            self.insert(i);
            i = i + 1;
            assert(self@ =~= Map::new(
                |j: usize| start.contains_key(j) || j < i,
                |j: usize|
                    if j < i {
                        ButtonStates::empty()
                    } else {
                        start[j]
                    },
            ));
        }
    }

    /// Removes player `id`, if present.
    pub fn remove(&mut self, id: usize)
        ensures
            final(self)@ == old(self)@.remove(id),
    {
        self.map.remove(&id);
        assert(self@ =~= old(self)@.remove(id));
    }

    /// The player indices, once each, in no particular order.
    pub fn keys(&self) -> (r: Vec<usize>)
        ensures
            r@.to_set() == self@.dom(),
            r@.no_duplicates(),
    {
        map_keys(&self.map)
    }

    /// Takes player `id`'s state out, leaving the player absent; with `put`,
    /// this lets a caller change a player's state in place.
    pub fn take(&mut self, id: usize) -> (r: Option<ActionInput>)
        ensures
            final(self)@ == old(self)@.remove(id),
            match r {
                Some(a) => old(self)@.contains_key(id) && a@ == old(self)@[id],
                None => !old(self)@.contains_key(id),
            },
    {
        let r = self.map.remove(&id);
        assert(self@ =~= old(self)@.remove(id));
        r
    }

    /// Puts `action_input` back as player `id`'s state.
    pub fn put(&mut self, id: usize, action_input: ActionInput)
        ensures
            final(self)@ == old(self)@.insert(id, action_input@),
    {
        let ghost a = action_input@;
        self.map.insert(id, action_input);
        assert(self@ =~= old(self)@.insert(id, a));
    }
}

/// Two sets of players are equal when they hold the same player indices,
/// whatever the players' states.
impl PartialEq for MultiInput {
    fn eq(&self, other: &MultiInput) -> (r: bool) {
        assert(self@.dom() =~= self.map@.dom());
        assert(other@.dom() =~= other.map@.dom());
        if self.map.len() != other.map.len() {
            return false;
        }
        let ids = self.keys();
        let mut i: usize = 0;
        while i < ids.len()
            invariant
                i <= ids@.len(),
                ids@.to_set() == self@.dom(),
                self@.dom() == self.map@.dom(),
                other@.dom() == other.map@.dom(),
                self.map@.len() == other.map@.len(),
                forall|j: int| 0 <= j < i ==> other@.contains_key(#[trigger] ids@[j]),
            decreases ids@.len() - i,
        {
            if self.map.get(&ids[i]).is_none() || other.map.get(&ids[i]).is_none() {
                return false;
            }
            i = i + 1;
        }
        proof {
            assert forall|k: usize| #[trigger] self@.dom().contains(k) implies other@.dom().contains(
                k,
            ) by {
                assert(ids@.to_set().contains(k));
                let j = choose|j: int| 0 <= j < ids@.len() && ids@[j] == k;
                assert(other@.contains_key(ids@[j]));
            }
            vstd::set_lib::lemma_subset_equality(self@.dom(), other@.dom());
        }
        true
    }
}

impl vstd::std_specs::cmp::PartialEqSpecImpl for MultiInput {
    open spec fn obeys_eq_spec() -> bool {
        true
    }

    open spec fn eq_spec(&self, other: &MultiInput) -> bool {
        self@.dom() == other@.dom()
    }
}

impl Default for MultiInput {
    fn default() -> (r: MultiInput)
        ensures
            r@ == Map::<usize, ButtonStates>::empty(),
    {
        MultiInput::new()
    }
}

} // verus!
