//! The binding table from physical inputs to actions.

use vstd::prelude::*;
use crate::action::Action;
use crate::scan_code::str_eq;
use crate::universal_input::UniversalInput;

verus! {

/// The map that a sequence of bindings describes: each binding in turn binds
/// its input to its action, a later binding of an input replacing an earlier
/// one.
pub open spec fn bindings_map(s: Seq<(UniversalInput, Action)>) -> Map<UniversalInput, Seq<char>>
    decreases s.len(),
{
    if s.len() == 0 {
        Map::empty()
    } else {
        bindings_map(s.drop_last()).insert(s.last().0, s.last().1@)
    }
}

/// The map that a list of `(action, input)` pairs describes, applied in order.
pub open spec fn controls_map(s: Seq<(Action, UniversalInput)>) -> Map<UniversalInput, Seq<char>>
    decreases s.len(),
{
    if s.len() == 0 {
        Map::empty()
    } else {
        controls_map(s.drop_last()).insert(s.last().1, s.last().0@)
    }
}

pub open spec fn keys_unique(s: Seq<(UniversalInput, Action)>) -> bool {
    forall|i: int, j: int| 0 <= i < j < s.len() ==> s[i].0 != s[j].0
}

/// An input bound at index `i` and at no later index is bound, in the map, to
/// that entry's action.
proof fn lemma_bindings_lookup(s: Seq<(UniversalInput, Action)>, i: int, k: UniversalInput)
    requires
        0 <= i < s.len(),
        s[i].0 == k,
        forall|j: int| i < j < s.len() ==> s[j].0 != k,
    ensures
        bindings_map(s).contains_key(k),
        bindings_map(s)[k] == s[i].1@,
    decreases s.len(),
{
    if i < s.len() - 1 {
        let t = s.drop_last();
        assert(s[s.len() - 1].0 != k);
        assert forall|j: int| i < j < t.len() implies t[j].0 != k by {
            assert(t[j] == s[j]);
        }
        lemma_bindings_lookup(t, i, k);
    }
}

/// An input is bound in the map exactly when some binding names it.
proof fn lemma_bindings_domain(s: Seq<(UniversalInput, Action)>, k: UniversalInput)
    ensures
        bindings_map(s).contains_key(k) <==> exists|i: int| 0 <= i < s.len() && s[i].0 == k,
    decreases s.len(),
{
    if s.len() > 0 {
        let t = s.drop_last();
        lemma_bindings_domain(t, k);
        if exists|i: int| 0 <= i < t.len() && t[i].0 == k {
            let i = choose|i: int| 0 <= i < t.len() && t[i].0 == k;
            assert(s[i] == t[i]);
        }
        if exists|i: int| 0 <= i < s.len() && s[i].0 == k {
            let i = choose|i: int| 0 <= i < s.len() && s[i].0 == k;
            if i < t.len() {
                assert(s[i] == t[i]);
            }
        }
    }
}

/// A table of bindings in which each physical input is bound to at most one
/// action. Binding an input again replaces its action.
#[derive(Debug)]
pub struct ControlScheme {
    bindings: Vec<(UniversalInput, Action)>,
}

impl View for ControlScheme {
    type V = Map<UniversalInput, Seq<char>>;

    closed spec fn view(&self) -> Map<UniversalInput, Seq<char>> {
        bindings_map(self.bindings@)
    }
}

impl ControlScheme {
    #[verifier::type_invariant]
    spec fn inv(self) -> bool {
        keys_unique(self.bindings@)
    }

    /// A scheme with no bindings.
    pub fn new() -> (r: ControlScheme)
        ensures
            r@ == Map::<UniversalInput, Seq<char>>::empty(),
    {
        ControlScheme { bindings: Vec::new() }
    }

    /// The bindings without those of `input`, in their order.
    fn without(&self, input: UniversalInput) -> (r: Vec<(UniversalInput, Action)>)
        ensures
            bindings_map(r@) == self@.remove(input),
            keys_unique(r@),
            forall|j: int| 0 <= j < r@.len() ==> r@[j].0 != input,
    {
        proof {
            use_type_invariant(self);
        }
        let ghost s = self.bindings@;
        let mut kept: Vec<(UniversalInput, Action)> = Vec::new();
        let mut idx: usize = 0;
        while idx < self.bindings.len()
            invariant
                s == self.bindings@,
                keys_unique(s),
                idx <= s.len(),
                bindings_map(kept@) == bindings_map(s.subrange(0, idx as int)).remove(input),
                keys_unique(kept@),
                forall|j: int| 0 <= j < kept@.len() ==> kept@[j].0 != input,
                forall|j: int|
                    #![trigger kept@[j]]
                    0 <= j < kept@.len() ==> exists|m: int|
                        #![trigger s[m]]
                        0 <= m < idx && s[m] == kept@[j],
            decreases s.len() - idx,
        {
            let e = self.bindings[idx];
            assert(s.subrange(0, idx as int + 1).drop_last() =~= s.subrange(0, idx as int));
            if e.0 != input {
                assert forall|j: int| 0 <= j < kept@.len() implies kept@[j].0 != e.0 by {
                    let m = choose|m: int| 0 <= m < idx && s[m] == kept@[j];
                }
                let ghost before = kept@;
                kept.push(e);
                assert(kept@.drop_last() =~= before);
                assert(bindings_map(kept@) =~= bindings_map(s.subrange(0, idx as int + 1)).remove(
                    input,
                ));
                assert forall|j: int|
                    #![trigger kept@[j]]
                    0 <= j < kept@.len() implies exists|m: int|
                        #![trigger s[m]]
                        0 <= m < idx + 1 && s[m] == kept@[j] by {
                    if j < before.len() {
                        assert(kept@[j] == before[j]);
                        let m = choose|m: int| 0 <= m < idx && s[m] == before[j];
                        assert(s[m] == kept@[j]);
                    } else {
                        assert(s[idx as int] == kept@[j]);
                    }
                }
            } else {
                assert(bindings_map(kept@) =~= bindings_map(s.subrange(0, idx as int + 1)).remove(
                    input,
                ));
            }
            idx = idx + 1;
        }
        assert(s.subrange(0, s.len() as int) =~= s);
        kept
    }

    /// Replaces every binding with those of `other`.
    pub fn set(&mut self, other: ControlScheme)
        ensures
            final(self)@ == other@,
    {
        proof {
            use_type_invariant(&other);
        }
        self.bindings = other.bindings;
    }

    /// Binds `input` to `action`, replacing whatever `input` was bound to.
    pub fn insert(&mut self, action: Action, input: UniversalInput)
        ensures
            final(self)@ == old(self)@.insert(input, action@),
    {
        let mut kept = self.without(input);
        let ghost before = kept@;
        kept.push((input, action));
        assert(kept@.drop_last() =~= before);
        assert(bindings_map(kept@) =~= old(self)@.insert(input, action@));
        self.bindings = kept;
    }

    /// Removes the binding of `input`, if there is one.
    pub fn remove(&mut self, input: UniversalInput)
        ensures
            final(self)@ == old(self)@.remove(input),
    {
        self.bindings = self.without(input);
    }

    /// The index of the binding of `input`.
    fn position(&self, input: UniversalInput) -> (r: Option<usize>)
        ensures
            match r {
                Some(i) => i < self.bindings@.len() && self.bindings@[i as int].0 == input
                    && self@.contains_key(input) && self@[input] == self.bindings@[i as int].1@,
                None => !self@.contains_key(input),
            },
    {
        proof {
            use_type_invariant(self);
            lemma_bindings_domain(self.bindings@, input);
        }
        let mut idx: usize = 0;
        while idx < self.bindings.len()
            invariant
                idx <= self.bindings@.len(),
                keys_unique(self.bindings@),
                forall|j: int| 0 <= j < idx ==> self.bindings@[j].0 != input,
            decreases self.bindings@.len() - idx,
        {
            if self.bindings[idx].0 == input {
                proof {
                    assert forall|j: int| idx < j < self.bindings@.len() implies self.bindings@[j].0
                        != input by {
                        assert(self.bindings@[idx as int].0 != self.bindings@[j].0);
                    }
                    lemma_bindings_lookup(self.bindings@, idx as int, input);
                }
                return Some(idx);
            }
            idx = idx + 1;
        }
        None
    }

    /// The action that `input` is bound to.
    pub fn get(&self, input: UniversalInput) -> (r: Option<&Action>)
        ensures
            match r {
                Some(a) => self@.contains_key(input) && a@ == self@[input],
                None => !self@.contains_key(input),
            },
    {
        match self.position(input) {
            Some(i) => Some(&self.bindings[i].1),
            None => None,
        }
    }

    /// Whether `input` is bound.
    pub fn contains_key(&self, input: UniversalInput) -> (r: bool)
        ensures
            r == self@.contains_key(input),
    {
        self.position(input).is_some()
    }

    /// Removes every binding.
    pub fn clear(&mut self)
        ensures
            final(self)@ == Map::<UniversalInput, Seq<char>>::empty(),
    {
        self.bindings = Vec::new();
    }

    /// Every binding once, as `(input, action)` pairs, in no particular order.
    pub fn iter(&self) -> (r: Vec<(UniversalInput, Action)>)
        ensures
            keys_unique(r@),
            bindings_map(r@) == self@,
            forall|i: int|
                0 <= i < r@.len() ==> self@.contains_key(#[trigger] r@[i].0) && self@[r@[i].0]
                    == r@[i].1@,
    {
        proof {
            use_type_invariant(self);
        }
        let mut out: Vec<(UniversalInput, Action)> = Vec::new();
        let mut idx: usize = 0;
        while idx < self.bindings.len()
            invariant
                idx <= self.bindings@.len(),
                out@ == self.bindings@.subrange(0, idx as int),
            decreases self.bindings@.len() - idx,
        {
            out.push(self.bindings[idx]);
            assert(out@ =~= self.bindings@.subrange(0, idx as int + 1));
            idx = idx + 1;
        }
        assert(out@ =~= self.bindings@);
        proof {
            assert forall|i: int|
                0 <= i < out@.len() implies self@.contains_key(#[trigger] out@[i].0)
                && self@[out@[i].0] == out@[i].1@ by {
                assert forall|j: int| i < j < out@.len() implies out@[j].0 != out@[i].0 by {
                    assert(self.bindings@[i].0 != self.bindings@[j].0);
                }
                lemma_bindings_lookup(self.bindings@, i, out@[i].0);
            }
        }
        out
    }

    /// The number of bound inputs.
    pub fn len(&self) -> (r: usize)
        ensures
            r == self@.len(),
    {
        proof {
            use_type_invariant(self);
            lemma_unique_bindings_len(self.bindings@);
        }
        self.bindings.len()
    }
}

/// With unique inputs, the map has one key per binding.
proof fn lemma_unique_bindings_len(s: Seq<(UniversalInput, Action)>)
    requires
        keys_unique(s),
    ensures
        bindings_map(s).dom().finite(),
        bindings_map(s).len() == s.len(),
    decreases s.len(),
{
    if s.len() > 0 {
        let t = s.drop_last();
        assert(keys_unique(t));
        lemma_unique_bindings_len(t);
        lemma_bindings_domain(t, s.last().0);
        assert(!bindings_map(t).contains_key(s.last().0));
    }
}

/// Builds a scheme from `(action, input)` pairs, inserted in order, so that a
/// later pair for an input overrides an earlier one.
pub fn make_controls(bindings: &[(Action, UniversalInput)]) -> (r: ControlScheme)
    ensures
        r@ == controls_map(bindings@),
{
    let mut controls = ControlScheme::new();
    let mut idx: usize = 0;
    while idx < bindings.len()
        invariant
            idx <= bindings@.len(),
            controls@ == controls_map(bindings@.subrange(0, idx as int)),
        decreases bindings@.len() - idx,
    {
        let (action, input) = bindings[idx];
        controls.insert(action, input);
        assert(bindings@.subrange(0, idx as int + 1).drop_last() =~= bindings@.subrange(0, idx as int));
        idx = idx + 1;
    }
    assert(bindings@.subrange(0, bindings@.len() as int) =~= bindings@);
    controls
}

impl PartialEq for ControlScheme {
    fn eq(&self, other: &ControlScheme) -> (r: bool) {
        proof {
            use_type_invariant(self);
            use_type_invariant(other);
            lemma_unique_bindings_len(self.bindings@);
            lemma_unique_bindings_len(other.bindings@);
        }
        if self.bindings.len() != other.bindings.len() {
            return false;
        }
        let mut idx: usize = 0;
        while idx < self.bindings.len()
            invariant
                idx <= self.bindings@.len(),
                self.bindings@.len() == other.bindings@.len(),
                keys_unique(self.bindings@),
                forall|j: int|
                    0 <= j < idx ==> self@.contains_key(#[trigger] self.bindings@[j].0)
                        && other@.contains_key(self.bindings@[j].0) && other@[self.bindings@[j].0]
                        == self@[self.bindings@[j].0],
            decreases self.bindings@.len() - idx,
        {
            let (input, action) = self.bindings[idx];
            proof {
                assert forall|j: int| idx < j < self.bindings@.len() implies self.bindings@[j].0
                    != input by {
                    assert(self.bindings@[idx as int].0 != self.bindings@[j].0);
                }
                lemma_bindings_lookup(self.bindings@, idx as int, input);
            }
            match other.get(input) {
                Some(a) => {
                    if !str_eq(a.name, action.name) {
                        return false;
                    }
                },
                None => {
                    return false;
                },
            }
            idx = idx + 1;
        }
        proof {
            assert forall|k: UniversalInput| #[trigger] self@.dom().contains(k) implies other@.dom().contains(
                k,
            ) && other@[k] == self@[k] by {
                lemma_bindings_domain(self.bindings@, k);
                let i = choose|i: int| 0 <= i < self.bindings@.len() && self.bindings@[i].0 == k;
                assert(self@.contains_key(self.bindings@[i].0));
            }
            assert(self@.dom().subset_of(other@.dom()));
            assert(self@.dom().finite());
            assert(other@.dom().finite());
            assert(self@.dom().len() == other@.dom().len());
            vstd::set_lib::lemma_subset_equality(self@.dom(), other@.dom());
            assert(self@ =~= other@);
        }
        true
    }
}

impl Eq for ControlScheme {
}

impl Clone for ControlScheme {
    fn clone(&self) -> (r: ControlScheme)
        ensures
            r@ == self@,
    {
        ControlScheme { bindings: self.iter() }
    }
}

impl vstd::std_specs::cmp::PartialEqSpecImpl for ControlScheme {
    open spec fn obeys_eq_spec() -> bool {
        true
    }

    open spec fn eq_spec(&self, other: &ControlScheme) -> bool {
        self@ == other@
    }
}

impl Default for ControlScheme {
    fn default() -> (r: ControlScheme)
        ensures
            r@ == Map::<UniversalInput, Seq<char>>::empty(),
    {
        ControlScheme::new()
    }
}

/// Binding an action to an input a second time leaves the scheme as binding it
/// once did.
pub proof fn lemma_insert_idempotent(scheme: ControlScheme, action: Action, input: UniversalInput)
    ensures
        scheme@.insert(input, action@).insert(input, action@) == scheme@.insert(input, action@),
{
    assert(scheme@.insert(input, action@).insert(input, action@) =~= scheme@.insert(input, action@));
}

} // verus!
