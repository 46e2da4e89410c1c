//! Game-defined actions.

use vstd::prelude::*;

verus! {

/// An abstract input that game logic reads ("Jump", "MoveLeft"), identified by
/// its name alone.
#[derive(Clone, Copy, Debug, PartialEq, Eq, Hash)]
pub struct Action {
    pub name: &'static str,
}

impl View for Action {
    type V = Seq<char>;

    open spec fn view(&self) -> Seq<char> {
        self.name@
    }
}

impl From<&'static str> for Action {
    fn from(name: &'static str) -> (r: Action) {
        Action { name }
    }
}

impl vstd::std_specs::convert::FromSpecImpl<&'static str> for Action {
    open spec fn obeys_from_spec() -> bool {
        true
    }

    open spec fn from_spec(v: &'static str) -> Action {
        Action { name: v }
    }
}

} // verus!
