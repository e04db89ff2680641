//! The kind of a user-interface event, as far as an error speaks of it.

use vstd::prelude::*;
use vstd::string::*;

verus! {

/// A category of event (a click, a resize), known by the name under which
/// it shows in diagnostics. Two kinds are the same kind when their names
/// are the same.
pub struct EventKind {
    name: String,
}

impl View for EventKind {
    type V = Seq<char>;

    closed spec fn view(&self) -> Seq<char> {
        self.name@
    }
}

impl EventKind {
    /// The kind of event that shows as `name`.
    pub fn new(name: &str) -> (r: EventKind)
        ensures
            r@ == name@,
    {
        EventKind { name: String::from_str(name) }
    }

    /// The name under which this kind shows.
    pub fn name(&self) -> (r: &str)
        ensures
            r@ == self@,
    {
        self.name.as_str()
    }
}

impl Clone for EventKind {
    fn clone(&self) -> (r: EventKind)
        ensures
            r@ == self@,
    {
        EventKind { name: self.name.clone() }
    }
}

impl PartialEq for EventKind {
    fn eq(&self, other: &EventKind) -> (r: bool) {
        self.name == other.name
    }
}

impl Eq for EventKind {

}

impl vstd::std_specs::cmp::PartialEqSpecImpl for EventKind {
    open spec fn obeys_eq_spec() -> bool {
        true
    }

    open spec fn eq_spec(&self, other: &EventKind) -> bool {
        self@ == other@
    }
}

} // verus!
