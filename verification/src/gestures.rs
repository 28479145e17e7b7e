//! Gestures map input events to the actions of a user interface, so that
//! users can choose which events bring an action about.

use crate::events::Event;
use vstd::prelude::*;

verus! {

/// Something that recognises some events as its own.
pub trait Gesture {
    /// Whether `event` is one of this gesture's events.
    spec fn matches(&self, event: &Event) -> bool;

    fn matches_event(&self, event: &Event) -> (matched: bool)
        ensures
            matched == self.matches(event),
    ;
}

/// The gestures that events are looked up in, in the order in which they
/// were registered.
pub struct GestureMapping<'gm, G: Gesture> {
    gestures: Vec<&'gm G>,
}

impl<'gm, G: Gesture> View for GestureMapping<'gm, G> {
    type V = Seq<&'gm G>;

    closed spec fn view(&self) -> Seq<&'gm G> {
        self.gestures@
    }
}

/// Whether `idx` is the position of the gesture registered last among those
/// of `gestures` that match `event`.
pub open spec fn is_last_match<G: Gesture>(gestures: Seq<&G>, event: &Event, idx: int) -> bool {
    &&& 0 <= idx < gestures.len()
    &&& gestures[idx].matches(event)
    &&& forall|later: int| idx < later < gestures.len() ==> !(#[trigger] gestures[later]).matches(event)
}

impl<'gm, G: Gesture> GestureMapping<'gm, G> {
    /// A mapping without gestures.
    pub fn new() -> (mapping: Self)
        ensures
            mapping@ == Seq::<&'gm G>::empty(),
    {
        GestureMapping { gestures: Vec::new() }
    }

    /// Registers `gesture` behind those that the mapping holds.
    pub fn register(&mut self, gesture: &'gm G)
        ensures
            final(self)@ == old(self)@.push(gesture),
    {
        self.gestures.push(gesture);
    }

    /// The gesture registered last among those that match `event`, or `None`
    /// where no gesture matches.
    pub fn lookup_gesture(&self, event: &Event) -> (found: Option<&'gm G>)
        ensures
            found.is_none() <==> forall|idx: int|
                0 <= idx < self@.len() ==> !(#[trigger] self@[idx]).matches(event),
            found.is_some() ==> exists|idx: int|
                is_last_match(self@, event, idx) && self@[idx] == found.unwrap(),
    {
        let mut found: Option<&'gm G> = None;
        let ghost mut at: int = -1;
        let mut idx: usize = 0;
        while idx < self.gestures.len()
            invariant
                idx <= self.gestures.len(),
                -1 <= at < idx,
                found.is_none() <==> at == -1,
                found.is_some() ==> self@[at] == found.unwrap() && self@[at].matches(event),
                forall|later: int| at < later < idx ==> !(#[trigger] self@[later]).matches(event),
            decreases self.gestures.len() - idx,
        {
            let gesture: &'gm G = self.gestures[idx];
            if gesture.matches_event(event) {
                found = Some(gesture);
                proof {
                    at = idx as int;
                }
            }
            idx += 1;
        }
        proof {
            if found.is_some() {
                assert(is_last_match(self@, event, at) && self@[at] == found.unwrap());
            }
        }
        found
    }
}

impl<'gm, G: Gesture> Default for GestureMapping<'gm, G> {
    /// A mapping without gestures.
    fn default() -> (mapping: Self)
        ensures
            mapping@ == Seq::<&'gm G>::empty(),
    {
        GestureMapping::new()
    }
}

} // verus!
