//! Menu activation events.

use vstd::prelude::*;

verus! {

/// The activation of one menu entry, named by the entry's index.
///
/// The platform's thread makes one event for every click and sends it over
/// the channel; the application takes the events off the channel one by one.
/// The view of an event is the index that it carries.
#[derive(Clone, Copy)]
pub struct SystrayEvent {
    menu_index: u32,
}

impl View for SystrayEvent {
    type V = u32;

    closed spec fn view(&self) -> u32 {
        self.menu_index
    }
}

impl SystrayEvent {
    /// The index of the entry that was activated.
    pub fn menu_index(&self) -> (index: u32)
        ensures
            index == self@,
    {
        self.menu_index
    }

    /// An event is nothing but its index: two events for one index are equal.
    pub proof fn lemma_same_index_same_event(self, other: SystrayEvent)
        requires
            self@ == other@,
        ensures
            self == other,
    {
    }
}

impl From<u32> for SystrayEvent {
    fn from(menu_index: u32) -> (event: Self)
        ensures
            event@ == menu_index,
    {
        Self { menu_index }
    }
}

impl vstd::std_specs::convert::FromSpecImpl<u32> for SystrayEvent {
    open spec fn obeys_from_spec() -> bool {
        true
    }

    closed spec fn from_spec(menu_index: u32) -> Self {
        SystrayEvent { menu_index }
    }
}

impl From<SystrayEvent> for u32 {
    fn from(event: SystrayEvent) -> (menu_index: u32)
        ensures
            menu_index == event@,
    {
        event.menu_index
    }
}

impl vstd::std_specs::convert::FromSpecImpl<SystrayEvent> for u32 {
    open spec fn obeys_from_spec() -> bool {
        true
    }

    open spec fn from_spec(event: SystrayEvent) -> u32 {
        event@
    }
}

} // verus!
