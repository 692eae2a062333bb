//! The numbers of web views, and which of them are alive.

use std::collections::HashSet;
use vstd::prelude::*;

verus! {

/// The number that comes `count` numbers after `start`: after the highest number, counting goes on
/// at zero.
pub open spec fn number_after(start: u32, count: nat) -> u32 {
    ((start + count) % 0x1_0000_0000) as u32
}

/// Where the numbers of web views come from.
#[derive(Debug)]
pub struct Counter {
    /// The number that comes next.
    pub next: u32,
}

impl Counter {
    /// A counter that starts at one.
    pub fn new() -> (r: Self)
        ensures
            r.next == 1,
    {
        Counter { next: 1 }
    }

    /// Gives the next number.
    pub fn next(&mut self) -> (r: u32)
        ensures
            r == old(self).next,
            final(self).next == number_after(old(self).next, 1),
            old(self).next < u32::MAX ==> final(self).next == old(self).next + 1,
            old(self).next == u32::MAX ==> final(self).next == 0,
    {
        let number: u32 = self.next;
        self.next = number.wrapping_add(1);
        number
    }
}

/// The numbers of the web views that were made and not yet dropped.
#[derive(Debug)]
pub struct WebViewIds {
    ids: HashSet<u32>,
}

impl View for WebViewIds {
    type V = Set<u32>;

    closed spec fn view(&self) -> Set<u32> {
        self.ids@
    }
}

impl WebViewIds {
    /// No web views.
    pub fn new() -> (r: Self)
        ensures
            r@ == Set::<u32>::empty(),
    {
        broadcast use vstd::std_specs::hash::group_hash_axioms;

        WebViewIds { ids: HashSet::new() }
    }

    /// Notes that a web view is alive.
    pub fn insert(&mut self, id: u32)
        ensures
            final(self)@ == old(self)@.insert(id),
    {
        broadcast use vstd::std_specs::hash::group_hash_axioms;

        self.ids.insert(id);
    }

    /// Notes that a web view is gone.
    pub fn remove(&mut self, id: u32)
        ensures
            final(self)@ == old(self)@.remove(id),
    {
        broadcast use vstd::std_specs::hash::group_hash_axioms;

        self.ids.remove(&id);
    }

    /// Whether a web view is alive.
    pub fn contains(&self, id: u32) -> (r: bool)
        ensures
            r == self@.contains(id),
    {
        broadcast use vstd::std_specs::hash::group_hash_axioms;

        self.ids.contains(&id)
    }
}

} // verus!
