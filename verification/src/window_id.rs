//! Unique and persistent window identifiers.
//!
//! Identifiers are handed out by a counter that starts at 1 and counts up, so
//! no identifier is 0 and none is handed out twice. The counter wraps to 0
//! after the largest `u64`; from then on it is exhausted and hands out nothing.

use tracing::field::DisplayValue;
use vstd::prelude::*;

verus! {

#[verifier::external_type_specification]
#[verifier::external_body]
#[verifier::reject_recursive_types(T)]
pub struct ExDisplayValue<T: core::fmt::Display>(DisplayValue<T>);

/// A unique and persistent identifier for a window.
///
/// Applications should only use this identifier and not be concerned with the
/// platform's own window ids, which change when the application is suspended
/// and resumed while this one stays the same.
#[derive(Clone, Copy, Debug, Hash, PartialEq, Eq, Structural)]
pub struct WindowId(u64);

impl View for WindowId {
    type V = u64;

    closed spec fn view(&self) -> u64 {
        self.0
    }
}

/// The source of fresh window identifiers: the identifier it hands out next,
/// or 0 once every identifier has been handed out.
#[derive(Debug)]
pub struct WindowIdCounter {
    next: u64,
}

impl View for WindowIdCounter {
    type V = u64;

    closed spec fn view(&self) -> u64 {
        self.next
    }
}

/// The counter value after one identifier was handed out at value `c`: the
/// next integer, wrapping to 0 past the largest `u64`. An exhausted counter
/// stays exhausted.
pub open spec fn counter_step(c: u64) -> u64 {
    if c == 0 || c == u64::MAX {
        0
    } else {
        (c + 1) as u64
    }
}

/// The counter value after `k` identifiers were handed out from value `c`.
pub open spec fn counter_after(c: u64, k: nat) -> u64
    decreases k,
{
    if k == 0 {
        c
    } else {
        counter_step(counter_after(c, (k - 1) as nat))
    }
}

impl WindowIdCounter {
    /// A counter whose first identifier is 1.
    pub fn new() -> (r: WindowIdCounter)
        ensures
            r@ == 1,
    {
        WindowIdCounter { next: 1 }
    }

    /// Every identifier has been handed out.
    pub fn is_exhausted(&self) -> (r: bool)
        ensures
            r == (self@ == 0),
    {
        self.next == 0
    }
}

impl WindowId {
    /// No identifier is 0.
    #[verifier::type_invariant]
    spec fn nonzero(self) -> bool {
        self.0 != 0
    }

    /// The identifier's number, which is never 0.
    pub fn get(&self) -> (r: u64)
        ensures
            r == self@,
            r != 0,
    {
        proof {
            use_type_invariant(self);
        }
        self.0
    }

    /// Allocate a new, unique `WindowId` from `counter`: the counter's current
    /// value, after which the counter moves on by one.
    pub fn next(counter: &mut WindowIdCounter) -> (id: WindowId)
        requires
            old(counter)@ != 0,
        ensures
            id@ == old(counter)@,
            id@ != 0,
            final(counter)@ == counter_step(old(counter)@),
    {
        let id = counter.next;
        counter.next = if id == u64::MAX {
            0
        } else {
            id + 1
        };
        WindowId(id)
    }

    /// A serialized representation of the `WindowId` for debugging purposes:
    /// the identifier's number wrapped for display.
    pub fn trace(self) -> (r: DisplayValue<u64>)
        ensures
            r == display_of(self@),
    {
        display_id(self.0)
    }
}

/// What `tracing::field::display` makes of a number: the number wrapped so
/// that tracing records it through its `Display` form.
pub uninterp spec fn display_of(id: u64) -> DisplayValue<u64>;

/// Wraps `tracing::field::display`, which wraps its argument, and only it, in
/// a `DisplayValue`; the result is named `display_of` of the argument.
#[verifier::external_body]
fn display_id(id: u64) -> (r: DisplayValue<u64>)
    ensures
        r == display_of(id),
{
    tracing::field::display(id)
}

/// Counting up from `c`, the counter holds `c + k` after `k` identifiers while
/// that fits in a `u64`, and 0 (exhausted) from then on.
pub proof fn lemma_counter_after(c: u64, k: nat)
    requires
        c != 0,
    ensures
        c + k <= u64::MAX ==> counter_after(c, k) == c + k,
        c + k > u64::MAX ==> counter_after(c, k) == 0,
    decreases k,
{
    if k > 0 {
        lemma_counter_after(c, (k - 1) as nat);
    }
}

/// Identifiers are unique: of the identifiers that one counter hands out, the
/// `i`-th and the `j`-th (`i < j`) differ, and none of them is 0.
pub proof fn lemma_window_ids_unique(start: u64, i: nat, j: nat)
    requires
        start != 0,
        i < j,
        counter_after(start, j) != 0,
    ensures
        counter_after(start, i) != counter_after(start, j),
        counter_after(start, i) != 0,
{
    lemma_counter_after(start, i);
    lemma_counter_after(start, j);
}

} // verus!
