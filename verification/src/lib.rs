//! A verified counter contract: one shared signed counter that any caller may
//! increment, and one personal counter per caller identity, kept in a
//! key-value store that resolves an absent key to zero.
//!
//! The hosting platform dispatches messages one at a time and supplies the
//! identity of the current caller; every operation here takes that identity
//! as a plain value, so the logic is independent of how the host
//! authenticates or transmits it.

use std::collections::HashMap;
use vstd::prelude::*;

verus! {

broadcast use vstd::std_specs::hash::group_hash_axioms;

/// The identity of whoever invoked the current operation, as the host
/// platform's dispatcher hands it to the contract. It is opaque to the
/// contract: nothing is read from it beyond whether two callers are the same.
#[derive(Clone, Copy, PartialEq, Eq, Structural, Debug, Hash)]
pub struct AccountId {
    pub id: u64,
}

/// The caller-visible state of the contract: the shared counter and the
/// per-caller personal counters that have been written so far.
pub struct CounterView {
    pub value: i32,
    pub personal: Map<AccountId, i32>,
}

/// The personal counter of `caller`: the stored value, or zero where no entry
/// exists. An absent key is a first-class valid state meaning zero, not an
/// error.
pub open spec fn personal_value(personal: Map<AccountId, i32>, caller: AccountId) -> i32 {
    if personal.contains_key(caller) {
        personal[caller]
    } else {
        0
    }
}

/// The personal counters, seen as a map over caller identities, of a store
/// keyed by the identities' underlying numbers.
spec fn lift_personal(inner: Map<u64, i32>) -> Map<AccountId, i32> {
    Map::new(
        |caller: AccountId| inner.contains_key(caller.id),
        |caller: AccountId| inner[caller.id],
    )
}

/// The counter contract: a shared `value` any caller may read and increment,
/// and one personal counter per caller, created on that caller's first write.
pub struct Incrementer {
    value: i32,
    h_map: HashMap<u64, i32>,
}

impl View for Incrementer {
    type V = CounterView;

    closed spec fn view(&self) -> CounterView {
        CounterView { value: self.value, personal: lift_personal(self.h_map@) }
    }
}

impl Incrementer {
    /// Creates a contract whose shared counter starts at `init_value` and
    /// whose personal counters are all (implicitly) zero. Accepts any `i32`.
    pub fn new(init_value: i32) -> (r: Self)
        ensures
            r@.value == init_value,
            r@.personal == Map::<AccountId, i32>::empty(),
    {
        let r = Incrementer { value: init_value, h_map: HashMap::new() };
        proof {
            assert(r@.personal =~= Map::<AccountId, i32>::empty());
        }
        r
    }

    /// Creates a contract whose shared counter starts at zero; equivalent to
    /// `new(0)`.
    pub fn default() -> (r: Self)
        ensures
            r@.value == 0,
            r@.personal == Map::<AccountId, i32>::empty(),
    {
        Self::new(0)
    }

    /// Returns the shared counter. Read-only and total.
    pub fn get(&self) -> (r: i32)
        ensures
            r == self@.value,
    {
        self.value
    }

    /// Adds `by` to the shared counter, wrapping around on overflow as
    /// fixed-width signed arithmetic does. Total: no error path, and the
    /// personal counters are untouched.
    pub fn inc(&mut self, by: i32)
        ensures
            final(self)@.value == old(self)@.value.wrapping_add(by),
            final(self)@.personal == old(self)@.personal,
    {
        self.value = self.value.wrapping_add(by);
    }

    /// Returns the personal counter of `caller`: zero until that caller's
    /// first `inc_mine`. Read-only and total.
    pub fn get_mine(&self, caller: AccountId) -> (r: i32)
        ensures
            r == personal_value(self@.personal, caller),
    {
        self.my_value_or_zero(&caller)
    }

    /// Looks `of` up in the personal store, resolving an absent key to zero.
    fn my_value_or_zero(&self, of: &AccountId) -> (r: i32)
        ensures
            r == personal_value(self@.personal, *of),
    {
        match self.h_map.get(&of.id) {
            Some(v) => *v,
            None => 0,
        }
    }

    /// Adds `by` to the personal counter of `caller`, wrapping around on
    /// overflow; a caller with no entry yet starts from zero. Inserts or
    /// overwrites exactly that caller's entry, and leaves the shared counter
    /// untouched. Total: no error path.
    pub fn inc_mine(&mut self, caller: AccountId, by: i32)
        ensures
            final(self)@.personal == old(self)@.personal.insert(
                caller,
                personal_value(old(self)@.personal, caller).wrapping_add(by),
            ),
            final(self)@.value == old(self)@.value,
    {
        let num = self.my_value_or_zero(&caller);
        self.h_map.insert(caller.id, num.wrapping_add(by));
        proof {
            assert(final(self)@.personal =~= old(self)@.personal.insert(
                caller,
                num.wrapping_add(by),
            ));
        }
    }
}

/// Personal counters are isolated: writing one caller's personal value, as
/// `inc_mine` does, leaves every other caller's personal value unchanged.
pub proof fn lemma_personal_isolation(
    personal: Map<AccountId, i32>,
    writer: AccountId,
    observer: AccountId,
    written: i32,
)
    requires
        writer != observer,
    ensures
        personal_value(personal.insert(writer, written), observer) == personal_value(
            personal,
            observer,
        ),
{
}

/// In a freshly constructed contract, with no entry written yet, every
/// caller's personal value is zero.
pub proof fn lemma_fresh_personal_zero(caller: AccountId)
    ensures
        personal_value(Map::<AccountId, i32>::empty(), caller) == 0,
{
}

/// What wrapping addition means for the counters: the exact sum where it fits
/// in an `i32`, and the sum shifted by one width of the type where it
/// overflows or underflows.
pub proof fn lemma_increment_wraps(value: i32, by: i32)
    ensures
        i32::MIN <= value + by <= i32::MAX ==> value.wrapping_add(by) == value + by,
        value + by > i32::MAX ==> value.wrapping_add(by) == value + by - 0x1_0000_0000,
        value + by < i32::MIN ==> value.wrapping_add(by) == value + by + 0x1_0000_0000,
{
}

} // verus!
