//! Key snapshots and the detection of a released key between two of them.

use std::collections::BTreeSet;

use vstd::prelude::*;

verus! {

/// Number of logical key codes: the keys are `0..KEY_COUNT`.
pub const KEY_COUNT: u16 = 16;

/// Whether key `k` is held in `previous` and no longer in `current`.
pub open spec fn is_released(previous: Set<u16>, current: Set<u16>, k: u16) -> bool {
    k < KEY_COUNT && previous.contains(k) && !current.contains(k)
}

/// The smallest key code that is held in `previous` and no longer in
/// `current`, or `None` when no key was let go.
pub fn released_key(previous: &BTreeSet<u16>, current: &BTreeSet<u16>) -> (r: Option<u16>)
    ensures
        r matches Some(k) ==> is_released(previous@, current@, k) && forall|j: u16|
            j < k ==> !#[trigger] is_released(previous@, current@, j),
        r is None ==> forall|j: u16| !#[trigger] is_released(previous@, current@, j),
{
    let mut k: u16 = 0;
    while k < KEY_COUNT
        invariant
            k <= KEY_COUNT,
            forall|j: u16| j < k ==> !#[trigger] is_released(previous@, current@, j),
        decreases KEY_COUNT - k,
    {
        if previous.contains(&k) && !current.contains(&k) {
            return Some(k);
        }
        k = k + 1;
    }
    None
}

/// The key snapshot of the last cycle, kept to tell which key was let go.
pub struct InputLatch {
    previous: BTreeSet<u16>,
}

impl InputLatch {
    /// The keys held in the last snapshot.
    pub closed spec fn previous(&self) -> Set<u16> {
        self.previous@
    }

    /// A latch that has seen no key yet.
    pub fn new() -> (r: InputLatch)
        ensures
            r.previous() == Set::<u16>::empty(),
    {
        InputLatch { previous: BTreeSet::new() }
    }

    /// Takes this cycle's snapshot of held keys and returns the key let go
    /// since the last one, as `released_key` picks it. Once a release is
    /// reported the latch starts afresh, so that it is consumed once.
    pub fn update(&mut self, current: &BTreeSet<u16>) -> (r: Option<u16>)
        ensures
            r matches Some(k) ==> is_released(old(self).previous(), current@, k) && forall|j: u16|
                j < k ==> !#[trigger] is_released(old(self).previous(), current@, j),
            r is None ==> forall|j: u16| !#[trigger] is_released(old(self).previous(), current@, j),
            final(self).previous() == if r is Some {
                Set::<u16>::empty()
            } else {
                current@
            },
    {
        let r = released_key(&self.previous, current);
        if r.is_some() {
            self.previous = BTreeSet::new();
        } else {
            self.previous = current.clone();
        }
        r
    }
}

} // verus!
