//! Memory fences around the cursors of the shared ring.
//!
//! The bytes of the ring and its cursors are read and written by two sides
//! that share nothing else. A side puts a release fence between its last
//! access to the slots and the store that moves its cursor, and an acquire
//! fence between the load of the other side's cursor and its first access
//! to the slots.

use core::sync::atomic::Ordering;
use vstd::prelude::*;

verus! {

/// `core::sync::atomic::fence`. It returns nothing and changes no value
/// that the library can name; it panics when asked for relaxed ordering,
/// which is left out here.
pub assume_specification[ core::sync::atomic::fence ](order: Ordering)
    requires
        !(order is Relaxed),
;

/// Later loads and stores stay behind the loads before this point.
pub(crate) fn acquire() {
    core::sync::atomic::fence(Ordering::Acquire)
}

/// Earlier loads and stores stay before the stores behind this point.
pub(crate) fn release() {
    core::sync::atomic::fence(Ordering::Release)
}

} // verus!
