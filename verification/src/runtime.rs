//! The boundary to the host JVM.
//!
//! Every operation the wrappers need from the runtime is a method of
//! [`JvmRuntime`], contracted over a mathematical model of the runtime's
//! state: which array handles it has handed out (and their lengths), which
//! pinned references it has registered, and which references have been
//! released back to it.  A handle is a pointer-sized identifier; the value
//! `0` is the null handle, the runtime's failure signal.

use vstd::prelude::*;

verus! {

/// `m2` keeps every handle of `m1`, with the same length.
///
/// Allocation and promotion may hand out new handles but never change what
/// an existing handle refers to; only an explicit release retires one.
pub open spec fn extends(m1: Map<u64, int>, m2: Map<u64, int>) -> bool {
    forall|h: u64| #[trigger] m1.contains_key(h) ==> m2.contains_key(h) && m2[h] == m1[h]
}

/// Law: an array created with length `length` reports exactly `length`.
///
/// Creating an array of `length` elements leaves the runtime mapping the
/// wrapper's handle to `length`, and a length query answers exactly that
/// mapping; so any answer `r` a length query may give for that handle
/// against that runtime state is `length` itself.
pub proof fn lemma_created_array_reports_length<R: JvmRuntime>(
    jvm: R,
    handle: u64,
    length: i32,
    r: i32,
)
    requires
        jvm.arrays().contains_key(handle),
        jvm.arrays()[handle] == length as int,
        r as int == jvm.arrays()[handle],
    ensures
        r == length,
{
}

/// The operations the wrappers perform against a host JVM.
///
/// The model is three-fold:
/// - [`arrays`](Self::arrays): every array handle the runtime has handed
///   out, mapped to the element count of the array it refers to;
/// - [`pins`](Self::pins): the log of pinned (global) references returned by
///   successful promotion calls, in order;
/// - [`releases`](Self::releases): the log of handles passed to the release
///   operation, in order.
///
/// Null handles (`0`) never appear as valid arrays, pins, or releases of a
/// well-behaved runtime; each method's contract states how it may grow the
/// model and what a null result means.  Two willingness predicates,
/// [`grants_allocation`](Self::grants_allocation) and
/// [`grants_promotion`](Self::grants_promotion), say when success is owed:
/// a runtime may refuse (memory pressure, a full reference table), but
/// while it is willing, a valid request must not come back null.
pub trait JvmRuntime {
    /// Array handles handed out so far, each mapped to its length.
    spec fn arrays(&self) -> Map<u64, int>;

    /// Pinned references returned by successful promotions, oldest first.
    spec fn pins(&self) -> Seq<u64>;

    /// Handles handed to the release operation, oldest first.
    spec fn releases(&self) -> Seq<u64>;

    /// The runtime's own well-formedness; established by its constructor and
    /// kept by every operation.
    spec fn inv(&self) -> bool;

    /// The runtime is currently willing to grant array allocations (it has
    /// the memory and accepts the request).  While this holds, allocating
    /// with a valid length returns a non-null handle; while it does not,
    /// every allocation comes back null.
    spec fn grants_allocation(&self) -> bool;

    /// The runtime is currently willing to register global references (its
    /// reference table has room).  While this holds, promoting a non-null
    /// handle returns a non-null pinned reference; while it does not, every
    /// request comes back null and nothing is registered.
    spec fn grants_promotion(&self) -> bool;

    /// Allocate a new `int` array of `length` elements.
    ///
    /// Returns a transient handle to the array, or the null handle when the
    /// runtime refuses the allocation; a negative length is always refused,
    /// and a valid length is granted while the runtime grants allocations.
    fn new_int_array(&mut self, length: i32) -> (h: u64)
        requires
            old(self).inv(),
        ensures
            final(self).inv(),
            final(self).grants_allocation() == old(self).grants_allocation(),
            final(self).grants_promotion() == old(self).grants_promotion(),
            final(self).pins() == old(self).pins(),
            final(self).releases() == old(self).releases(),
            extends(old(self).arrays(), final(self).arrays()),
            length < 0 ==> h == 0,
            old(self).grants_allocation() && 0 <= length ==> h != 0,
            !old(self).grants_allocation() ==> h == 0,
            h != 0 ==> final(self).arrays().contains_key(h)
                && final(self).arrays()[h] == length as int,
    ;

    /// Allocate a new object array of `length` elements of class `class`,
    /// every slot initialized to `initial_element` (which may be the null
    /// handle: an array of nulls).
    ///
    /// Returns a transient handle to the array, or the null handle when the
    /// runtime refuses the allocation; a negative length is always refused,
    /// and a valid length is granted while the runtime grants allocations.
    fn new_object_array(&mut self, length: i32, class: u64, initial_element: u64) -> (h: u64)
        requires
            old(self).inv(),
            class != 0,
        ensures
            final(self).inv(),
            final(self).grants_allocation() == old(self).grants_allocation(),
            final(self).grants_promotion() == old(self).grants_promotion(),
            final(self).pins() == old(self).pins(),
            final(self).releases() == old(self).releases(),
            extends(old(self).arrays(), final(self).arrays()),
            length < 0 ==> h == 0,
            old(self).grants_allocation() && 0 <= length ==> h != 0,
            !old(self).grants_allocation() ==> h == 0,
            h != 0 ==> final(self).arrays().contains_key(h)
                && final(self).arrays()[h] == length as int,
    ;

    /// Query the element count of the array `h` refers to.
    fn get_array_length(&self, h: u64) -> (r: i32)
        requires
            self.inv(),
            self.arrays().contains_key(h),
        ensures
            r as int == self.arrays()[h],
    ;

    /// Promote the transient handle `h` to a pinned (global) reference.
    ///
    /// On success the result is a fresh non-null handle referring to the same
    /// object as `h`, registered in the pin log; the null handle means the
    /// runtime could not register the reference, and nothing was registered.
    /// Registration is granted while the runtime grants promotions.
    fn new_global_ref(&mut self, h: u64) -> (r: u64)
        requires
            old(self).inv(),
            h != 0,
        ensures
            final(self).inv(),
            final(self).grants_allocation() == old(self).grants_allocation(),
            final(self).grants_promotion() == old(self).grants_promotion(),
            old(self).grants_promotion() ==> r != 0,
            !old(self).grants_promotion() ==> r == 0,
            final(self).releases() == old(self).releases(),
            extends(old(self).arrays(), final(self).arrays()),
            r == 0 ==> final(self).pins() == old(self).pins()
                && final(self).arrays() == old(self).arrays(),
            r != 0 ==> final(self).pins() == old(self).pins().push(r),
            r != 0 && old(self).arrays().contains_key(h) ==>
                final(self).arrays().contains_key(r)
                && final(self).arrays()[r] == old(self).arrays()[h],
    ;

    /// Release the pinned reference `h`, allowing the collector to reclaim
    /// the object it pinned.  The handle is retired: it no longer refers to
    /// a valid array, so no later length query can be made through it.
    fn delete_global_ref(&mut self, h: u64)
        requires
            old(self).inv(),
            h != 0,
        ensures
            final(self).inv(),
            final(self).grants_allocation() == old(self).grants_allocation(),
            final(self).grants_promotion() == old(self).grants_promotion(),
            final(self).arrays() == old(self).arrays().remove(h),
            final(self).pins() == old(self).pins(),
            final(self).releases() == old(self).releases().push(h),
    ;
}

} // verus!
