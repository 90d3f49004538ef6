//! An owned, pinned reference to a JVM `int` array.

use vstd::prelude::*;

use crate::promotion::promote;
use crate::runtime::JvmRuntime;
use crate::runtime::extends;

verus! {

/// Represents an int array in the JVM.
///
/// Holds exactly one pinned (global) array reference, established at
/// construction; the wrapped handle is never null for the lifetime of the
/// wrapper.  Consuming the wrapper with [`release`](Self::release) hands the
/// reference back to the runtime; dropping it without releasing leaks the
/// pin against the runtime's collector, so release must be the wrapper's
/// last use.
pub struct MyJvmIntArray {
    jvm_array_ptr: u64,
}

impl MyJvmIntArray {
    /// The pinned array reference this wrapper owns.
    pub closed spec fn handle(&self) -> u64 {
        self.jvm_array_ptr
    }

    /// A wrapper only ever holds a non-null pinned reference.
    pub open spec fn wf(&self) -> bool {
        self.handle() != 0
    }

    /// The underlying pinned array reference, for use in other runtime calls
    /// (an escape hatch; callers must not release it themselves).
    pub fn jvm_array_ptr(&self) -> (r: u64)
        ensures
            r == self.handle(),
    {
        self.jvm_array_ptr
    }

    /// Allocate a new `int` array of `length` elements and pin it.
    ///
    /// Absence means the runtime refused the allocation (a negative length
    /// always is refused) or could not register a global reference; either
    /// way nothing was registered and nothing must later be released.  A
    /// valid length is granted while the runtime grants allocations and
    /// promotions.  On success the runtime maps the wrapper's handle to
    /// exactly `length` elements, and exactly one pin was registered: the
    /// wrapper's handle.
    pub fn new<R: JvmRuntime>(jvm: &mut R, length: i32) -> (r: Option<MyJvmIntArray>)
        requires
            old(jvm).inv(),
        ensures
            final(jvm).inv(),
            final(jvm).grants_allocation() == old(jvm).grants_allocation(),
            final(jvm).grants_promotion() == old(jvm).grants_promotion(),
            r is Some <==> 0 <= length && old(jvm).grants_allocation()
                && old(jvm).grants_promotion(),
            final(jvm).releases() == old(jvm).releases(),
            extends(old(jvm).arrays(), final(jvm).arrays()),
            length < 0 ==> r is None,
            r is None ==> final(jvm).pins() == old(jvm).pins(),
            r matches Some(a) ==> a.wf() && 0 <= length
                && final(jvm).arrays().contains_key(a.handle())
                && final(jvm).arrays()[a.handle()] == length as int
                && final(jvm).pins() == old(jvm).pins().push(a.handle()),
    {
        let jvm_array_ptr = jvm.new_int_array(length);

        MyJvmIntArray::from_array_ptr(jvm, jvm_array_ptr)
    }

    /// Pin a transient array handle, obtained elsewhere (say, as a runtime
    /// callback argument), so that it outlives the current execution
    /// context.
    ///
    /// A null transient handle yields absence without touching the runtime.
    /// A failed promotion yields absence too, with nothing registered and
    /// the transient handle left untouched.  A non-null handle is granted
    /// while the runtime grants promotions.  On success the wrapper's handle
    /// is the pinned reference the promotion returned, referring to the same
    /// array as the transient handle.
    pub fn from_array_ptr<R: JvmRuntime>(jvm: &mut R, jvm_array_ptr: u64) -> (r: Option<
        MyJvmIntArray,
    >)
        requires
            old(jvm).inv(),
        ensures
            final(jvm).inv(),
            final(jvm).grants_allocation() == old(jvm).grants_allocation(),
            final(jvm).grants_promotion() == old(jvm).grants_promotion(),
            r is Some <==> jvm_array_ptr != 0 && old(jvm).grants_promotion(),
            final(jvm).releases() == old(jvm).releases(),
            extends(old(jvm).arrays(), final(jvm).arrays()),
            jvm_array_ptr == 0 ==> r is None && *final(jvm) == *old(jvm),
            r is None ==> final(jvm).pins() == old(jvm).pins()
                && final(jvm).arrays() == old(jvm).arrays(),
            r matches Some(a) ==> a.wf() && jvm_array_ptr != 0
                && final(jvm).pins() == old(jvm).pins().push(a.handle())
                && (old(jvm).arrays().contains_key(jvm_array_ptr) ==>
                    final(jvm).arrays().contains_key(a.handle())
                    && final(jvm).arrays()[a.handle()]
                        == old(jvm).arrays()[jvm_array_ptr]),
    {
        match promote(jvm, jvm_array_ptr) {
            None => None,
            Some(pinned) => Some(MyJvmIntArray { jvm_array_ptr: pinned }),
        }
    }

    /// The element count of the pinned array; always answerable once the
    /// wrapper exists, since the reference is valid by construction.
    pub fn get_length<R: JvmRuntime>(&self, jvm: &R) -> (r: i32)
        requires
            self.wf(),
            jvm.inv(),
            jvm.arrays().contains_key(self.handle()),
        ensures
            r as int == jvm.arrays()[self.handle()],
    {
        jvm.get_array_length(self.jvm_array_ptr)
    }

    /// Release the pinned array reference, exactly once, by consuming the
    /// wrapper.  The handle handed back to the runtime is the pinned
    /// reference the promotion returned, never the original transient one.
    pub fn release<R: JvmRuntime>(self, jvm: &mut R)
        requires
            self.wf(),
            old(jvm).inv(),
        ensures
            final(jvm).inv(),
            final(jvm).grants_allocation() == old(jvm).grants_allocation(),
            final(jvm).grants_promotion() == old(jvm).grants_promotion(),
            final(jvm).arrays() == old(jvm).arrays().remove(self.handle()),
            final(jvm).pins() == old(jvm).pins(),
            final(jvm).releases() == old(jvm).releases().push(self.handle()),
    {
        jvm.delete_global_ref(self.jvm_array_ptr);
    }
}

} // verus!
