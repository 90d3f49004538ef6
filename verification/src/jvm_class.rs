//! An owned, pinned reference to a JVM class descriptor.

use vstd::prelude::*;

use crate::promotion::promote;
use crate::runtime::JvmRuntime;
use crate::runtime::extends;

verus! {

/// Represents a class in the JVM.
///
/// Holds exactly one pinned (global) class reference, established at
/// construction; the wrapped handle is never null for the lifetime of the
/// wrapper.  Consuming the wrapper with [`release`](Self::release) hands the
/// reference back to the runtime; dropping it without releasing leaks the
/// pin against the runtime's collector, so release must be the wrapper's
/// last use.
pub struct JvmClass {
    jvm_class_ptr: u64,
}

impl JvmClass {
    /// The pinned class reference this wrapper owns.
    pub closed spec fn handle(&self) -> u64 {
        self.jvm_class_ptr
    }

    /// A wrapper only ever holds a non-null pinned reference.
    pub open spec fn wf(&self) -> bool {
        self.handle() != 0
    }

    /// The underlying pinned class reference, for use in other runtime calls
    /// (an escape hatch; callers must not release it themselves).
    pub fn jvm_class_ptr(&self) -> (r: u64)
        ensures
            r == self.handle(),
    {
        self.jvm_class_ptr
    }

    /// Pin a transient class handle, obtained elsewhere (say, from the
    /// runtime's find-class call), so that it outlives the current execution
    /// context.
    ///
    /// Absence means the transient handle was null, or the runtime could not
    /// register a global reference; either way nothing was registered and
    /// nothing must later be released.  A non-null handle is granted while
    /// the runtime grants promotions.
    pub fn new<R: JvmRuntime>(jvm: &mut R, jvm_class_ptr: u64) -> (r: Option<JvmClass>)
        requires
            old(jvm).inv(),
        ensures
            final(jvm).inv(),
            final(jvm).grants_allocation() == old(jvm).grants_allocation(),
            final(jvm).grants_promotion() == old(jvm).grants_promotion(),
            r is Some <==> jvm_class_ptr != 0 && old(jvm).grants_promotion(),
            final(jvm).releases() == old(jvm).releases(),
            extends(old(jvm).arrays(), final(jvm).arrays()),
            jvm_class_ptr == 0 ==> r is None && *final(jvm) == *old(jvm),
            r is None ==> final(jvm).pins() == old(jvm).pins()
                && final(jvm).arrays() == old(jvm).arrays(),
            r matches Some(c) ==> c.wf() && jvm_class_ptr != 0
                && final(jvm).pins() == old(jvm).pins().push(c.handle()),
    {
        match promote(jvm, jvm_class_ptr) {
            None => None,
            Some(pinned) => Some(JvmClass { jvm_class_ptr: pinned }),
        }
    }

    /// Release the pinned class reference, exactly once, by consuming the
    /// wrapper.
    pub fn release<R: JvmRuntime>(self, jvm: &mut R)
        requires
            self.wf(),
            old(jvm).inv(),
        ensures
            final(jvm).inv(),
            final(jvm).grants_allocation() == old(jvm).grants_allocation(),
            final(jvm).grants_promotion() == old(jvm).grants_promotion(),
            final(jvm).arrays() == old(jvm).arrays().remove(self.handle()),
            final(jvm).pins() == old(jvm).pins(),
            final(jvm).releases() == old(jvm).releases().push(self.handle()),
    {
        jvm.delete_global_ref(self.jvm_class_ptr);
    }
}

} // verus!
