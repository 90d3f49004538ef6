//! The shared promotion step.
//!
//! Every wrapper kind pins its reference the same way: validate the
//! transient handle, ask the runtime for a durable (global) reference,
//! validate that too.  The step is factored out here, once, generic over the
//! runtime.

use vstd::prelude::*;

use crate::runtime::JvmRuntime;
use crate::runtime::extends;

verus! {

/// What the promotion protocol asks for next, given a transient handle.
#[derive(Debug, PartialEq, Eq, Structural)]
pub enum PromotionStep {
    /// Ask the runtime for a global reference on this (non-null) handle.
    RequestPin(u64),
    /// Promotion is over, with this outcome; the runtime was not involved.
    Done(Option<u64>),
}

/// The first decision of the promotion protocol: a null transient handle
/// ends promotion at once, with absence and no runtime call; any other
/// handle must be taken to the runtime's global-reference operation.
pub fn promotion_begin(transient: u64) -> (s: PromotionStep)
    ensures
        transient == 0 ==> s == PromotionStep::Done(None::<u64>),
        transient != 0 ==> s == PromotionStep::RequestPin(transient),
{
    if transient == 0 {
        PromotionStep::Done(None)
    } else {
        PromotionStep::RequestPin(transient)
    }
}

/// The second decision of the promotion protocol: judge the handle the
/// runtime's global-reference operation answered with.  Null means the
/// registration failed and there is nothing to own; anything else is the
/// pinned reference to keep.
pub fn promotion_finish(pinned: u64) -> (r: Option<u64>)
    ensures
        pinned == 0 ==> r is None,
        pinned != 0 ==> r == Some(pinned),
{
    if pinned == 0 {
        None
    } else {
        Some(pinned)
    }
}

/// Law: a wrapper's lifecycle touches each runtime log exactly once, with
/// the same handle on both ends.
///
/// A successful construction appends exactly one entry to the pin log: the
/// pinned reference the promotion returned, which is the handle the wrapper
/// owns.  The wrapper's release appends exactly one entry to the release
/// log: that same handle — the pinned reference, not whatever transient
/// handle promotion started from.  Since release consumes the wrapper, no
/// path (moves and early returns included) can append a second one.
pub proof fn lemma_lifecycle_releases_the_pinned_handle(
    pins_before: Seq<u64>,
    releases_before: Seq<u64>,
    pins_after_construction: Seq<u64>,
    releases_after_release: Seq<u64>,
    pinned: u64,
)
    requires
        pins_after_construction == pins_before.push(pinned),
        releases_after_release == releases_before.push(pinned),
    ensures
        pins_after_construction.len() == pins_before.len() + 1,
        releases_after_release.len() == releases_before.len() + 1,
        pins_after_construction.last() == pinned,
        releases_after_release.last() == pins_after_construction.last(),
{
}

/// Promote a transient handle to a pinned (global) reference.
///
/// A null transient handle yields absence without touching the runtime at
/// all.  Otherwise the runtime is asked for exactly one global-reference
/// registration: on success the pinned handle is returned; a null result
/// from the runtime yields absence, with nothing registered and nothing
/// released.  While the runtime grants promotions, a non-null transient
/// handle is always promoted.
pub fn promote<R: JvmRuntime>(jvm: &mut R, transient: u64) -> (r: Option<u64>)
    requires
        old(jvm).inv(),
    ensures
        final(jvm).inv(),
        final(jvm).grants_allocation() == old(jvm).grants_allocation(),
        final(jvm).grants_promotion() == old(jvm).grants_promotion(),
        r is Some <==> transient != 0 && old(jvm).grants_promotion(),
        final(jvm).releases() == old(jvm).releases(),
        extends(old(jvm).arrays(), final(jvm).arrays()),
        transient == 0 ==> r is None && *final(jvm) == *old(jvm),
        r is None ==> final(jvm).pins() == old(jvm).pins()
            && final(jvm).arrays() == old(jvm).arrays(),
        r matches Some(p) ==> p != 0 && transient != 0
            && final(jvm).pins() == old(jvm).pins().push(p)
            && (old(jvm).arrays().contains_key(transient) ==>
                final(jvm).arrays().contains_key(p)
                && final(jvm).arrays()[p] == old(jvm).arrays()[transient]),
{
    match promotion_begin(transient) {
        PromotionStep::Done(r) => r,
        PromotionStep::RequestPin(t) => promotion_finish(jvm.new_global_ref(t)),
    }
}

} // verus!
