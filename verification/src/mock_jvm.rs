//! A verified in-memory runtime.
//!
//! [`MockJvm`] implements [`JvmRuntime`] without a live JVM: handles are
//! indices into a table of array lengths, and every registration and
//! release is logged.  It exercises the promotion and release protocol of
//! the wrappers, including the failure paths a live runtime only shows
//! under memory pressure, and lets a caller count exactly which runtime
//! calls were made.

use vstd::prelude::*;

use crate::runtime::JvmRuntime;
use crate::runtime::extends;

verus! {

/// The array table of a runtime whose length log is `lengths`: handle
/// `i + 1` refers to an array of `lengths[i]` elements.  A negative entry
/// marks a handle that is no array or no longer one: a pinned
/// non-array object, or a reference already released.  The null handle `0`
/// refers to nothing.
spec fn mock_arrays(lengths: Seq<i32>) -> Map<u64, int> {
    Map::new(
        |h: u64| 1 <= h && h <= lengths.len() && lengths[h - 1] >= 0,
        |h: u64| lengths[h - 1] as int,
    )
}

/// Appending one entry to the length log keeps every existing handle; the
/// new handle, one past the old table, is an array of the appended length
/// when that length is valid, and no array at all when it is the negative
/// marker.
proof fn lemma_mock_arrays_push(lengths: Seq<i32>, v: i32)
    requires
        lengths.len() + 1 <= u64::MAX,
    ensures
        extends(mock_arrays(lengths), mock_arrays(lengths.push(v))),
        v >= 0 ==> mock_arrays(lengths.push(v)).contains_key((lengths.len() + 1) as u64)
            && mock_arrays(lengths.push(v))[(lengths.len() + 1) as u64] == v as int,
        v < 0 ==> mock_arrays(lengths.push(v)) == mock_arrays(lengths),
{
    assert forall|h: u64| #[trigger] mock_arrays(lengths).contains_key(h) implies mock_arrays(
        lengths.push(v),
    ).contains_key(h) && mock_arrays(lengths.push(v))[h] == mock_arrays(lengths)[h] by {
        assert(lengths.push(v)[h - 1] == lengths[h - 1]);
    }
    if v < 0 {
        assert forall|h: u64| #[trigger] mock_arrays(lengths.push(v)).contains_key(h) implies
            mock_arrays(lengths).contains_key(h) by {
            assert(lengths.push(v)[h - 1] == lengths[h - 1]);
        }
        assert(mock_arrays(lengths.push(v)) =~= mock_arrays(lengths));
    }
}

/// Overwriting a handle's entry with the negative marker retires exactly
/// that handle from the array table.
proof fn lemma_mock_arrays_retire(lengths: Seq<i32>, h: u64)
    requires
        1 <= h,
        h <= lengths.len(),
    ensures
        mock_arrays(lengths.update(h - 1, -1i32)) == mock_arrays(lengths).remove(h),
{
    assert(mock_arrays(lengths.update(h - 1, -1i32)) =~= mock_arrays(lengths).remove(h));
}

/// An in-memory stand-in for the host JVM.
///
/// Arrays live in a length table; a handle is the table index plus one.
/// Promotion mints a fresh handle aliasing the promoted array's length, so
/// a pinned reference and the transient handle it came from are distinct
/// values referring to the same array, as with a live runtime; pinning a
/// handle the table does not know (a class, say) mints a handle that is no
/// array.  Releasing retires the handle from the array table.  The two
/// failure switches make allocations or promotions return the null handle,
/// the way a runtime out of memory (or asked for a missing class) would.
pub struct MockJvm {
    lengths: Vec<i32>,
    pins: Vec<u64>,
    releases: Vec<u64>,
    fail_allocation: bool,
    fail_promotion: bool,
}

impl MockJvm {
    /// A fresh runtime: no arrays handed out, nothing pinned, nothing
    /// released, no failures staged — every valid request will be granted.
    pub fn new() -> (m: MockJvm)
        ensures
            m.inv(),
            m.grants_allocation(),
            m.grants_promotion(),
            m.arrays() == Map::<u64, int>::empty(),
            m.pins() == Seq::<u64>::empty(),
            m.releases() == Seq::<u64>::empty(),
    {
        let m = MockJvm {
            lengths: Vec::new(),
            pins: Vec::new(),
            releases: Vec::new(),
            fail_allocation: false,
            fail_promotion: false,
        };
        proof {
            assert(m.arrays() =~= Map::<u64, int>::empty());
        }
        m
    }

    /// Stage (or clear) an allocation failure: while staged, the runtime
    /// grants no allocation, so array allocations return the null handle.
    pub fn set_fail_allocation(&mut self, fail: bool)
        ensures
            final(self).inv() == old(self).inv(),
            final(self).grants_allocation() == !fail,
            final(self).grants_promotion() == old(self).grants_promotion(),
            final(self).arrays() == old(self).arrays(),
            final(self).pins() == old(self).pins(),
            final(self).releases() == old(self).releases(),
    {
        self.fail_allocation = fail;
    }

    /// Stage (or clear) a promotion failure: while staged, the runtime
    /// grants no promotion, so global-reference requests return the null
    /// handle and register nothing.
    pub fn set_fail_promotion(&mut self, fail: bool)
        ensures
            final(self).inv() == old(self).inv(),
            final(self).grants_allocation() == old(self).grants_allocation(),
            final(self).grants_promotion() == !fail,
            final(self).arrays() == old(self).arrays(),
            final(self).pins() == old(self).pins(),
            final(self).releases() == old(self).releases(),
    {
        self.fail_promotion = fail;
    }

    /// How many global-reference registrations have succeeded.
    pub fn pin_count(&self) -> (n: usize)
        ensures
            n == self.pins().len(),
    {
        self.pins.len()
    }

    /// The `i`-th pinned reference handed out, oldest first.
    pub fn pinned_at(&self, i: usize) -> (h: u64)
        requires
            i < self.pins().len(),
        ensures
            h == self.pins()[i as int],
    {
        self.pins[i]
    }

    /// How many release calls have been made.
    pub fn release_count(&self) -> (n: usize)
        ensures
            n == self.releases().len(),
    {
        self.releases.len()
    }

    /// The handle the `i`-th release call handed back, oldest first.
    pub fn released_at(&self, i: usize) -> (h: u64)
        requires
            i < self.releases().len(),
        ensures
            h == self.releases()[i as int],
    {
        self.releases[i]
    }
}

impl JvmRuntime for MockJvm {
    closed spec fn arrays(&self) -> Map<u64, int> {
        mock_arrays(self.lengths@)
    }

    closed spec fn pins(&self) -> Seq<u64> {
        self.pins@
    }

    closed spec fn releases(&self) -> Seq<u64> {
        self.releases@
    }

    closed spec fn inv(&self) -> bool {
        true
    }

    closed spec fn grants_allocation(&self) -> bool {
        !self.fail_allocation
    }

    closed spec fn grants_promotion(&self) -> bool {
        !self.fail_promotion
    }

    fn new_int_array(&mut self, length: i32) -> (h: u64) {
        if self.fail_allocation || length < 0 {
            return 0;
        }
        self.lengths.push(length);
        let n: usize = self.lengths.len();
        proof {
            lemma_mock_arrays_push(old(self).lengths@, length);
        }
        n as u64
    }

    fn new_object_array(&mut self, length: i32, _class: u64, _initial_element: u64) -> (h: u64) {
        if self.fail_allocation || length < 0 {
            return 0;
        }
        self.lengths.push(length);
        let n: usize = self.lengths.len();
        proof {
            lemma_mock_arrays_push(old(self).lengths@, length);
        }
        n as u64
    }

    fn get_array_length(&self, h: u64) -> (r: i32) {
        let n: usize = self.lengths.len();
        self.lengths[(h - 1) as usize]
    }

    fn new_global_ref(&mut self, h: u64) -> (r: u64) {
        if self.fail_promotion {
            return 0;
        }
        let n: usize = self.lengths.len();
        let aliased: i32 = if 1 <= h && h <= n as u64 {
            self.lengths[(h - 1) as usize]
        } else {
            -1
        };
        self.lengths.push(aliased);
        let n2: usize = self.lengths.len();
        proof {
            lemma_mock_arrays_push(old(self).lengths@, aliased);
        }
        let r: u64 = n2 as u64;
        self.pins.push(r);
        r
    }

    fn delete_global_ref(&mut self, h: u64) {
        let n: usize = self.lengths.len();
        if 1 <= h && h <= n as u64 {
            let idx: usize = (h - 1) as usize;
            if self.lengths[idx] >= 0 {
                self.lengths.set(idx, -1);
                proof {
                    lemma_mock_arrays_retire(old(self).lengths@, h);
                }
            } else {
                proof {
                    assert(old(self).arrays().remove(h) =~= old(self).arrays());
                }
            }
        } else {
            proof {
                assert(old(self).arrays().remove(h) =~= old(self).arrays());
            }
        }
        self.releases.push(h);
    }
}

} // verus!
