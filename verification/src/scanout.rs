//! Which scanouts show a resource.

use crate::protocol::VIRTIO_GPU_MAX_SCANOUTS;
use vstd::prelude::*;

verus! {

/// The resource that a scanout shows.
#[derive(Clone, Copy, Debug, PartialEq, Eq, Structural)]
pub struct VirtioGpuScanout {
    pub resource_id: u32,
}

/// The scanouts that show a resource, one bit each.
#[derive(Clone, Copy, Debug, PartialEq, Eq, Structural)]
pub struct AssociatedScanouts(u32);

/// The numbers of the first `n` scanouts that `scanouts` has enabled, ascending.
pub open spec fn enabled_below(scanouts: AssociatedScanouts, n: nat) -> Seq<u32>
    decreases n,
{
    if n == 0 {
        Seq::empty()
    } else {
        let rest = enabled_below(scanouts, (n - 1) as nat);
        if scanouts.enabled((n - 1) as u32) {
            rest.push((n - 1) as u32)
        } else {
            rest
        }
    }
}

impl AssociatedScanouts {
    /// Whether scanout `scanout_id` is enabled.
    pub closed spec fn enabled(self, scanout_id: u32) -> bool {
        scanout_id < 32 && (self.0 >> scanout_id) & 1 == 1
    }

    /// No scanout enabled.
    pub closed spec fn empty() -> AssociatedScanouts {
        AssociatedScanouts(0)
    }

    /// Whether no scanout is enabled.
    pub open spec fn none(self) -> bool {
        self == AssociatedScanouts::empty()
    }

    /// `self` with scanout `scanout_id` on.
    pub closed spec fn with_enabled(self, scanout_id: u32) -> AssociatedScanouts {
        AssociatedScanouts(self.0 | (1u32 << scanout_id))
    }

    /// `self` with scanout `scanout_id` flipped.
    pub closed spec fn with_flipped(self, scanout_id: u32) -> AssociatedScanouts {
        AssociatedScanouts(self.0 ^ (1u32 << scanout_id))
    }

    /// No scanout enabled.
    pub fn new() -> (result: AssociatedScanouts)
        ensures
            result.none(),
    {
        AssociatedScanouts(0)
    }

    /// Marks `scanout_id` as showing the resource.
    pub fn enable(&mut self, scanout_id: u32)
        requires
            scanout_id < 32,
        ensures
            *final(self) == old(self).with_enabled(scanout_id),
            forall|j: u32| #[trigger]
                final(self).enabled(j) == (old(self).enabled(j) || j == scanout_id),
    {
        proof {
            lemma_with_enabled(*self, scanout_id);
        }
        self.0 = self.0 | (1u32 << scanout_id);
    }

    /// Flips the mark of `scanout_id`: an enabled scanout is disabled, and one
    /// that was not enabled becomes so.
    pub fn disable(&mut self, scanout_id: u32)
        requires
            scanout_id < 32,
        ensures
            *final(self) == old(self).with_flipped(scanout_id),
            forall|j: u32| #[trigger]
                final(self).enabled(j) == (old(self).enabled(j) != (j == scanout_id)),
    {
        proof {
            lemma_with_flipped(*self, scanout_id);
        }
        self.0 = self.0 ^ (1u32 << scanout_id);
    }

    /// Whether any scanout shows the resource.
    pub fn has_any_enabled(self) -> (result: bool)
        ensures
            result == !self.none(),
            result == exists|j: u32| self.enabled(j),
    {
        proof {
            lemma_none(self);
        }
        self.0 != 0
    }

    /// The enabled scanouts of the device, ascending.
    pub fn iter_enabled(self) -> (result: Vec<u32>)
        ensures
            result@ == enabled_below(self, VIRTIO_GPU_MAX_SCANOUTS as nat),
    {
        let mut result: Vec<u32> = Vec::new();
        for i in 0..VIRTIO_GPU_MAX_SCANOUTS
            invariant
                result@ == enabled_below(self, i as nat),
        {
            if (self.0 >> i) & 1 == 1 {
                result.push(i);
            }
        }
        result
    }
}

impl Default for AssociatedScanouts {
    fn default() -> (result: AssociatedScanouts)
        ensures
            result.none(),
    {
        AssociatedScanouts(0)
    }
}

/// Enabling a scanout turns it on and leaves every other scanout as it was.
pub proof fn lemma_with_enabled(scanouts: AssociatedScanouts, scanout_id: u32)
    requires
        scanout_id < 32,
    ensures
        forall|j: u32| #[trigger]
            scanouts.with_enabled(scanout_id).enabled(j) == (scanouts.enabled(j) || j
                == scanout_id),
{
    let b = scanouts.0;
    assert forall|j: u32| #[trigger]
        scanouts.with_enabled(scanout_id).enabled(j) == (scanouts.enabled(j) || j
            == scanout_id) by {
        if j < 32 {
            assert(((b | (1u32 << scanout_id)) >> j) & 1 == 1 <==> ((b >> j) & 1 == 1 || j
                == scanout_id)) by (bit_vector)
                requires
                    scanout_id < 32,
                    j < 32,
            ;
        }
    }
}

/// Flipping a scanout changes it and leaves every other scanout as it was.
pub proof fn lemma_with_flipped(scanouts: AssociatedScanouts, scanout_id: u32)
    requires
        scanout_id < 32,
    ensures
        forall|j: u32| #[trigger]
            scanouts.with_flipped(scanout_id).enabled(j) == (scanouts.enabled(j) != (j
                == scanout_id)),
{
    let b = scanouts.0;
    assert forall|j: u32| #[trigger]
        scanouts.with_flipped(scanout_id).enabled(j) == (scanouts.enabled(j) != (j
            == scanout_id)) by {
        if j < 32 {
            assert(((b ^ (1u32 << scanout_id)) >> j) & 1 == 1 <==> !((b >> j) & 1 == 1 <==> j
                == scanout_id)) by (bit_vector)
                requires
                    scanout_id < 32,
                    j < 32,
            ;
        }
    }
}

/// `none` says exactly that no scanout is enabled.
pub proof fn lemma_none(scanouts: AssociatedScanouts)
    ensures
        scanouts.none() <==> forall|j: u32| !scanouts.enabled(j),
{
    if scanouts.none() {
        assert forall|j: u32| !scanouts.enabled(j) by {
            assert(j < 32 ==> (0u32 >> j) & 1 == 0) by (bit_vector);
        }
    } else {
        let j = lemma_some_bit(scanouts.0);
        assert(scanouts.enabled(j));
    }
}

/// A word that is not zero has a bit set.
proof fn lemma_some_bit(b: u32) -> (j: u32)
    requires
        b != 0,
    ensures
        j < 32,
        (b >> j) & 1 == 1,
    decreases b,
{
    if b & 1 == 1 {
        assert((b >> 0u32) & 1 == 1) by (bit_vector)
            requires
                b & 1 == 1,
        ;
        0
    } else {
        assert(b >> 1 != 0 && b >> 1 < b) by (bit_vector)
            requires
                b != 0,
                b & 1 != 1,
        ;
        let k = lemma_some_bit(b >> 1);
        assert(k < 31 && (b >> add_one(k)) & 1 == 1) by (bit_vector)
            requires
                k < 32,
                ((b >> 1) >> k) & 1 == 1,
        ;
        add_one(k)
    }
}

spec fn add_one(k: u32) -> u32 {
    (k + 1) as u32
}

/// The enabled scanouts of a resource are listed once each, in ascending
/// order, and the list holds every one of them and nothing else.
pub proof fn lemma_enabled_below(scanouts: AssociatedScanouts, n: nat)
    requires
        n <= u32::MAX,
    ensures
        forall|i: int, j: int|
            0 <= i < j < enabled_below(scanouts, n).len() ==> enabled_below(scanouts, n)[i]
                < enabled_below(scanouts, n)[j],
        forall|k: u32| #[trigger]
            enabled_below(scanouts, n).contains(k) <==> k < n && scanouts.enabled(k),
    decreases n,
{
    if n > 0 {
        let m = (n - 1) as nat;
        lemma_enabled_below(scanouts, m);
        let before = enabled_below(scanouts, m);
        let after = enabled_below(scanouts, n);
        assert forall|i: int| 0 <= i < before.len() implies #[trigger] before[i] < m by {
            assert(before.contains(before[i]));
        }
        assert forall|k: u32| #[trigger] after.contains(k) <==> k < n && scanouts.enabled(k) by {
            if after.contains(k) {
                let i = choose|i: int| 0 <= i < after.len() && after[i] == k;
                if i < before.len() {
                    assert(before[i] == k);
                    assert(before.contains(k));
                }
            }
            if k < n && scanouts.enabled(k) {
                if k < m {
                    assert(before.contains(k));
                    let i = choose|i: int| 0 <= i < before.len() && before[i] == k;
                    assert(after[i] == k);
                } else {
                    assert(after[before.len() as int] == k);
                }
            }
        }
    }
}

/// Disabling undoes enabling: a scanout that was off and is turned on and off
/// again leaves the others and itself as they were.
pub proof fn law_disable_undoes_enable(scanouts: AssociatedScanouts, scanout_id: u32)
    requires
        scanout_id < 32,
        !scanouts.enabled(scanout_id),
    ensures
        scanouts.with_enabled(scanout_id).with_flipped(scanout_id) == scanouts,
{
    let b = scanouts.0;
    assert((b | (1u32 << scanout_id)) ^ (1u32 << scanout_id) == b) by (bit_vector)
        requires
            scanout_id < 32,
            (b >> scanout_id) & 1 != 1,
    ;
}

/// A scanout that is disabled twice is as it was.
pub proof fn law_disable_twice(scanouts: AssociatedScanouts, scanout_id: u32)
    requires
        scanout_id < 32,
    ensures
        scanouts.with_flipped(scanout_id).with_flipped(scanout_id) == scanouts,
{
    let b = scanouts.0;
    assert((b ^ (1u32 << scanout_id)) ^ (1u32 << scanout_id) == b) by (bit_vector)
        requires
            scanout_id < 32,
    ;
}

} // verus!
