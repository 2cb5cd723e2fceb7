//! Fences: which guest requests wait for the renderer, and which are done.
//!
//! The renderer completes fences on its own threads, ring by ring. A request
//! whose fence is complete is given back to the guest; the others wait.

use crate::protocol::VIRTIO_GPU_FLAG_INFO_RING_IDX;
use crate::renderer::GpuFence;
use std::collections::BTreeMap;
use vstd::prelude::*;

verus! {

/// A timeline of fences: the device's own, or one of a context.
#[derive(Clone, Copy, Debug, PartialEq, Eq, PartialOrd, Ord, Structural)]
pub enum VirtioGpuRing {
    Global,
    ContextSpecific { ctx_id: u32, ring_idx: u8 },
}

impl VirtioGpuRing {
    /// A number of its own for each ring.
    pub open spec fn key_spec(self) -> u64 {
        match self {
            VirtioGpuRing::Global => 0,
            VirtioGpuRing::ContextSpecific { ctx_id, ring_idx } => (1 + ctx_id * 256
                + ring_idx) as u64,
        }
    }

    /// The number under which the ring's last fence is kept.
    fn key(self) -> (result: u64)
        ensures
            result == self.key_spec(),
    {
        match self {
            VirtioGpuRing::Global => 0,
            VirtioGpuRing::ContextSpecific { ctx_id, ring_idx } => 1 + ctx_id as u64 * 256
                + ring_idx as u64,
        }
    }
}

/// Two rings with one number are one ring.
proof fn lemma_key_injective(a: VirtioGpuRing, b: VirtioGpuRing)
    requires
        a.key_spec() == b.key_spec(),
    ensures
        a == b,
{
}

/// A request that waits for its fence, and what the guest gets back for it.
#[derive(Clone, Copy, Debug, PartialEq, Eq, Structural)]
pub struct FenceDescriptor {
    pub ring: VirtioGpuRing,
    pub fence_id: u64,
    pub desc_index: u16,
    pub len: u32,
}

/// The waiting requests, and how far each ring has come.
#[derive(Debug)]
pub struct FenceState {
    descs: Vec<FenceDescriptor>,
    completed_fences: BTreeMap<u64, u64>,
}

/// The ring that a fence of the renderer belongs to.
pub open spec fn fence_ring_spec(fence: GpuFence) -> VirtioGpuRing {
    if fence.flags & VIRTIO_GPU_FLAG_INFO_RING_IDX == 0 {
        VirtioGpuRing::Global
    } else {
        VirtioGpuRing::ContextSpecific { ctx_id: fence.ctx_id, ring_idx: fence.ring_idx }
    }
}

/// Whether the completion of `fence` ends the wait of `desc`: it is of the same
/// ring and not later.
pub open spec fn retired_by(desc: FenceDescriptor, fence: GpuFence) -> bool {
    desc.ring == fence_ring_spec(fence) && desc.fence_id <= fence.fence_id
}

/// The requests of `descs` that still wait once `fence` is complete, in order.
pub open spec fn still_waiting(descs: Seq<FenceDescriptor>, fence: GpuFence) -> Seq<
    FenceDescriptor,
> {
    descs.filter(|desc: FenceDescriptor| !retired_by(desc, fence))
}

/// The requests of `descs` that need not wait any more once `fence` is complete,
/// in order.
pub open spec fn retired(descs: Seq<FenceDescriptor>, fence: GpuFence) -> Seq<
    FenceDescriptor,
> {
    descs.filter(|desc: FenceDescriptor| retired_by(desc, fence))
}

/// What the guest gets back once `fence` is complete: descriptor and length of
/// each request that need not wait any more.
pub open spec fn given_back(descs: Seq<FenceDescriptor>, fence: GpuFence) -> Seq<(u16, u32)> {
    retired(descs, fence).map_values(|desc: FenceDescriptor| (desc.desc_index, desc.len))
}

/// The ring that a fence of the renderer belongs to.
pub fn fence_ring(fence: GpuFence) -> (result: VirtioGpuRing)
    ensures
        result == fence_ring_spec(fence),
{
    if fence.flags & VIRTIO_GPU_FLAG_INFO_RING_IDX == 0 {
        VirtioGpuRing::Global
    } else {
        VirtioGpuRing::ContextSpecific { ctx_id: fence.ctx_id, ring_idx: fence.ring_idx }
    }
}

impl FenceState {
    /// The waiting requests, oldest first.
    pub closed spec fn descs(self) -> Seq<FenceDescriptor> {
        self.descs@
    }

    /// The last fence of `ring` that is known to be complete, 0 if none is.
    pub closed spec fn completed(self, ring: VirtioGpuRing) -> u64 {
        if self.completed_fences@.contains_key(ring.key_spec()) {
            self.completed_fences@[ring.key_spec()]
        } else {
            0
        }
    }

    /// No request waits for a fence that is known to be complete.
    pub open spec fn wf(self) -> bool {
        forall|i: int|
            0 <= i < self.descs().len() ==> self.completed((#[trigger] self.descs()[i]).ring)
                < self.descs()[i].fence_id
    }

    /// `self` is `before` once `fence` is complete: the requests that it ends the
    /// wait of are gone, and its ring has come at least as far as `fence`.
    pub open spec fn after_completion(self, before: FenceState, fence: GpuFence) -> bool {
        &&& self.descs() == still_waiting(before.descs(), fence)
        &&& forall|ring: VirtioGpuRing| #[trigger]
            self.completed(ring) == if ring == fence_ring_spec(fence) && before.completed(ring)
                < fence.fence_id {
                fence.fence_id
            } else {
                before.completed(ring)
            }
    }

    /// Nothing waits, and no fence is complete.
    pub fn new() -> (result: FenceState)
        ensures
            result.descs() == Seq::<FenceDescriptor>::empty(),
            forall|ring: VirtioGpuRing| result.completed(ring) == 0,
            result.wf(),
    {
        FenceState { descs: Vec::new(), completed_fences: BTreeMap::new() }
    }

    /// Takes in a request with a fence. It is done at once (`true`) where the
    /// fence is known to be complete already, and waits (`false`) otherwise.
    pub fn process_fence(
        &mut self,
        ring: VirtioGpuRing,
        fence_id: u64,
        desc_index: u16,
        len: u32,
    ) -> (result: bool)
        ensures
            result == (fence_id <= old(self).completed(ring)),
            final(self).descs() == if result {
                old(self).descs()
            } else {
                old(self).descs().push(FenceDescriptor { ring, fence_id, desc_index, len })
            },
            forall|r: VirtioGpuRing| #[trigger] final(self).completed(r) == old(self).completed(r),
            old(self).wf() ==> final(self).wf(),
    {
        let completed: u64 = match self.completed_fences.get(&ring.key()) {
            Some(completed) => *completed,
            None => 0,
        };
        if fence_id > completed {
            self.descs.push(FenceDescriptor { ring, fence_id, desc_index, len });
            assert forall|i: int|
                old(self).wf() && 0 <= i < self.descs().len() implies self.completed(
                (#[trigger] self.descs()[i]).ring,
            ) < self.descs()[i].fence_id by {
                if i < old(self).descs().len() {
                    assert(self.descs()[i] == old(self).descs()[i]);
                    assert(self.completed(self.descs()[i].ring) == old(self).completed(
                        old(self).descs()[i].ring,
                    ));
                } else {
                    assert(self.completed(ring) == completed);
                }
            }
            false
        } else {
            true
        }
    }

    /// Takes in that `fence` is complete, and hands out the requests that were
    /// waiting for it or for an earlier fence of its ring.
    ///
    /// Completions can come out of order, so a ring never falls back behind a
    /// fence that is known to be complete.
    pub fn complete_fence(&mut self, fence: GpuFence) -> (result: Vec<(u16, u32)>)
        ensures
            result@ == given_back(old(self).descs(), fence),
            final(self).after_completion(*old(self), fence),
            old(self).wf() ==> final(self).wf(),
    {
        let ring = fence_ring(fence);
        let ghost all = self.descs@;
        let mut waiting: Vec<FenceDescriptor> = Vec::new();
        let mut done: Vec<(u16, u32)> = Vec::new();
        let mut i: usize = 0;
        assert(all.take(0) =~= Seq::empty());
        while i < self.descs.len()
            invariant
                i <= self.descs@.len(),
                self.descs@ == all,
                *self == *old(self),
                ring == fence_ring_spec(fence),
                waiting@ == still_waiting(all.take(i as int), fence),
                done@ == given_back(all.take(i as int), fence),
            decreases self.descs.len() - i,
        {
            let desc = self.descs[i];
            proof {
                lemma_one_more(all, i as int, fence);
            }
            if desc.ring == ring && desc.fence_id <= fence.fence_id {
                done.push((desc.desc_index, desc.len));
            } else {
                waiting.push(desc);
            }
            i = i + 1;
        }
        assert(all.take(i as int) =~= all);
        self.descs = waiting;
        let completed: u64 = match self.completed_fences.get(&ring.key()) {
            Some(completed) => *completed,
            None => 0,
        };
        let latest: u64 = if completed < fence.fence_id {
            fence.fence_id
        } else {
            completed
        };
        self.completed_fences.insert(ring.key(), latest);
        proof {
            assert forall|r: VirtioGpuRing| #[trigger]
                self.completed(r) == if r == ring && old(self).completed(r) < fence.fence_id {
                    fence.fence_id
                } else {
                    old(self).completed(r)
                } by {
                if r.key_spec() == ring.key_spec() {
                    lemma_key_injective(r, ring);
                }
            }
            assert forall|k: int|
                old(self).wf() && 0 <= k < self.descs().len() implies self.completed(
                (#[trigger] self.descs()[k]).ring,
            ) < self.descs()[k].fence_id by {
                lemma_still_waiting(all, fence, k);
            }
        }
        done
    }
}

impl Default for FenceState {
    fn default() -> (result: FenceState)
        ensures
            result.descs() == Seq::<FenceDescriptor>::empty(),
            forall|ring: VirtioGpuRing| result.completed(ring) == 0,
            result.wf(),
    {
        FenceState::new()
    }
}

/// What one more request adds to those that wait and to those given back.
proof fn lemma_one_more(descs: Seq<FenceDescriptor>, i: int, fence: GpuFence)
    requires
        0 <= i < descs.len(),
    ensures
        still_waiting(descs.take(i + 1), fence) == if retired_by(descs[i], fence) {
            still_waiting(descs.take(i), fence)
        } else {
            still_waiting(descs.take(i), fence).push(descs[i])
        },
        given_back(descs.take(i + 1), fence) == if retired_by(descs[i], fence) {
            given_back(descs.take(i), fence).push((descs[i].desc_index, descs[i].len))
        } else {
            given_back(descs.take(i), fence)
        },
{
    reveal(Seq::filter);
    let more = descs.take(i + 1);
    assert(more.drop_last() =~= descs.take(i));
    assert(more.last() == descs[i]);
    assert(given_back(more, fence) =~= if retired_by(descs[i], fence) {
        given_back(descs.take(i), fence).push((descs[i].desc_index, descs[i].len))
    } else {
        given_back(descs.take(i), fence)
    });
}

/// A request that still waits was waiting before, and `fence` does not end its
/// wait.
pub proof fn lemma_still_waiting(descs: Seq<FenceDescriptor>, fence: GpuFence, k: int)
    requires
        0 <= k < still_waiting(descs, fence).len(),
    ensures
        !retired_by(still_waiting(descs, fence)[k], fence),
        exists|i: int| 0 <= i < descs.len() && descs[i] == still_waiting(descs, fence)[k],
    decreases descs.len(),
{
    reveal(Seq::filter);
    let rest = descs.drop_last();
    if k < still_waiting(rest, fence).len() {
        lemma_still_waiting(rest, fence, k);
        let i = choose|i: int| 0 <= i < rest.len() && rest[i] == still_waiting(rest, fence)[k];
        assert(descs[i] == still_waiting(descs, fence)[k]);
    } else {
        assert(descs[descs.len() - 1] == still_waiting(descs, fence)[k]);
    }
}

/// No fence is stuck: once a fence of its ring that is not earlier completes, a
/// waiting request is given back, and does not wait any more.
pub proof fn law_no_fence_is_stuck(descs: Seq<FenceDescriptor>, fence: GpuFence, i: int)
    requires
        0 <= i < descs.len(),
        descs[i].ring == fence_ring_spec(fence),
        descs[i].fence_id <= fence.fence_id,
    ensures
        given_back(descs, fence).contains((descs[i].desc_index, descs[i].len)),
        !still_waiting(descs, fence).contains(descs[i]),
    decreases descs.len(),
{
    if still_waiting(descs, fence).contains(descs[i]) {
        let k = choose|k: int|
            0 <= k < still_waiting(descs, fence).len() && still_waiting(descs, fence)[k]
                == descs[i];
        lemma_still_waiting(descs, fence, k);
    }
    let answer = (descs[i].desc_index, descs[i].len);
    let rest = descs.drop_last();
    let last = descs.len() - 1;
    assert(descs.take(last + 1) =~= descs);
    assert(descs.take(last) =~= rest);
    lemma_one_more(descs, last, fence);
    let now = given_back(descs, fence);
    if i < last {
        law_no_fence_is_stuck(rest, fence, i);
        let earlier = given_back(rest, fence);
        let k = choose|k: int| 0 <= k < earlier.len() && earlier[k] == answer;
        assert(now[k] == answer);
    } else {
        assert(now[now.len() - 1] == answer);
    }
}

/// Every request either waits or is given back, and none does both or is lost.
pub proof fn law_every_request_once(descs: Seq<FenceDescriptor>, fence: GpuFence)
    ensures
        descs.to_multiset() == still_waiting(descs, fence).to_multiset().add(
            retired(descs, fence).to_multiset(),
        ),
        given_back(descs, fence).len() == retired(descs, fence).len(),
    decreases descs.len(),
{
    broadcast use vstd::seq_lib::group_to_multiset_ensures;

    reveal(Seq::filter);
    if descs.len() > 0 {
        let rest = descs.drop_last();
        law_every_request_once(rest, fence);
        assert(descs =~= rest.push(descs.last()));
        if retired_by(descs.last(), fence) {
            assert(retired(descs, fence) =~= retired(rest, fence).push(descs.last()));
        } else {
            assert(still_waiting(descs, fence) =~= still_waiting(rest, fence).push(descs.last()));
        }
        assert(descs.to_multiset() =~= still_waiting(descs, fence).to_multiset().add(
            retired(descs, fence).to_multiset(),
        ));
    } else {
        assert(descs.to_multiset() =~= still_waiting(descs, fence).to_multiset().add(
            retired(descs, fence).to_multiset(),
        ));
    }
}

/// Completions may come out of order: where a later fence completes first, the
/// earlier one does not set its ring back, and the requests of either fence are
/// done at once.
pub proof fn law_out_of_order_completion(
    before: FenceState,
    between: FenceState,
    after: FenceState,
    later: GpuFence,
    earlier: GpuFence,
)
    requires
        between.after_completion(before, later),
        after.after_completion(between, earlier),
        fence_ring_spec(earlier) == fence_ring_spec(later),
        earlier.fence_id <= later.fence_id,
    ensures
        after.completed(fence_ring_spec(later)) >= later.fence_id,
        after.completed(fence_ring_spec(later)) == between.completed(fence_ring_spec(later)),
{
    assert(between.completed(fence_ring_spec(later)) >= later.fence_id);
}

/// Fences of one ring say nothing of another: its requests wait on, and it has
/// come as far as before.
pub proof fn law_rings_are_independent(
    before: FenceState,
    after: FenceState,
    fence: GpuFence,
    ring: VirtioGpuRing,
)
    requires
        after.after_completion(before, fence),
        ring != fence_ring_spec(fence),
    ensures
        after.completed(ring) == before.completed(ring),
        forall|i: int|
            0 <= i < before.descs().len() && (#[trigger] before.descs()[i]).ring == ring
                ==> after.descs().contains(before.descs()[i]),
{
    let keep = |desc: FenceDescriptor| !retired_by(desc, fence);
    assert forall|i: int|
        0 <= i < before.descs().len() && (#[trigger] before.descs()[i]).ring
            == ring implies after.descs().contains(before.descs()[i]) by {
        assert(keep(before.descs()[i]));
        before.descs().lemma_filter_contains(keep, i);
        assert(still_waiting(before.descs(), fence) == before.descs().filter(keep));
    }
}

/// The ring of a fence: that of the device unless the fence says (by its second
/// flag) that it has one of its own, and then the one that it names.
pub proof fn law_fence_names_its_ring(fence: GpuFence)
    ensures
        fence.flags & 2 == 0 ==> fence_ring_spec(fence) == VirtioGpuRing::Global,
        fence.flags & 2 != 0 ==> fence_ring_spec(fence) == (VirtioGpuRing::ContextSpecific {
            ctx_id: fence.ctx_id,
            ring_idx: fence.ring_idx,
        }),
{
}

/// The latest request is given back, behind those before it, exactly where it is
/// of the ring of the fence and its own fence is not later; else it waits on,
/// behind those before it. Where nothing waits, nothing is given back.
pub proof fn law_latest_request(descs: Seq<FenceDescriptor>, desc: FenceDescriptor, fence: GpuFence)
    ensures
        desc.ring == fence_ring_spec(fence) && desc.fence_id <= fence.fence_id ==> {
            &&& given_back(descs.push(desc), fence) == given_back(descs, fence).push(
                (desc.desc_index, desc.len),
            )
            &&& still_waiting(descs.push(desc), fence) == still_waiting(descs, fence)
        },
        desc.ring != fence_ring_spec(fence) || desc.fence_id > fence.fence_id ==> {
            &&& given_back(descs.push(desc), fence) == given_back(descs, fence)
            &&& still_waiting(descs.push(desc), fence) == still_waiting(descs, fence).push(desc)
        },
        given_back(Seq::empty(), fence).len() == 0,
        still_waiting(Seq::empty(), fence).len() == 0,
{
    reveal(Seq::filter);
    let all = descs.push(desc);
    assert(all.take(descs.len() as int) =~= descs);
    assert(all.take(descs.len() as int + 1) =~= all);
    lemma_one_more(all, descs.len() as int, fence);
}

/// A ring comes as far as the latest of its fences that is complete, and no
/// further; the requests that wait are what the fence leaves waiting.
pub proof fn law_ring_comes_as_far_as_its_fences(
    before: FenceState,
    after: FenceState,
    fence: GpuFence,
)
    requires
        after.after_completion(before, fence),
    ensures
        after.completed(fence_ring_spec(fence)) >= fence.fence_id,
        after.completed(fence_ring_spec(fence)) >= before.completed(fence_ring_spec(fence)),
        after.completed(fence_ring_spec(fence)) == fence.fence_id || after.completed(
            fence_ring_spec(fence),
        ) == before.completed(fence_ring_spec(fence)),
        after.descs() == still_waiting(before.descs(), fence),
{
}

/// Completing a fence twice gives nothing back the second time.
pub proof fn law_fence_completes_once(descs: Seq<FenceDescriptor>, fence: GpuFence)
    ensures
        given_back(still_waiting(descs, fence), fence).len() == 0,
        still_waiting(still_waiting(descs, fence), fence) == still_waiting(descs, fence),
    decreases descs.len(),
{
    if descs.len() > 0 {
        let rest = descs.drop_last();
        let last = descs.last();
        assert(descs =~= rest.push(last));
        law_fence_completes_once(rest, fence);
        law_latest_request(rest, last, fence);
        law_latest_request(still_waiting(rest, fence), last, fence);
    } else {
        reveal(Seq::filter);
        assert(still_waiting(descs, fence) =~= descs);
    }
}

} // verus!
