//! What holds of the device across commands.

use crate::blob::{
    descriptor_plan, hypervisor_plan, law_descriptor_is_mapped, law_hypervisor_is_asked,
    law_renderer_is_asked, renderer_target, window_base, BlobMapping, MapPlan, MapRequest,
    WindowSide,
};
use crate::contexts::{
    bare_contexts, bare_resources, frames_advance, frames_close, is_bare, is_cross_domain, is_open,
    is_spoken, lemma_last, rings_sound, submittable,
};
use crate::guest_memory::{
    backing_address, backing_addressable, backing_len, backing_readable, backing_seen,
    backing_end, backing_start, backing_touched, guest_byte_seen, guest_mapped, guest_readable,
    guest_contiguous, guest_regions, iovec_of, iovecs_of, piece_end, piece_start, sglist_mapped,
};
use crate::model::{
    blob_source_spec, blob_step, done_by_renderer, new_state, refused_with, transfer_fits,
    transfer_len, transferred, unref_called, uuid_of, whole_resource, FrameStep, GpuState,
    ScanoutStep,
};
use crate::pixels::{
    law_rectangle_is_tight, law_rectangle_lands, law_rectangle_leaves_the_rest, lemma_rect_len,
    lemma_row_and_column, prefix_copied, row_fits, rows_copied,
};
use crate::protocol::{
    GpuResponse, VirtioGpuResult, VirtioShmRegion, VIRTIO_GPU_MAX_SCANOUTS,
};
use crate::renderer::{
    renderer_called, renderer_calls, renderer_contexts, renderer_resources, RendererCall,
    RutabagaMapping,
};
use crate::resource::{Display, Native2d, ResourceFormat, VirtioGpuResource};
use crate::scanout::{
    enabled_below, lemma_enabled_below, lemma_none, lemma_with_enabled, lemma_with_flipped,
};
use rutabaga_gfx::{Rutabaga, RutabagaIovec};
use vm_memory::GuestMemoryMmap;
use vstd::prelude::*;

verus! {

/// The marks on the resources and the scanouts agree: a resource is marked for
/// exactly the scanouts that show it.
pub open spec fn marks_agree(state: GpuState) -> bool {
    forall|id: u32, scanout_id: u32|
        state.resources.contains_key(id) ==> (
        #[trigger] state.resources[id].scanouts.enabled(scanout_id) <==> scanout_id
            < VIRTIO_GPU_MAX_SCANOUTS && state.shown(scanout_id) == Some(id))
}

/// Taking a scanout from the resource that it shows leaves no resource marked
/// for it, and every other mark as it was.
proof fn lemma_detached(state: GpuState, scanout_id: u32)
    requires
        state.wf(),
        marks_agree(state),
        scanout_id < VIRTIO_GPU_MAX_SCANOUTS,
    ensures
        state.detached(scanout_id).resources.dom() == state.resources.dom(),
        state.detached(scanout_id).scanouts == state.scanouts,
        forall|id: u32, k: u32|
            state.resources.contains_key(id) ==> (
            #[trigger] state.detached(scanout_id).resources[id].scanouts.enabled(k)
                <==> state.resources[id].scanouts.enabled(k) && k != scanout_id),
{
    let after = state.detached(scanout_id);
    assert(after.resources.dom() =~= state.resources.dom());
    assert forall|id: u32, k: u32| state.resources.contains_key(id) implies (
    #[trigger] after.resources[id].scanouts.enabled(k)
        <==> state.resources[id].scanouts.enabled(k) && k != scanout_id) by {
        lemma_with_flipped(state.resources[id].scanouts, scanout_id);
        assert(state.resources[id].scanouts.enabled(scanout_id) <==> state.shown(scanout_id)
            == Some(id));
    }
}

/// The marks and the scanouts still agree once scanout `scanout_id` has been
/// taken from its resource and shows `resource_id` or nothing.
proof fn lemma_moved(
    state: GpuState,
    after: GpuState,
    scanout_id: u32,
    now: Option<u32>,
)
    requires
        state.wf(),
        marks_agree(state),
        scanout_id < VIRTIO_GPU_MAX_SCANOUTS,
        after.resources.dom() == state.resources.dom(),
        after.scanouts.len() == state.scanouts.len(),
        after.shown(scanout_id) == now,
        forall|k: u32|
            k < VIRTIO_GPU_MAX_SCANOUTS && k != scanout_id ==> #[trigger] after.shown(k)
                == state.shown(k),
        forall|id: u32, k: u32|
            state.resources.contains_key(id) ==> (
            #[trigger] after.resources[id].scanouts.enabled(k) <==> if k == scanout_id {
                now == Some(id)
            } else {
                state.resources[id].scanouts.enabled(k)
            }),
    ensures
        marks_agree(after),
{
    assert forall|id: u32, k: u32| after.resources.contains_key(id) implies (
    #[trigger] after.resources[id].scanouts.enabled(k) <==> k < VIRTIO_GPU_MAX_SCANOUTS
        && after.shown(k) == Some(id)) by {
        assert(state.resources.contains_key(id));
        assert(state.resources[id].scanouts.enabled(k) <==> k < VIRTIO_GPU_MAX_SCANOUTS
            && state.shown(k) == Some(id));
    }
}

/// SET_SCANOUT, once the display has followed, keeps the marks on the resources
/// and the scanouts in agreement: the scanout shows what was asked for, and no
/// other scanout is touched.
pub proof fn law_set_scanout(
    state: GpuState,
    scanout_id: u32,
    resource_id: u32,
    width: u32,
    height: u32,
    step: ScanoutStep,
)
    requires
        state.wf(),
        marks_agree(state),
        state.set_scanout_step(scanout_id, resource_id, width, height) == Ok::<
            ScanoutStep,
            GpuResponse,
        >(step),
    ensures
        ({
            let after = state.set_scanout(scanout_id, resource_id).shown_after(step);
            &&& marks_agree(after)
            &&& after.shown(scanout_id) == if resource_id == 0 {
                None
            } else {
                Some(resource_id)
            }
            &&& forall|k: u32|
                k < VIRTIO_GPU_MAX_SCANOUTS && k != scanout_id ==> #[trigger] after.shown(k)
                    == state.shown(k)
        }),
{
    let after = state.set_scanout(scanout_id, resource_id).shown_after(step);
    lemma_detached(state, scanout_id);
    let free = state.detached(scanout_id);
    if resource_id == 0 {
        lemma_moved(state, after, scanout_id, None);
    } else {
        lemma_with_enabled(free.resources[resource_id].scanouts, scanout_id);
        assert(after.resources.dom() =~= state.resources.dom());
        lemma_moved(state, after, scanout_id, Some(resource_id));
    }
}

/// SET_SCANOUT_BLOB, once the display has followed, keeps the marks on the
/// resources and the scanouts in agreement.
pub proof fn law_set_scanout_blob(
    state: GpuState,
    scanout_id: u32,
    resource_id: u32,
    format: Option<ResourceFormat>,
    width: u32,
    height: u32,
    stride: u32,
    step: ScanoutStep,
)
    requires
        state.wf(),
        marks_agree(state),
        state.set_scanout_blob_step(scanout_id, resource_id, format, width, height) == Ok::<
            ScanoutStep,
            GpuResponse,
        >(step),
    ensures
        ({
            let after = state.set_scanout_blob(
                scanout_id,
                resource_id,
                format,
                width,
                height,
                stride,
            ).shown_after(step);
            &&& marks_agree(after)
            &&& after.shown(scanout_id) == if resource_id == 0 {
                None
            } else {
                Some(resource_id)
            }
            &&& forall|k: u32|
                k < VIRTIO_GPU_MAX_SCANOUTS && k != scanout_id ==> #[trigger] after.shown(k)
                    == state.shown(k)
        }),
{
    let after = state.set_scanout_blob(
        scanout_id,
        resource_id,
        format,
        width,
        height,
        stride,
    ).shown_after(step);
    lemma_detached(state, scanout_id);
    let free = state.detached(scanout_id);
    if resource_id == 0 {
        lemma_moved(state, after, scanout_id, None);
    } else {
        lemma_with_enabled(free.resources[resource_id].scanouts, scanout_id);
        assert(after.resources.dom() =~= state.resources.dom());
        lemma_moved(state, after, scanout_id, Some(resource_id));
    }
}

/// A new device is in agreement: nothing is marked and nothing is shown.
pub proof fn law_new_device_agrees(
    renderer: Rutabaga,
    displays: Seq<Display>,
    mem: GuestMemoryMmap,
)
    ensures
        marks_agree(new_state(renderer, displays, mem)),
{
}

/// A new resource, under an id that no scanout shows, keeps the agreement.
pub proof fn law_create_keeps_agreement(state: GpuState, id: u32, record: VirtioGpuResource)
    requires
        marks_agree(state),
        record.scanouts.none(),
        forall|k: u32|
            k < VIRTIO_GPU_MAX_SCANOUTS ==> #[trigger] state.shown(k) != Some(id),
    ensures
        marks_agree(state.with_record(id, record)),
{
    lemma_none(record.scanouts);
    let after = state.with_record(id, record);
    assert forall|r: u32, k: u32| after.resources.contains_key(r) implies (
    #[trigger] after.resources[r].scanouts.enabled(k) <==> k < VIRTIO_GPU_MAX_SCANOUTS
        && after.shown(k) == Some(r)) by {
        assert(after.shown(k) == state.shown(k));
        if r != id {
            assert(state.resources[r].scanouts.enabled(k) <==> k < VIRTIO_GPU_MAX_SCANOUTS
                && state.shown(k) == Some(r));
        }
    }
}

/// Dropping a resource keeps the agreement.
pub proof fn law_drop_keeps_agreement(state: GpuState, id: u32)
    requires
        marks_agree(state),
    ensures
        marks_agree(state.without_record(id)),
{
    let after = state.without_record(id);
    assert forall|r: u32, k: u32| after.resources.contains_key(r) implies (
    #[trigger] after.resources[r].scanouts.enabled(k) <==> k < VIRTIO_GPU_MAX_SCANOUTS
        && after.shown(k) == Some(r)) by {
        assert(after.shown(k) == state.shown(k));
        assert(state.resources[r].scanouts.enabled(k) <==> k < VIRTIO_GPU_MAX_SCANOUTS
            && state.shown(k) == Some(r));
    }
}

/// A resource is flushed to exactly the scanouts that show it.
pub proof fn law_flush_reaches_what_is_shown(state: GpuState, resource_id: u32, scanout_id: u32)
    requires
        state.wf(),
        marks_agree(state),
        state.resources.contains_key(resource_id),
        scanout_id < VIRTIO_GPU_MAX_SCANOUTS,
    ensures
        enabled_below(
            state.resources[resource_id].scanouts,
            VIRTIO_GPU_MAX_SCANOUTS as nat,
        ).contains(scanout_id) <==> state.shown(scanout_id) == Some(resource_id),
{
    lemma_enabled_below(state.resources[resource_id].scanouts, VIRTIO_GPU_MAX_SCANOUTS as nat);
    assert(state.resources[resource_id].scanouts.enabled(scanout_id) <==> state.shown(scanout_id)
        == Some(resource_id));
}

/// A resource that a scanout shows has a mark, so that RESOURCE_UNREF refuses
/// it.
pub proof fn law_shown_resource_is_marked(state: GpuState, resource_id: u32, scanout_id: u32)
    requires
        state.wf(),
        marks_agree(state),
        state.resources.contains_key(resource_id),
        scanout_id < VIRTIO_GPU_MAX_SCANOUTS,
        state.shown(scanout_id) == Some(resource_id),
    ensures
        !state.resources[resource_id].scanouts.none(),
{
    assert(state.resources[resource_id].scanouts.enabled(scanout_id));
    lemma_none(state.resources[resource_id].scanouts);
}

/// The renderer never creates a resource twice: an id of which there is a
/// record that is not a plain 2D buffer cannot be created.
pub proof fn law_no_duplicate_resource(
    state: GpuState,
    after: GpuState,
    id: u32,
    record: VirtioGpuResource,
    response: GpuResponse,
)
    requires
        state.wf(),
        state.resources.contains_key(id),
        !state.resources[id].native_2d,
    ensures
        !state.created(after, id, record, response),
{
    assert(state.record_wf(id));
    assert(renderer_resources(state.renderer).contains_key(id));
}

/// Creating a plain 2D buffer under a new id and dropping it again leaves the
/// device as it was.
pub proof fn law_drop_undoes_create_2d(
    state: GpuState,
    id: u32,
    buffer: Native2d,
    record: VirtioGpuResource,
)
    requires
        !state.resources.contains_key(id),
        !state.native_2d.contains_key(id),
    ensures
        ({
            let there = state.with_buffer(id, buffer).with_record(id, record);
            state == (GpuState {
                native_2d: there.native_2d.remove(id),
                ..there.without_record(id)
            })
        }),
{
    let there = state.with_buffer(id, buffer).with_record(id, record);
    assert(there.native_2d.remove(id) =~= state.native_2d);
    assert(there.resources.remove(id) =~= state.resources);
}

/// Dropping undoes creating for resources of the renderer: `after` is what
/// RESOURCE_UNREF makes of `there`, which holds a new resource.
pub proof fn law_drop_undoes_create(
    state: GpuState,
    there: GpuState,
    after: GpuState,
    id: u32,
    record: VirtioGpuResource,
    response: GpuResponse,
)
    requires
        !state.resources.contains_key(id),
        state.created(there, id, record, response),
        after == there.without_record(id).with_renderer(after.renderer),
        renderer_resources(after.renderer) == renderer_resources(there.renderer).remove(id),
    ensures
        after == state.with_renderer(after.renderer),
        renderer_resources(after.renderer) == renderer_resources(state.renderer),
{
    assert(there.resources.remove(id) =~= state.resources);
}

/// Destroying undoes creating for contexts: where CTX_CREATE made `there` of
/// `before` and CTX_DESTROY made `after` of that, the contexts are as they were.
pub proof fn law_destroy_undoes_create_context(
    before: Rutabaga,
    there: Rutabaga,
    after: Rutabaga,
    ctx_id: u32,
)
    requires
        !renderer_contexts(before).contains(ctx_id),
        renderer_contexts(there) == renderer_contexts(before).insert(ctx_id),
        renderer_contexts(after) == renderer_contexts(there).remove(ctx_id),
    ensures
        renderer_contexts(after) == renderer_contexts(before),
{
    assert(renderer_contexts(after) =~= renderer_contexts(before));
}

/// A context that is destroyed is forgotten: nothing of what it was given or told
/// is kept for another context with its id, and no other context is touched.
pub proof fn law_destroyed_context_is_forgotten(before: Rutabaga, after: Rutabaga, ctx_id: u32)
    requires
        renderer_called(before, after, RendererCall::DestroyContext { ctx_id, refusal: None }),
    ensures
        !is_cross_domain(after, ctx_id),
        !is_bare(after, ctx_id),
        !is_spoken(after, ctx_id),
        !is_open(after, ctx_id),
        rings_sound(after, ctx_id),
        forall|k: u32|
            k != ctx_id ==> {
                &&& #[trigger] is_cross_domain(after, k) == is_cross_domain(before, k)
                &&& is_bare(after, k) == is_bare(before, k)
                &&& is_spoken(after, k) == is_spoken(before, k)
                &&& is_open(after, k) == is_open(before, k)
            },
{
    lemma_last(before, after);
}

/// Whether `call` gives a resource an empty list of guest ranges.
pub open spec fn gives_empty_list(call: RendererCall) -> bool {
    match call {
        RendererCall::AttachBacking { iovecs, .. } => iovecs.len() == 0,
        RendererCall::ResourceCreateBlob { backing: Some(iovecs), .. } => iovecs.len() == 0,
        _ => false,
    }
}

/// A guest that never gives a resource an empty list has no context with one.
/// Such a guest is refused only commands that do not come to an end, and those
/// that initialise a context without a channel that may have one.
pub proof fn law_lists_make_sound_contexts(renderer: Rutabaga, ctx_id: u32)
    requires
        forall|i: int|
            0 <= i < renderer_calls(renderer).len() ==> !gives_empty_list(
                #[trigger] renderer_calls(renderer)[i],
            ),
    ensures
        rings_sound(renderer, ctx_id),
        forall|commands: Seq<u8>, fence_ids: Seq<u64>|
            frames_advance(commands) && !frames_close(commands, is_open(renderer, ctx_id))
                ==> #[trigger] submittable(
                renderer,
                ctx_id,
                commands,
                fence_ids,
            ),
{
    lemma_nothing_bare(renderer_calls(renderer));
}

/// Without empty lists there are neither resources nor contexts that have one.
proof fn lemma_nothing_bare(calls: Seq<RendererCall>)
    requires
        forall|i: int| 0 <= i < calls.len() ==> !gives_empty_list(#[trigger] calls[i]),
    ensures
        bare_resources(calls) == Set::<u32>::empty(),
        bare_contexts(calls) == Set::<u32>::empty(),
    decreases calls.len(),
{
    if calls.len() > 0 {
        let before = calls.drop_last();
        assert forall|i: int| 0 <= i < before.len() implies !gives_empty_list(
            #[trigger] before[i],
        ) by {
            assert(before[i] == calls[i]);
        }
        lemma_nothing_bare(before);
        assert(!gives_empty_list(calls.last()));
        assert(bare_resources(calls) =~= Set::<u32>::empty());
        assert(bare_contexts(calls) =~= Set::<u32>::empty());
    }
}

/// A transfer shows the guest's pixels where they belong: if `guest` is the
/// guest's buffer, laid out like the host's, and the transfer reads it from the
/// first pixel of the rectangle on, then every pixel of the rectangle is the
/// guest's, and every other pixel is as before.
pub proof fn law_transfer_shows_guest_pixels(
    before: Native2d,
    after: Native2d,
    guest: Seq<u8>,
    region: Seq<u8>,
    x: u32,
    y: u32,
    w: u32,
    h: u32,
    i: int,
)
    requires
        transferred(before, after, region, x, y, w, h),
        0 < before.width,
        0 <= i < before.shadow.len(),
        y * (4 * before.width) + 4 * x + region.len() <= guest.len(),
        region == guest.subrange(
            y * (4 * before.width) + 4 * x,
            y * (4 * before.width) + 4 * x + region.len(),
        ),
    ensures
        ({
            let stride = 4 * before.width as int;
            after.shadow[i] == if y <= i / stride < y + h && 4 * x <= i % stride < 4 * (x + w) {
                guest[i]
            } else {
                before.shadow[i]
            }
        }),
{
    let stride = 4 * before.width as int;
    lemma_row_and_column(i, stride);
    let row = i / stride;
    let column = i % stride;
    if y <= row < y + h && 4 * x <= column < 4 * (x + w) {
        assert((row - y) * stride + (column - 4 * x) + y * stride + 4 * x == row * stride + column)
            by (nonlinear_arith);
        assert(0 <= (row - y) * stride <= (h - 1) * stride)
            by (nonlinear_arith)
            requires
                0 <= row - y,
                row - y + 1 <= h,
                0 < stride,
        ;
    }
}

/// A transfer of the whole buffer puts what was read on the host, whatever was
/// there before.
pub proof fn law_whole_transfer(before: Native2d, after: Native2d, region: Seq<u8>)
    requires
        before.wf(),
        0 < before.width,
        transferred(before, after, region, 0, 0, before.width, before.height),
    ensures
        after.shadow == region,
{
    let stride = 4 * before.width as int;
    let height = before.height as int;
    assert(height * stride == 4 * before.width * before.height && (height - 1) * stride + stride
        == height * stride) by (nonlinear_arith)
        requires
            stride == 4 * before.width,
            height == before.height,
    ;
    assert forall|i: int| 0 <= i < before.shadow.len() implies after.shadow[i] == region[i] by {
        lemma_row_and_column(i, stride);
        assert(i / stride < height) by (nonlinear_arith)
            requires
                (i / stride) * stride <= i,
                i < height * stride,
                0 < stride,
        ;
    }
    assert(after.shadow =~= region);
}

/// A frame of the size of the buffer shows the buffer, whatever it held.
pub proof fn law_frame_shows_buffer(frame: Seq<u8>, shadow: Seq<u8>)
    requires
        frame.len() == shadow.len(),
    ensures
        prefix_copied(frame, shadow) == shadow,
{
    assert(prefix_copied(frame, shadow) =~= shadow);
}

/// What the guest transfers is what it sees: a flush after a transfer of the
/// whole buffer fills a frame of its size with the bytes that were read.
pub proof fn law_flush_shows_what_was_transferred(
    before: Native2d,
    after: Native2d,
    region: Seq<u8>,
    frame: Seq<u8>,
)
    requires
        before.wf(),
        0 < before.width,
        transferred(before, after, region, 0, 0, before.width, before.height),
        frame.len() == before.shadow.len(),
    ensures
        prefix_copied(frame, after.shadow) == region,
{
    law_whole_transfer(before, after, region);
    law_frame_shows_buffer(frame, after.shadow);
}

/// A blob whose rows are tightly packed fills a frame of its size with its
/// bytes.
pub proof fn law_packed_blob_fills_frame(frame: Seq<u8>, src: Seq<u8>, width: u32, height: u32)
    requires
        0 < width,
        frame.len() == 4 * width * height,
        frame.len() <= src.len(),
    ensures
        rows_copied(frame, src, width as int, height as int, 4 * width as int) == src.take(
            frame.len() as int,
        ),
{
    let stride = 4 * width as int;
    let rows = height as int;
    assert(rows * stride == 4 * width * height) by (nonlinear_arith)
        requires
            stride == 4 * width,
            rows == height,
    ;
    let shown = rows_copied(frame, src, width as int, rows, stride);
    assert forall|i: int| 0 <= i < frame.len() implies shown[i] == src[i] by {
        lemma_row_and_column(i, stride);
        let row = i / stride;
        assert(row < rows) by (nonlinear_arith)
            requires
                row * stride <= i,
                i < rows * stride,
                0 < stride,
        ;
        assert(row * stride + stride <= rows * stride) by (nonlinear_arith)
            requires
                row + 1 <= rows,
                0 < stride,
        ;
        assert(row_fits(row, width as int, stride, src.len() as int, frame.len() as int));
    }
    assert(shown =~= src.take(frame.len() as int));
}

/// Without guest memory nothing can be read: a buffer without ranges, as it is
/// when it is new or once they are detached, refuses every transfer that reads.
pub proof fn law_no_backing_no_transfer(
    regions: Seq<(u64, u64)>,
    buffer: Native2d,
    x: u32,
    w: u32,
    h: u32,
    offset: u64,
)
    requires
        buffer.backing.len() == 0,
    ensures
        !backing_readable(regions, buffer.backing, offset as int, transfer_len(buffer, x, w, h)),
{
}

/// `backing` with segment `k` cut in two behind its first `n` bytes.
pub open spec fn recut(backing: Seq<(u64, usize)>, k: int, n: int) -> Seq<(u64, usize)> {
    let (addr, len) = backing[k];
    Seq::new(
        backing.len() + 1,
        |i: int|
            if i < k {
                backing[i]
            } else if i == k {
                (addr, n as usize)
            } else if i == k + 1 {
                ((addr + n) as u64, (len - n) as usize)
            } else {
                backing[i - 1]
            },
    )
}

/// Where the segments start once one is cut in two.
proof fn lemma_recut_start(backing: Seq<(u64, usize)>, k: int, n: int, i: int)
    requires
        0 <= k < backing.len(),
        0 < n < backing[k].1,
        0 <= i <= backing.len() + 1,
    ensures
        backing_start(recut(backing, k, n), i) == if i <= k {
            backing_start(backing, i)
        } else if i == k + 1 {
            backing_start(backing, k) + n
        } else {
            backing_start(backing, i - 1)
        },
    decreases i,
{
    if i > 0 {
        lemma_recut_start(backing, k, n, i - 1);
    }
}

/// Where segment `i` stands once segment `k` is cut in two.
spec fn recut_index(k: int, i: int) -> int {
    if i <= k {
        i
    } else {
        i + 1
    }
}

/// Whether the piece that segment `i` gives to a read can be read.
spec fn reads_piece(
    regions: Seq<(u64, u64)>,
    backing: Seq<(u64, usize)>,
    offset: int,
    len: int,
    i: int,
) -> bool {
    backing_touched(backing, offset, len, i) ==> guest_readable(
        regions,
        backing_address(backing, i, piece_start(backing, offset, i)),
        piece_end(backing, offset, len, i) - piece_start(backing, offset, i),
    )
}

/// The piece of a segment that is not empty can be read exactly when each of its
/// bytes exists.
proof fn lemma_reads_piece(
    regions: Seq<(u64, u64)>,
    backing: Seq<(u64, usize)>,
    offset: int,
    len: int,
    i: int,
)
    requires
        0 < backing[i].1,
    ensures
        reads_piece(regions, backing, offset, len, i) <==> forall|pos: int|
            backing_start(backing, i) <= pos < backing_end(backing, i) && offset <= pos < offset
                + len ==> #[trigger] guest_mapped(regions, backing_address(backing, i, pos)),
{
    let from = piece_start(backing, offset, i);
    let at = backing_address(backing, i, from);
    let size = piece_end(backing, offset, len, i) - from;
    if backing_touched(backing, offset, len, i) {
        if forall|pos: int|
            backing_start(backing, i) <= pos < backing_end(backing, i) && offset <= pos < offset
                + len ==> #[trigger] guest_mapped(regions, backing_address(backing, i, pos)) {
            assert(guest_mapped(regions, backing_address(backing, i, from)));
            assert forall|a: int| at <= a < at + size implies #[trigger] guest_mapped(
                regions,
                a,
            ) by {
                assert(guest_mapped(regions, backing_address(backing, i, from + (a - at))));
            }
        }
    }
}

/// It does not matter how guest memory is cut into segments: a segment can be cut
/// in two anywhere, and the backing holds as many bytes as before, the same reads
/// of it can be made, and they hand out the same bytes.
pub proof fn law_segments_do_not_matter(
    mem: GuestMemoryMmap,
    backing: Seq<(u64, usize)>,
    k: int,
    n: int,
    offset: u64,
    bytes: Seq<u8>,
)
    requires
        0 <= k < backing.len(),
        0 < n < backing[k].1,
        backing[k].0 + n <= u64::MAX,
    ensures
        ({
            let cut = recut(backing, k, n);
            let regions = guest_regions(mem);
            let len = bytes.len() as int;
            &&& backing_len(cut) == backing_len(backing)
            &&& backing_addressable(cut, offset as int, len) == backing_addressable(
                backing,
                offset as int,
                len,
            )
            &&& backing_readable(regions, cut, offset as int, len) == backing_readable(
                regions,
                backing,
                offset as int,
                len,
            )
            &&& backing_seen(mem, cut, offset as int, bytes) == backing_seen(
                mem,
                backing,
                offset as int,
                bytes,
            )
        }),
{
    let cut = recut(backing, k, n);
    let regions = guest_regions(mem);
    let first = offset as int;
    let len = bytes.len() as int;
    assert forall|i: int| 0 <= i <= backing.len() + 1 implies #[trigger] backing_start(cut, i)
        == if i <= k {
        backing_start(backing, i)
    } else if i == k + 1 {
        backing_start(backing, k) + n
    } else {
        backing_start(backing, i - 1)
    } by {
        lemma_recut_start(backing, k, n, i);
    }
    // Segments before and behind the cut keep their pieces.
    assert forall|i: int| 0 <= i < backing.len() && i != k implies ({
        let j = recut_index(k, i);
        &&& #[trigger] backing_touched(backing, first, len, i) == backing_touched(
            cut,
            first,
            len,
            j,
        )
        &&& piece_start(backing, first, i) == piece_start(cut, first, j)
        &&& piece_end(backing, first, len, i) == piece_end(cut, first, len, j)
        &&& forall|pos: int| #[trigger]
            backing_address(backing, i, pos) == backing_address(cut, j, pos)
    }) by {}
    assert forall|j: int| 0 <= j < cut.len() && j != k && j != k + 1 implies ({
        let i = if j < k {
            j
        } else {
            j - 1
        };
        &&& j == recut_index(k, i)
        &&& #[trigger] backing_touched(cut, first, len, j) == backing_touched(
            backing,
            first,
            len,
            i,
        )
        &&& forall|pos: int| #[trigger]
            backing_address(cut, j, pos) == backing_address(backing, i, pos)
    }) by {}
    // The two parts share the piece of the segment between them.
    let whole = backing_touched(backing, first, len, k);
    let left = backing_touched(cut, first, len, k);
    let right = backing_touched(cut, first, len, k + 1);
    assert(whole == (left || right));
    assert forall|pos: int| #[trigger]
        backing_address(backing, k, pos) == backing_address(cut, k, pos) && backing_address(
            cut,
            k,
            pos,
        ) == backing_address(cut, k + 1, pos) by {}
    assert(reads_piece(regions, backing, first, len, k) == (reads_piece(
        regions,
        cut,
        first,
        len,
        k,
    ) && reads_piece(regions, cut, first, len, k + 1))) by {
        lemma_reads_piece(regions, backing, first, len, k);
        lemma_reads_piece(regions, cut, first, len, k);
        lemma_reads_piece(regions, cut, first, len, k + 1);
        if reads_piece(regions, cut, first, len, k) && reads_piece(
            regions,
            cut,
            first,
            len,
            k + 1,
        ) {
            assert forall|pos: int|
                backing_start(backing, k) <= pos < backing_end(backing, k) && first <= pos < first
                    + len implies #[trigger] guest_mapped(
                regions,
                backing_address(backing, k, pos),
            ) by {
                if pos < backing_start(backing, k) + n {
                    assert(guest_mapped(regions, backing_address(cut, k, pos)));
                } else {
                    assert(guest_mapped(regions, backing_address(cut, k + 1, pos)));
                }
            }
        }
        if reads_piece(regions, backing, first, len, k) {
            assert forall|pos: int|
                backing_start(cut, k) <= pos < backing_end(cut, k) && first <= pos < first
                    + len implies #[trigger] guest_mapped(
                regions,
                backing_address(cut, k, pos),
            ) by {
                assert(guest_mapped(regions, backing_address(backing, k, pos)));
            }
            assert forall|pos: int|
                backing_start(cut, k + 1) <= pos < backing_end(cut, k + 1) && first <= pos < first
                    + len implies #[trigger] guest_mapped(
                regions,
                backing_address(cut, k + 1, pos),
            ) by {
                assert(guest_mapped(regions, backing_address(backing, k, pos)));
            }
        }
    }
    assert(backing_readable(regions, cut, first, len) ==> backing_readable(
        regions,
        backing,
        first,
        len,
    )) by {
        if backing_readable(regions, cut, first, len) {
            assert forall|i: int|
                0 <= i < backing.len() && #[trigger] backing_touched(
                    backing,
                    first,
                    len,
                    i,
                ) implies reads_piece(regions, backing, first, len, i) by {
                assert(i != k ==> backing_touched(cut, first, len, recut_index(k, i)));
            }
        }
    }
    assert(backing_readable(regions, backing, first, len) ==> backing_readable(
        regions,
        cut,
        first,
        len,
    )) by {
        if backing_readable(regions, backing, first, len) {
            assert forall|j: int|
                0 <= j < cut.len() && #[trigger] backing_touched(
                    cut,
                    first,
                    len,
                    j,
                ) implies reads_piece(regions, cut, first, len, j) by {
                assert(j < k ==> backing_touched(backing, first, len, j));
                assert(j > k + 1 ==> backing_touched(backing, first, len, j - 1));
            }
        }
    }
    assert(backing_addressable(cut, first, len) ==> backing_addressable(backing, first, len)) by {
        if backing_addressable(cut, first, len) {
            assert forall|i: int|
                0 <= i < backing.len() && #[trigger] backing_touched(
                    backing,
                    first,
                    len,
                    i,
                ) implies backing_address(backing, i, piece_start(backing, first, i))
                <= u64::MAX by {
                assert(i != k ==> backing_touched(cut, first, len, recut_index(k, i)));
            }
        }
    }
    assert(backing_addressable(backing, first, len) ==> backing_addressable(cut, first, len)) by {
        if backing_addressable(backing, first, len) {
            assert forall|j: int|
                0 <= j < cut.len() && #[trigger] backing_touched(
                    cut,
                    first,
                    len,
                    j,
                ) implies backing_address(cut, j, piece_start(cut, first, j)) <= u64::MAX by {
                assert(j < k ==> backing_touched(backing, first, len, j));
                assert(j > k + 1 ==> backing_touched(backing, first, len, j - 1));
            }
        }
    }
    assert(backing_seen(mem, cut, first, bytes) ==> backing_seen(mem, backing, first, bytes)) by {
        if backing_seen(mem, cut, first, bytes) {
            assert forall|i: int, pos: int|
                0 <= i < backing.len() && backing_start(backing, i) <= pos < backing_end(backing, i)
                    && first <= pos < first + bytes.len() implies guest_byte_seen(
                mem,
                #[trigger] backing_address(backing, i, pos),
                bytes[pos - first],
            ) by {
                let j = if i == k && pos >= backing_start(backing, k) + n {
                    k + 1
                } else {
                    recut_index(k, i)
                };
                assert(backing_address(cut, j, pos) == backing_address(backing, i, pos));
            }
        }
    }
    assert(backing_seen(mem, backing, first, bytes) ==> backing_seen(mem, cut, first, bytes)) by {
        if backing_seen(mem, backing, first, bytes) {
            assert forall|j: int, pos: int|
                0 <= j < cut.len() && backing_start(cut, j) <= pos < backing_end(cut, j) && first
                    <= pos < first + bytes.len() implies guest_byte_seen(
                mem,
                #[trigger] backing_address(cut, j, pos),
                bytes[pos - first],
            ) by {
                let i = if j <= k {
                    j
                } else {
                    j - 1
                };
                assert(backing_address(cut, j, pos) == backing_address(backing, i, pos));
            }
        }
    }
}

/// The bytes of a uuid that are not zero.
proof fn lemma_uuid_bytes(id: u32)
    ensures
        uuid_of(id)[12] == id / 0x100_0000,
        uuid_of(id)[13] == id / 0x1_0000 % 0x100,
        uuid_of(id)[14] == id / 0x100 % 0x100,
        uuid_of(id)[15] == id % 0x100,
{
    assert(id / 0x100_0000 < 0x100);
    assert(id / 0x1_0000 % 0x100 < 0x100);
    assert(id / 0x100 % 0x100 < 0x100);
    assert(id % 0x100 < 0x100);
}

/// Two resources with one uuid are one resource.
pub proof fn law_uuid_identifies_resource(a: u32, b: u32)
    requires
        uuid_of(a) == uuid_of(b),
    ensures
        a == b,
{
    lemma_uuid_bytes(a);
    lemma_uuid_bytes(b);
    assert(a / 0x100_0000 == b / 0x100_0000);
    assert(a / 0x1_0000 % 0x100 == b / 0x1_0000 % 0x100);
    assert(a / 0x1_0000 == 0x100 * (a / 0x100_0000) + a / 0x1_0000 % 0x100);
    assert(b / 0x1_0000 == 0x100 * (b / 0x100_0000) + b / 0x1_0000 % 0x100);
    assert(a / 0x100 % 0x100 == b / 0x100 % 0x100);
    assert(a / 0x100 == 0x100 * (a / 0x1_0000) + a / 0x100 % 0x100);
    assert(b / 0x100 == 0x100 * (b / 0x1_0000) + b / 0x100 % 0x100);
    assert(a % 0x100 == b % 0x100);
}

/// A blob that is mapped where the window has room for it lies in the window.
pub proof fn law_mapping_lies_in_window(
    size: u64,
    map_info: u32,
    exported: Option<u32>,
    map_ptr: u64,
    handle_type: u32,
    region: VirtioShmRegion,
    offset: u64,
)
    ensures
        renderer_target(size, map_info, region, offset) matches Ok((addr, prot)) ==> {
            &&& region.host_addr <= addr
            &&& addr + size <= region.host_addr + region.size
        },
        hypervisor_plan(size, map_ptr, handle_type, exported, region, offset) matches Some(
            MapPlan::MapByHypervisor { guest_addr, .. },
        ) ==> {
            &&& region.guest_addr <= guest_addr
            &&& guest_addr + size <= region.guest_addr + region.size
        },
{
}

/// Unmapping finds what mapping has put into the window: after a blob has been
/// mapped at `offset`, the bytes to unmap are those that were mapped, and once
/// they are unmapped the device is as before the mapping of an unmapped blob.
pub proof fn law_unmap_undoes_map(
    state: GpuState,
    id: u32,
    map_info: u32,
    exported: Option<u32>,
    map_ptr: u64,
    handle_type: u32,
    region: VirtioShmRegion,
    offset: u64,
)
    requires
        state.resources.contains_key(id),
        state.resources[id].shmem_offset is None,
    ensures
        ({
            let mapped = state.with_shmem_offset(id, Some(offset));
            let bytes = state.resources[id].size;
            &&& mapped.resources[id].shmem_offset == Some(offset)
            &&& mapped.resources[id].size == bytes
            &&& mapped.with_shmem_offset(id, None) == state
            &&& descriptor_plan(bytes, map_info, exported, region, offset) matches Some(
                MapPlan::MapHandle { addr, size, .. },
            ) ==> addr == window_base(region, WindowSide::Host) + offset && size == bytes
            &&& renderer_target(bytes, map_info, region, offset) matches Ok((addr, prot)) ==> addr
                == window_base(region, WindowSide::Host) + offset
            &&& hypervisor_plan(
                bytes,
                map_ptr,
                handle_type,
                exported,
                region,
                offset,
            ) matches Some(MapPlan::MapByHypervisor { guest_addr, size, .. }) ==> guest_addr
                == window_base(region, WindowSide::Guest) + offset && size == bytes
        }),
{
    let mapped = state.with_shmem_offset(id, Some(offset));
    assert(mapped.with_shmem_offset(id, None).resources =~= state.resources);
}

/// SET_SCANOUT asks the display for what the guest wants: the width and height of
/// the command, in the format that the resource has, on the screen of that
/// scanout. It does so wherever the resource has a format, the scanout a screen,
/// and what the scanout showed before was not dropped.
pub proof fn law_set_scanout_configures(
    state: GpuState,
    scanout_id: u32,
    resource_id: u32,
    width: u32,
    height: u32,
    format: ResourceFormat,
)
    requires
        scanout_id < 16,
        scanout_id < state.displays.len(),
        resource_id != 0,
        state.resources.contains_key(resource_id),
        state.resources[resource_id].format == Some(format),
        state.scanouts[scanout_id as int] matches Some(shown) ==> state.resources.contains_key(
            shown.resource_id,
        ),
    ensures
        state.set_scanout_step(scanout_id, resource_id, width, height) matches Ok(
            ScanoutStep::Configure {
                scanout_id: on,
                resource_id: what,
                display_width,
                display_height,
                width: shown_width,
                height: shown_height,
                format: shown_format,
            },
        ) && {
            &&& on == scanout_id
            &&& what == resource_id
            &&& display_width == state.displays[scanout_id as int].width
            &&& display_height == state.displays[scanout_id as int].height
            &&& shown_width == width
            &&& shown_height == height
            &&& shown_format == format
        },
{
}

/// SET_SCANOUT with resource 0 turns the scanout off, wherever what it showed was
/// not dropped.
pub proof fn law_set_scanout_turns_off(state: GpuState, scanout_id: u32, width: u32, height: u32)
    requires
        state.wf(),
        scanout_id < 16,
        state.scanouts[scanout_id as int] matches Some(shown) ==> state.resources.contains_key(
            shown.resource_id,
        ),
    ensures
        state.set_scanout_step(scanout_id, 0, width, height) == Ok::<ScanoutStep, GpuResponse>(
            ScanoutStep::Disable { scanout_id },
        ),
        state.set_scanout(scanout_id, 0).scanouts[scanout_id as int] is None,
{
}

/// SET_SCANOUT refuses a scanout that the device does not have, a scanout whose
/// resource was dropped, a resource that there is not, a resource without a
/// format, and a scanout without a screen; the first two without changing
/// anything.
pub proof fn law_set_scanout_refuses(
    state: GpuState,
    scanout_id: u32,
    resource_id: u32,
    width: u32,
    height: u32,
)
    ensures
        ({
            let step = state.set_scanout_step(scanout_id, resource_id, width, height);
            let invalid_scanout = Err::<ScanoutStep, GpuResponse>(GpuResponse::ErrInvalidScanoutId);
            let invalid_resource = Err::<ScanoutStep, GpuResponse>(
                GpuResponse::ErrInvalidResourceId,
            );
            let lost = state.scanouts[scanout_id as int] matches Some(shown)
                && !state.resources.contains_key(shown.resource_id);
            &&& scanout_id >= 16 ==> step == invalid_scanout && state.set_scanout(
                scanout_id,
                resource_id,
            ) == state
            &&& scanout_id < 16 && lost ==> step == invalid_resource && state.set_scanout(
                scanout_id,
                resource_id,
            ) == state
            &&& scanout_id < 16 && !lost && resource_id != 0 && !state.resources.contains_key(
                resource_id,
            ) ==> step == invalid_resource
            &&& scanout_id < 16 && !lost && resource_id != 0 && state.resources.contains_key(
                resource_id,
            ) ==> {
                &&& state.resources[resource_id].format is None ==> step == Err::<
                    ScanoutStep,
                    GpuResponse,
                >(GpuResponse::ErrUnspec)
                &&& state.resources[resource_id].format is Some && state.displays.len()
                    <= scanout_id ==> step == invalid_scanout
            }
        }),
{
}

/// SET_SCANOUT_BLOB asks the display for what the guest wants: the width, height
/// and format of the command, on the screen of that scanout. The blob takes on the
/// same geometry, and the distance of its rows: that of the command, or that of
/// rows without padding where the command gives none.
pub proof fn law_set_scanout_blob_configures(
    state: GpuState,
    scanout_id: u32,
    resource_id: u32,
    format: ResourceFormat,
    width: u32,
    height: u32,
    stride: u32,
)
    requires
        scanout_id < 16,
        scanout_id < state.displays.len(),
        resource_id != 0,
        state.resources.contains_key(resource_id),
        stride != 0 || 4 * width <= u32::MAX,
    ensures
        state.set_scanout_blob_step(
            scanout_id,
            resource_id,
            Some(format),
            width,
            height,
        ) matches Ok(
            ScanoutStep::Configure {
                scanout_id: on,
                resource_id: what,
                display_width,
                display_height,
                width: shown_width,
                height: shown_height,
                format: shown_format,
            },
        ) && {
            &&& on == scanout_id
            &&& what == resource_id
            &&& display_width == state.displays[scanout_id as int].width
            &&& display_height == state.displays[scanout_id as int].height
            &&& shown_width == width
            &&& shown_height == height
            &&& shown_format == format
        },
        ({
            let record = state.set_scanout_blob(
                scanout_id,
                resource_id,
                Some(format),
                width,
                height,
                stride,
            ).resources[resource_id];
            &&& record.width == width
            &&& record.height == height
            &&& record.format == Some(format)
            &&& stride != 0 ==> record.scanout_stride == stride
            &&& stride == 0 ==> record.scanout_stride == 4 * width
        }),
{
}

/// SET_SCANOUT_BLOB with resource 0 turns the scanout off. It refuses a scanout
/// that the device does not have, a resource that there is not, a command without
/// a format, and a scanout without a screen.
pub proof fn law_set_scanout_blob_refuses(
    state: GpuState,
    scanout_id: u32,
    resource_id: u32,
    format: Option<ResourceFormat>,
    width: u32,
    height: u32,
    stride: u32,
)
    requires
        state.wf(),
    ensures
        ({
            let step = state.set_scanout_blob_step(scanout_id, resource_id, format, width, height);
            let after = state.set_scanout_blob(
                scanout_id,
                resource_id,
                format,
                width,
                height,
                stride,
            );
            let invalid_scanout = Err::<ScanoutStep, GpuResponse>(GpuResponse::ErrInvalidScanoutId);
            &&& scanout_id >= 16 ==> step == invalid_scanout && after == state
            &&& scanout_id < 16 && resource_id == 0 ==> step == Ok::<ScanoutStep, GpuResponse>(
                ScanoutStep::Disable { scanout_id },
            ) && after.scanouts[scanout_id as int] is None
            &&& scanout_id < 16 && resource_id != 0 && !state.resources.contains_key(resource_id)
                ==> step == Err::<ScanoutStep, GpuResponse>(GpuResponse::ErrInvalidResourceId)
            &&& scanout_id < 16 && resource_id != 0 && state.resources.contains_key(resource_id)
                ==> {
                &&& format is None ==> step == Err::<ScanoutStep, GpuResponse>(
                    GpuResponse::ErrUnspec,
                )
                &&& format is Some && state.displays.len() <= scanout_id ==> step
                    == invalid_scanout
            }
        }),
{
}

/// SET_SCANOUT changes marks and nothing else of the records: every record keeps
/// its geometry, its format, its size and its mapping, there are the same records
/// as before, and buffers, screens, renderer and memory are as they were. No other
/// scanout is touched, and this one only where it is turned off.
pub proof fn law_set_scanout_changes_marks(
    state: GpuState,
    scanout_id: u32,
    resource_id: u32,
    id: u32,
    other: u32,
)
    requires
        state.wf(),
    ensures
        ({
            let after = state.set_scanout(scanout_id, resource_id);
            &&& after.native_2d == state.native_2d
            &&& after.displays == state.displays
            &&& after.renderer == state.renderer
            &&& after.mem == state.mem
            &&& after.resources.contains_key(id) <==> state.resources.contains_key(id)
            &&& state.resources.contains_key(id) ==> after.resources[id] == (VirtioGpuResource {
                scanouts: after.resources[id].scanouts,
                ..state.resources[id]
            })
            &&& after.scanouts.len() == state.scanouts.len()
            &&& other < 16 && (other != scanout_id || resource_id != 0)
                ==> after.scanouts[other as int] == state.scanouts[other as int]
        }),
{
}

/// SET_SCANOUT_BLOB changes marks, and the geometry of the resource that it shows,
/// and nothing else of the records; buffers, screens, renderer and memory are as
/// they were. No other scanout is touched, and this one only where it is turned
/// off.
pub proof fn law_set_scanout_blob_changes_marks(
    state: GpuState,
    scanout_id: u32,
    resource_id: u32,
    format: Option<ResourceFormat>,
    width: u32,
    height: u32,
    stride: u32,
    id: u32,
    other: u32,
)
    requires
        state.wf(),
    ensures
        ({
            let after = state.set_scanout_blob(
                scanout_id,
                resource_id,
                format,
                width,
                height,
                stride,
            );
            let before = state.resources[id];
            let record = after.resources[id];
            &&& after.native_2d == state.native_2d
            &&& after.displays == state.displays
            &&& after.renderer == state.renderer
            &&& after.mem == state.mem
            &&& after.resources.contains_key(id) <==> state.resources.contains_key(id)
            &&& state.resources.contains_key(id) && (id != resource_id || format is None) ==> record
                == (VirtioGpuResource { scanouts: record.scanouts, ..before })
            &&& state.resources.contains_key(id) ==> {
                &&& record.id == before.id
                &&& record.size == before.size
                &&& record.shmem_offset == before.shmem_offset
                &&& record.rutabaga_external_mapping == before.rutabaga_external_mapping
                &&& record.blob == before.blob
                &&& record.native_2d == before.native_2d
            }
            &&& after.scanouts.len() == state.scanouts.len()
            &&& other < 16 && (other != scanout_id || resource_id != 0)
                ==> after.scanouts[other as int] == state.scanouts[other as int]
        }),
{
}

/// Both commands take the scanout from the resource that it shows, by flipping its
/// mark, and mark the resource that it is to show. No mark for another scanout
/// changes.
pub proof fn law_marks_move(
    state: GpuState,
    scanout_id: u32,
    resource_id: u32,
    format: ResourceFormat,
    width: u32,
    height: u32,
    stride: u32,
    id: u32,
    other: u32,
)
    requires
        state.wf(),
        scanout_id < 16,
        state.resources.contains_key(id),
        state.scanouts[scanout_id as int] matches Some(shown) ==> state.resources.contains_key(
            shown.resource_id,
        ),
    ensures
        ({
            let before = state.resources[id].scanouts;
            let plain = state.set_scanout(scanout_id, resource_id).resources[id].scanouts;
            let blob = state.set_scanout_blob(
                scanout_id,
                resource_id,
                Some(format),
                width,
                height,
                stride,
            ).resources[id].scanouts;
            let shown = state.scanouts[scanout_id as int] matches Some(shown) && shown.resource_id
                == id;
            let marked = (resource_id != 0 && id == resource_id) || before.enabled(scanout_id)
                != shown;
            &&& plain.enabled(scanout_id) == marked
            &&& blob.enabled(scanout_id) == marked
            &&& other != scanout_id ==> plain.enabled(other) == before.enabled(other)
            &&& other != scanout_id ==> blob.enabled(other) == before.enabled(other)
        }),
{
    let before = state.resources[id].scanouts;
    lemma_with_flipped(before, scanout_id);
    lemma_with_enabled(before, scanout_id);
    lemma_with_enabled(before.with_flipped(scanout_id), scanout_id);
}

/// Once the display has configured a scanout, it shows the resource that the
/// display was asked to show, and nothing else of the device changes; once the
/// display has turned one off, nothing changes any more.
pub proof fn law_display_is_followed(state: GpuState, step: ScanoutStep, other: u32)
    requires
        state.wf(),
    ensures
        ({
            let after = state.shown_after(step);
            &&& step is Disable ==> after == state
            &&& after.resources == state.resources
            &&& after.native_2d == state.native_2d
            &&& after.displays == state.displays
            &&& after.renderer == state.renderer
            &&& after.mem == state.mem
            &&& step matches ScanoutStep::Configure { scanout_id, resource_id, .. } ==> {
                &&& scanout_id < 16 ==> (after.scanouts[scanout_id as int] matches Some(shown)
                    && shown.resource_id == resource_id)
                &&& scanout_id < 16 && other < 16 && other != scanout_id
                    ==> after.scanouts[other as int] == state.scanouts[other as int]
            }
        }),
{
}

/// A new device has sixteen scanouts that show nothing, no resources and no
/// buffers, and the renderer, the screens and the memory that it is given.
pub proof fn law_new_device_is_empty(
    renderer: Rutabaga,
    displays: Seq<Display>,
    mem: GuestMemoryMmap,
    id: u32,
    scanout_id: int,
)
    ensures
        ({
            let state = new_state(renderer, displays, mem);
            &&& !state.resources.contains_key(id)
            &&& !state.native_2d.contains_key(id)
            &&& state.scanouts.len() == 16
            &&& 0 <= scanout_id < 16 ==> state.scanouts[scanout_id] is None
            &&& state.displays == displays
            &&& state.renderer == renderer
            &&& state.mem == mem
        }),
{
}

/// A record, a buffer, the renderer, and where a blob is mapped, are changed one at
/// a time: everything else stays.
pub proof fn law_changes_are_local(
    state: GpuState,
    id: u32,
    record: VirtioGpuResource,
    buffer: Native2d,
    renderer: Rutabaga,
    offset: Option<u64>,
)
    ensures
        state.with_record(id, record).resources == state.resources.insert(id, record),
        state.with_record(id, record).native_2d == state.native_2d,
        state.with_record(id, record).scanouts == state.scanouts,
        state.with_record(id, record).displays == state.displays,
        state.with_record(id, record).renderer == state.renderer,
        state.with_record(id, record).mem == state.mem,
        state.with_buffer(id, buffer).native_2d == state.native_2d.insert(id, buffer),
        state.with_buffer(id, buffer).resources == state.resources,
        state.with_buffer(id, buffer).scanouts == state.scanouts,
        state.with_buffer(id, buffer).displays == state.displays,
        state.with_buffer(id, buffer).renderer == state.renderer,
        state.with_buffer(id, buffer).mem == state.mem,
        state.without_record(id).resources == state.resources.remove(id),
        state.without_record(id).native_2d == state.native_2d,
        state.without_record(id).scanouts == state.scanouts,
        state.without_record(id).displays == state.displays,
        state.without_record(id).renderer == state.renderer,
        state.without_record(id).mem == state.mem,
        state.with_renderer(renderer).resources == state.resources,
        state.with_renderer(renderer).native_2d == state.native_2d,
        state.with_renderer(renderer).scanouts == state.scanouts,
        state.with_renderer(renderer).displays == state.displays,
        state.with_renderer(renderer).renderer == renderer,
        state.with_renderer(renderer).mem == state.mem,
        ({
            let moved = state.with_shmem_offset(id, offset);
            &&& moved.resources[id].shmem_offset == offset
            &&& moved.resources[id] == (VirtioGpuResource {
                shmem_offset: offset,
                ..state.resources[id]
            })
            &&& moved.resources.remove(id) == state.resources.remove(id)
            &&& moved.native_2d == state.native_2d
            &&& moved.scanouts == state.scanouts
            &&& moved.displays == state.displays
            &&& moved.renderer == state.renderer
            &&& moved.mem == state.mem
        }),
{
    assert(state.with_shmem_offset(id, offset).resources.remove(id) =~= state.resources.remove(id));
}

/// A call on the renderer changes nothing of the device itself: records, buffers,
/// scanouts, screens and memory are as before, the renderer holds the same
/// resources and contexts, and the call is the one that was made last.
pub proof fn law_calls_leave_the_device(state: GpuState, after: GpuState, call: RendererCall)
    requires
        state.called(after, call),
    ensures
        after.resources == state.resources,
        after.native_2d == state.native_2d,
        after.scanouts == state.scanouts,
        after.displays == state.displays,
        after.mem == state.mem,
        renderer_resources(after.renderer) == renderer_resources(state.renderer),
        renderer_contexts(after.renderer) == renderer_contexts(state.renderer),
        renderer_calls(after.renderer).last() == call,
        renderer_calls(after.renderer).drop_last() == renderer_calls(state.renderer),
{
    lemma_last(state.renderer, after.renderer);
}

/// A resource that the renderer has created has its record, beside those that were
/// there; the renderer holds it beside those that it held; and the guest is told
/// its planes, where it has any.
pub proof fn law_created_resource_is_there(
    state: GpuState,
    after: GpuState,
    id: u32,
    record: VirtioGpuResource,
    response: GpuResponse,
    other: u32,
)
    requires
        state.created(after, id, record, response),
    ensures
        after.resources.contains_key(id),
        after.resources[id] == record,
        other != id ==> (after.resources.contains_key(other) <==> state.resources.contains_key(
            other,
        )),
        other != id && state.resources.contains_key(other) ==> after.resources[other]
            == state.resources[other],
        after.native_2d == state.native_2d,
        after.scanouts == state.scanouts,
        after.displays == state.displays,
        after.mem == state.mem,
        renderer_resources(after.renderer).contains_key(id),
        !renderer_resources(state.renderer).contains_key(id),
        other != id ==> (renderer_resources(after.renderer).contains_key(other)
            <==> renderer_resources(state.renderer).contains_key(other)),
        match renderer_resources(after.renderer)[id].info_3d {
            Some(info) => response matches GpuResponse::OkResourcePlaneInfo {
                format_modifier,
                plane_info,
            } && {
                &&& format_modifier == info.modifier
                &&& plane_info@.len() == 4
                &&& forall|i: int|
                    0 <= i < 4 ==> (#[trigger] plane_info@[i]).stride == info.strides@[i]
                        && plane_info@[i].offset == info.offsets@[i]
            },
            None => response == GpuResponse::OkNoData,
        },
{
    if other != id {
        assert(renderer_resources(after.renderer).remove(id).contains_key(other)
            <==> renderer_resources(after.renderer).contains_key(other));
    }
}

/// What the renderer refuses is answered with its error, and what it does not
/// refuse with success.
pub proof fn law_refusal_is_the_answer(result: VirtioGpuResult)
    requires
        done_by_renderer(result),
    ensures
        match refused_with(result) {
            Some(e) => result == Err::<GpuResponse, GpuResponse>(GpuResponse::ErrRutabaga(e)),
            None => result == Ok::<GpuResponse, GpuResponse>(GpuResponse::OkNoData),
        },
{
}

/// A resource is dropped by one call, and one that goes with a mapping is unmapped
/// by a call before. Where it is not dropped, the last call is the one that was
/// refused.
pub proof fn law_dropped_by_the_renderer(
    before: Rutabaga,
    after: Rutabaga,
    resource_id: u32,
    mapped: bool,
    result: VirtioGpuResult,
)
    requires
        unref_called(before, after, resource_id, mapped, result),
    ensures
        ({
            let calls = renderer_calls(after);
            let earlier = renderer_calls(before).len() as int;
            &&& calls.len() == earlier + 1 || mapped && calls.len() == earlier + 2
            &&& calls.take(earlier) == renderer_calls(before)
            &&& result is Ok ==> {
                &&& calls.last() == (RendererCall::UnrefResource { resource_id, refusal: None })
                &&& mapped ==> calls[earlier] == (RendererCall::UnmapBlob {
                    resource_id,
                    refusal: None,
                })
            }
            &&& !mapped ==> calls.len() == earlier + 1
            &&& result is Err ==> {
                ||| calls.last() == (RendererCall::UnrefResource {
                    resource_id,
                    refusal: refused_with(result),
                })
                ||| mapped && calls.last() == (RendererCall::UnmapBlob {
                    resource_id,
                    refusal: refused_with(result),
                })
            }
            &&& renderer_contexts(after) == renderer_contexts(before)
        }),
{
    let earlier = renderer_calls(before).len() as int;
    assert(renderer_calls(after).take(earlier) =~= renderer_calls(before));
}

/// The pixels of a blob are where the renderer maps it, all that is mapped, or
/// else at the given address, all of the blob. An address or a size of zero is
/// none.
pub proof fn law_blob_is_seen_where_it_is(
    mapping: RutabagaMapping,
    map_ptr: u64,
    other: Option<u64>,
    size: u64,
)
    ensures
        mapping.ptr != 0 && mapping.size != 0 ==> blob_source_spec(Some(mapping), other, size)
            == Some((mapping.ptr, mapping.size)),
        mapping.ptr == 0 || mapping.size == 0 ==> blob_source_spec(Some(mapping), other, size)
            is None,
        map_ptr != 0 && size != 0 ==> blob_source_spec(None, Some(map_ptr), size) == Some(
            (map_ptr, size),
        ),
        map_ptr == 0 || size == 0 ==> blob_source_spec(None, Some(map_ptr), size) is None,
        blob_source_spec(None, None, size) is None,
{
}

/// The rows of a blob are copied from where the host sees it, with the geometry
/// that the blob was last shown with; a blob that the host cannot see is not
/// shown.
pub proof fn law_blob_is_copied_with_its_geometry(ptr: u64, size: u64, record: VirtioGpuResource)
    ensures
        blob_step(Some((ptr, size)), record) matches FrameStep::CopyBlob {
            ptr: from,
            size: bytes,
            width,
            height,
            stride,
        } && {
            &&& from == ptr
            &&& bytes == size
            &&& width == record.width
            &&& height == record.height
            &&& stride == record.scanout_stride
        },
        blob_step(None, record) == FrameStep::NotMapped,
{
}

/// A resource of the renderer is read as a whole, from its first pixel on, in rows
/// without padding.
pub proof fn law_whole_resource_is_read(width: u32, height: u32)
    requires
        4 * width <= u32::MAX,
    ensures
        ({
            let transfer = whole_resource(width, height);
            &&& transfer.x == 0 && transfer.y == 0 && transfer.z == 0
            &&& transfer.w == width && transfer.h == height && transfer.d == 1
            &&& transfer.level == 0
            &&& transfer.stride == 4 * width
            &&& transfer.layer_stride == 0
            &&& transfer.offset == 0
        }),
{
}

/// A flush can always compute the rows of buffers and blobs, and those of another
/// resource where a row has fewer than 2^32 bytes.
pub proof fn law_rows_can_be_computed(state: GpuState, resource_id: u32)
    requires
        state.resources.contains_key(resource_id),
    ensures
        state.frame_stride_fits(resource_id) <==> state.resources[resource_id].native_2d
            || state.resources[resource_id].blob || state.resources[resource_id].width
            < 0x4000_0000,
{
}

/// A uuid is the id of its resource, most significant byte first, behind zeros.
pub proof fn law_uuid_is_the_id(id: u32, i: int)
    ensures
        uuid_of(id).len() == 16,
        0 <= i < 12 ==> uuid_of(id)[i] == 0,
        id == 0x100_0000 * uuid_of(id)[12] + 0x1_0000 * uuid_of(id)[13] + 0x100 * uuid_of(id)[14]
            + uuid_of(id)[15],
{
    lemma_uuid_bytes(id);
}

/// RESOURCE_MAP_BLOB maps every blob that can be mapped: one that the renderer can
/// map and export as anything but an opaque handle goes, whole and with the
/// protection of its access mode, to `offset` of the host's view of the window.
/// The device changes only in that the blob was exported.
pub proof fn law_blob_is_mapped_by_descriptor(
    state: GpuState,
    after: GpuState,
    resource_id: u32,
    region: VirtioShmRegion,
    offset: u64,
    result: Result<MapRequest, GpuResponse>,
    info: u32,
    exported: u32,
)
    requires
        state.map_blob(after, resource_id, region, offset, BlobMapping::Descriptor, result),
        state.resources.contains_key(resource_id),
        renderer_resources(state.renderer).contains_key(resource_id),
        renderer_resources(state.renderer)[resource_id].map_info == Some(info),
        renderer_calls(after.renderer).last() == (RendererCall::ExportBlob {
            resource_id,
            handle_type: Some(exported),
        }),
        exported != 1,
        info & 0x30 != 0,
        info & 0xc0 == 0,
        offset + state.resources[resource_id].size <= u64::MAX,
        region.host_addr + offset <= u64::MAX,
    ensures
        result matches Ok(request) && {
            &&& request.resource_id == resource_id
            &&& request.offset == offset
            &&& request.map_info == info
            &&& request.export matches Some(export) && export.handle_type == exported
            &&& request.plan matches MapPlan::MapHandle { addr, size, prot } && {
                &&& addr == region.host_addr + offset
                &&& size == state.resources[resource_id].size
                &&& 1 <= prot <= 3
                &&& (prot == 1 || prot == 3) == (info & 0x10 != 0)
                &&& (prot == 2 || prot == 3) == (info & 0x20 != 0)
            }
        },
        after.resources == state.resources,
        after.scanouts == state.scanouts,
        renderer_calls(after.renderer).drop_last() == renderer_calls(state.renderer),
{
    law_descriptor_is_mapped(
        state.resources[resource_id].size,
        info,
        exported,
        region,
        offset,
    );
    lemma_last(state.renderer, after.renderer);
}

/// RESOURCE_MAP_BLOB by way of the renderer maps every blob that fits into the
/// window: by its handle where that is a plain descriptor, and by the renderer
/// where it is another.
pub proof fn law_blob_is_mapped_by_renderer(
    state: GpuState,
    after: GpuState,
    resource_id: u32,
    region: VirtioShmRegion,
    offset: u64,
    result: Result<MapRequest, GpuResponse>,
    info: u32,
    exported: u32,
)
    requires
        state.map_blob(after, resource_id, region, offset, BlobMapping::Renderer, result),
        state.resources.contains_key(resource_id),
        renderer_resources(state.renderer).contains_key(resource_id),
        renderer_resources(state.renderer)[resource_id].map_info == Some(info),
        renderer_calls(after.renderer).last() == (RendererCall::ExportBlob {
            resource_id,
            handle_type: Some(exported),
        }),
        info & 0x30 != 0,
        info & 0xc0 == 0,
        offset + state.resources[resource_id].size <= region.size,
        region.host_addr + offset <= u64::MAX,
    ensures
        result matches Ok(request) && {
            &&& request.resource_id == resource_id
            &&& request.offset == offset
            &&& request.map_info == info
            &&& request.export matches Some(export) && export.handle_type == exported
            &&& match request.plan {
                MapPlan::MapHandle { addr, size, prot } => {
                    &&& exported == 2 || exported == 4
                    &&& addr == region.host_addr + offset
                    &&& size == state.resources[resource_id].size
                    &&& 1 <= prot <= 3
                    &&& (prot == 1 || prot == 3) == (info & 0x10 != 0)
                    &&& (prot == 2 || prot == 3) == (info & 0x20 != 0)
                },
                MapPlan::MapByRenderer { addr, size, prot } => {
                    &&& exported != 2 && exported != 4
                    &&& addr == region.host_addr + offset
                    &&& size == state.resources[resource_id].size
                    &&& 1 <= prot <= 3
                    &&& (prot == 1 || prot == 3) == (info & 0x10 != 0)
                    &&& (prot == 2 || prot == 3) == (info & 0x20 != 0)
                },
                _ => false,
            }
        },
        after.resources == state.resources,
        renderer_calls(after.renderer).drop_last() == renderer_calls(state.renderer),
{
    law_renderer_is_asked(state.resources[resource_id].size, info, exported, region, offset);
    lemma_last(state.renderer, after.renderer);
}

/// RESOURCE_MAP_BLOB by way of the hypervisor maps every blob that fits into the
/// window, has a host address, and exports as the hypervisor wants it: the guest
/// sees it, whole, at `offset` of its view of the window.
pub proof fn law_blob_is_mapped_by_hypervisor(
    state: GpuState,
    after: GpuState,
    resource_id: u32,
    region: VirtioShmRegion,
    offset: u64,
    map_ptr: u64,
    handle_type: u32,
    result: Result<MapRequest, GpuResponse>,
    info: u32,
)
    requires
        state.map_blob(
            after,
            resource_id,
            region,
            offset,
            BlobMapping::Hypervisor { map_ptr: Some(map_ptr), handle_type },
            result,
        ),
        state.resources.contains_key(resource_id),
        renderer_resources(state.renderer).contains_key(resource_id),
        renderer_resources(state.renderer)[resource_id].map_info == Some(info),
        renderer_calls(after.renderer).last() == (RendererCall::ExportBlob {
            resource_id,
            handle_type: Some(handle_type),
        }),
        offset + state.resources[resource_id].size <= region.size,
        region.guest_addr + offset <= u64::MAX,
    ensures
        result matches Ok(request) && {
            &&& request.resource_id == resource_id
            &&& request.offset == offset
            &&& request.map_info == info
            &&& request.plan matches MapPlan::MapByHypervisor {
                map_ptr: ptr,
                guest_addr,
                size,
            } && {
                &&& ptr == map_ptr
                &&& guest_addr == region.guest_addr + offset
                &&& size == state.resources[resource_id].size
            }
        },
        after.resources == state.resources,
        renderer_calls(after.renderer).drop_last() == renderer_calls(state.renderer),
{
    law_hypervisor_is_asked(
        state.resources[resource_id].size,
        map_ptr,
        handle_type,
        Some(handle_type),
        region,
        offset,
    );
    lemma_last(state.renderer, after.renderer);
}

/// RESOURCE_MAP_BLOB refuses a resource that there is not, and one that the
/// renderer cannot map, however blobs are mapped, and without changing anything.
/// Where the blob is refused once it was exported, the guest gets the same answer.
pub proof fn law_blob_is_not_mapped(
    state: GpuState,
    after: GpuState,
    resource_id: u32,
    region: VirtioShmRegion,
    offset: u64,
    mapping: BlobMapping,
    result: Result<MapRequest, GpuResponse>,
)
    requires
        state.map_blob(after, resource_id, region, offset, mapping, result),
    ensures
        !state.resources.contains_key(resource_id) ==> {
            &&& result == Err::<MapRequest, GpuResponse>(GpuResponse::ErrInvalidResourceId)
            &&& after == state
        },
        state.resources.contains_key(resource_id) && (!renderer_resources(
            state.renderer,
        ).contains_key(resource_id) || renderer_resources(state.renderer)[resource_id].map_info
            is None) ==> {
            &&& result == Err::<MapRequest, GpuResponse>(GpuResponse::ErrUnspec)
            &&& after == state
        },
        state.resources.contains_key(resource_id) && result is Err ==> result == Err::<
            MapRequest,
            GpuResponse,
        >(GpuResponse::ErrUnspec),
        mapping == BlobMapping::Descriptor && (result matches Ok(request) && !(
        request.plan is Impossible)) ==> (renderer_calls(
            after.renderer,
        ).last() matches RendererCall::ExportBlob { handle_type: Some(exported), .. } && exported
            != 1),
        after.resources == state.resources,
        after.native_2d == state.native_2d,
        after.scanouts == state.scanouts,
        after.displays == state.displays,
        after.mem == state.mem,
{
}

/// How many bytes of a backing lie before its segment `i`.
pub open spec fn bytes_before(backing: Seq<(u64, usize)>, i: int) -> int {
    backing.take(i).fold_left(0int, |sum: int, segment: (u64, usize)| sum + segment.1)
}

/// Segments start where those before them end.
proof fn lemma_bytes_before(backing: Seq<(u64, usize)>, i: int)
    requires
        0 <= i <= backing.len(),
    ensures
        backing_start(backing, i) == bytes_before(backing, i),
    decreases i,
{
    reveal(Seq::fold_left);
    if i > 0 {
        lemma_bytes_before(backing, i - 1);
        assert(backing.take(i).drop_last() =~= backing.take(i - 1));
        assert(backing.take(i).last() == backing[i - 1]);
    }
}

/// The segments of a backing are read end to end: byte `d` of segment `i` lies
/// behind all bytes of the segments before it, and is read at its own address.
pub proof fn law_backing_is_read_end_to_end(
    mem: GuestMemoryMmap,
    backing: Seq<(u64, usize)>,
    offset: u64,
    bytes: Seq<u8>,
    i: int,
    d: int,
)
    requires
        backing_seen(mem, backing, offset as int, bytes),
        0 <= i < backing.len(),
        0 <= d < backing[i].1,
        offset <= bytes_before(backing, i) + d < offset + bytes.len(),
    ensures
        guest_byte_seen(
            mem,
            backing[i].0 + d,
            bytes[bytes_before(backing, i) + d - offset],
        ),
{
    lemma_bytes_before(backing, i);
    assert(backing_address(backing, i, backing_start(backing, i) + d) == backing[i].0 + d);
}

/// Whether byte `d` of segment `i` lies in one of `regions`.
pub open spec fn segment_byte_exists(
    regions: Seq<(u64, u64)>,
    backing: Seq<(u64, usize)>,
    i: int,
    d: int,
) -> bool {
    exists|r: int|
        0 <= r < regions.len() && (#[trigger] regions[r]).0 <= backing[i].0 + d < regions[r].0
            + regions[r].1
}

/// A backing can be read exactly where there is one, it is long enough, and guest
/// memory holds every byte of it that is wanted. Segments without bytes are left
/// out here.
pub proof fn law_backing_is_readable(
    regions: Seq<(u64, u64)>,
    backing: Seq<(u64, usize)>,
    offset: u64,
    len: int,
)
    requires
        0 <= len,
        forall|i: int| 0 <= i < backing.len() ==> (#[trigger] backing[i]).1 > 0,
    ensures
        backing_readable(regions, backing, offset as int, len) <==> {
            &&& backing.len() > 0
            &&& len == 0 || offset + len <= bytes_before(backing, backing.len() as int)
            &&& forall|i: int, d: int|
                0 <= i < backing.len() && 0 <= d < backing[i].1 && offset <= bytes_before(
                    backing,
                    i,
                ) + d < offset + len ==> #[trigger] segment_byte_exists(regions, backing, i, d)
        },
{
    let first = offset as int;
    lemma_bytes_before(backing, backing.len() as int);
    assert forall|i: int| 0 <= i < backing.len() implies #[trigger] backing_start(backing, i)
        == bytes_before(backing, i) by {
        lemma_bytes_before(backing, i);
    }
    if backing_readable(regions, backing, first, len) {
        assert forall|i: int, d: int|
            0 <= i < backing.len() && 0 <= d < backing[i].1 && offset <= bytes_before(backing, i)
                + d < offset + len implies #[trigger] segment_byte_exists(
            regions,
            backing,
            i,
            d,
        ) by {
            assert(backing_start(backing, i) == bytes_before(backing, i));
            assert(backing_touched(backing, first, len, i));
            lemma_reads_piece(regions, backing, first, len, i);
            assert(guest_mapped(
                regions,
                backing_address(backing, i, backing_start(backing, i) + d),
            ));
        }
    }
    if backing.len() > 0 && (len == 0 || offset + len <= bytes_before(
        backing,
        backing.len() as int,
    )) && forall|i: int, d: int|
        0 <= i < backing.len() && 0 <= d < backing[i].1 && offset <= bytes_before(backing, i) + d
            < offset + len ==> #[trigger] segment_byte_exists(regions, backing, i, d) {
        assert forall|i: int|
            0 <= i < backing.len() && #[trigger] backing_touched(
                backing,
                first,
                len,
                i,
            ) implies reads_piece(regions, backing, first, len, i) by {
            assert(backing_start(backing, i) == bytes_before(backing, i));
            assert forall|pos: int|
                backing_start(backing, i) <= pos < backing_end(backing, i) && first <= pos < first
                    + len implies #[trigger] guest_mapped(
                regions,
                backing_address(backing, i, pos),
            ) by {
                assert(segment_byte_exists(regions, backing, i, pos - backing_start(backing, i)));
            }
            lemma_reads_piece(regions, backing, first, len, i);
        }
    }
}

/// TRANSFER_TO_HOST_2D copies guest memory: the byte in row `row` and column
/// `column` of the rectangle, which lies as far behind the offset in the guest's
/// buffer as behind the first byte of the rectangle in the host's, was read at the
/// address at which the guest's buffer holds it.
pub proof fn law_transfer_copies_guest_memory(
    mem: GuestMemoryMmap,
    before: Native2d,
    after: Native2d,
    region: Seq<u8>,
    offset: u64,
    x: u32,
    y: u32,
    w: u32,
    h: u32,
    row: int,
    column: int,
    i: int,
    d: int,
)
    requires
        before.wf(),
        backing_seen(mem, before.backing, offset as int, region),
        transferred(before, after, region, x, y, w, h),
        0 <= row < h,
        0 <= column < 4 * w,
        y + row < before.height,
        4 * x + column < 4 * before.width,
        0 <= i < before.backing.len(),
        0 <= d < before.backing[i].1,
        bytes_before(before.backing, i) + d == offset + row * (4 * before.width) + column,
    ensures
        guest_byte_seen(
            mem,
            before.backing[i].0 + d,
            after.shadow[(y + row) * (4 * before.width) + (4 * x + column)],
        ),
        after.width == before.width,
        after.height == before.height,
        after.backing == before.backing,
        after.shadow.len() == before.shadow.len(),
{
    law_rectangle_is_tight(before.width, x, w, h, row, column);
    law_rectangle_lands(
        before.shadow,
        region,
        before.width,
        before.height,
        x,
        y,
        w,
        h,
        row,
        column,
    );
    assert(0 <= row * (4 * before.width)) by (nonlinear_arith)
        requires
            0 <= row,
    ;
    law_backing_is_read_end_to_end(mem, before.backing, offset, region, i, d);
}

/// A transfer leaves every byte outside its rectangle as it was.
pub proof fn law_transfer_leaves_the_rest(
    before: Native2d,
    after: Native2d,
    region: Seq<u8>,
    x: u32,
    y: u32,
    w: u32,
    h: u32,
    row: int,
    column: int,
)
    requires
        transferred(before, after, region, x, y, w, h),
        0 <= row,
        0 <= column < 4 * before.width,
        row * (4 * before.width) + column < before.shadow.len(),
        row < y || y + h <= row || column < 4 * x || 4 * x + 4 * w <= column,
    ensures
        after.shadow[row * (4 * before.width) + column] == before.shadow[row * (4 * before.width)
            + column],
{
    law_rectangle_leaves_the_rest(before.shadow, region, before.width, x, y, w, h, row, column);
}

/// A transfer reads no more of the guest's buffer than it has to: it can be made
/// wherever its rectangle fits into memory and no segment ends beyond the last
/// address.
pub proof fn law_transfer_fits(buffer: Native2d, x: u32, w: u32, h: u32, offset: u64)
    requires
        h * (4 * buffer.width) <= isize::MAX,
        forall|i: int|
            0 <= i < buffer.backing.len() ==> (#[trigger] buffer.backing[i]).0 + buffer.backing[i].1
                <= u64::MAX,
    ensures
        transfer_fits(buffer, x, w, h, offset),
{
    lemma_rect_len(buffer.width, x, w, h);
}

/// How many bytes a transfer reads: those from the first byte of its rectangle to
/// the last, where it has any.
pub proof fn law_transfer_reads_its_rectangle(
    buffer: Native2d,
    x: u32,
    w: u32,
    h: u32,
    row: int,
    column: int,
)
    requires
        0 <= row < h,
        0 <= column < 4 * w,
        4 * x + column < 4 * buffer.width,
    ensures
        row * (4 * buffer.width) + column < transfer_len(buffer, x, w, h),
        row + 1 == h && (column + 1 == 4 * w || 4 * x + column + 1 == 4 * buffer.width) ==> row * (4
            * buffer.width) + column + 1 == transfer_len(buffer, x, w, h),
{
    law_rectangle_is_tight(buffer.width, x, w, h, row, column);
}

/// Guest ranges are handed to the renderer where each of them lies in one region
/// of guest memory, each as an iovec of its own and in order.
pub proof fn law_ranges_become_iovecs(
    mem: GuestMemoryMmap,
    regions: Seq<(u64, u64)>,
    ranges: Seq<(u64, usize)>,
    iovecs: Seq<RutabagaIovec>,
    i: int,
)
    requires
        0 <= i < ranges.len(),
    ensures
        iovecs_of(mem, iovecs, ranges) ==> {
            &&& iovecs.len() == ranges.len()
            &&& iovec_of(mem, iovecs[i], ranges[i].0, ranges[i].1)
        },
        sglist_mapped(regions, ranges) ==> exists|r: int|
            0 <= r < regions.len() && (#[trigger] regions[r]).0 <= ranges[i].0 < regions[r].0
                + regions[r].1 && ranges[i].0 + ranges[i].1 <= regions[r].0 + regions[r].1,
{
    if sglist_mapped(regions, ranges) {
        assert(guest_contiguous(regions, ranges[i].0 as int, ranges[i].1 as int));
    }
}

/// Ranges that each lie in one region of guest memory are not refused.
pub proof fn law_mapped_ranges_are_taken(regions: Seq<(u64, u64)>, ranges: Seq<(u64, usize)>)
    requires
        forall|i: int|
            0 <= i < ranges.len() ==> exists|r: int|
                0 <= r < regions.len() && (#[trigger] regions[r]).0 <= (
                #[trigger] ranges[i]).0 < regions[r].0 + regions[r].1 && ranges[i].0 + ranges[i].1
                    <= regions[r].0 + regions[r].1,
    ensures
        sglist_mapped(regions, ranges),
{
}

/// What a scanout shows, and whether that was dropped, is read off the scanouts and
/// the records; and SET_SCANOUT_BLOB gets as far as to give a resource a geometry
/// exactly where the scanout exists, the resource exists, and there is a format.
pub proof fn law_scanouts_are_read(
    state: GpuState,
    scanout_id: u32,
    resource_id: u32,
    format: Option<ResourceFormat>,
)
    ensures
        match state.scanouts[scanout_id as int] {
            Some(shown) => {
                &&& state.shown(scanout_id) == Some(shown.resource_id)
                &&& state.shows_lost(scanout_id) == !state.resources.contains_key(
                    shown.resource_id,
                )
            },
            None => {
                &&& state.shown(scanout_id) is None
                &&& !state.shows_lost(scanout_id)
            },
        },
        state.stamps(scanout_id, resource_id, format) <==> scanout_id < 16 && resource_id != 0
            && state.resources.contains_key(resource_id) && format is Some,
{
}

} // verus!
