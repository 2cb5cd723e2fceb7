//! The state of the device as a value, and how commands change it.

use crate::blob::{
    descriptor_plan, hypervisor_plan, renderer_plan, renderer_target, BlobMapping, MapPlan,
    MapRequest,
};
use crate::guest_memory::backing_addressable;
use crate::pixels::{rect_len, scattered};
use crate::protocol::{
    GpuResponse, GpuResponsePlaneInfo, VirtioGpuResult, VirtioShmRegion, VIRTIO_GPU_MAX_SCANOUTS,
};
use crate::renderer::{
    renderer_called, renderer_calls, renderer_created, renderer_resources, same_build,
    same_contexts, ExportedBlob, FlushReply, RendererCall, Resource3DInfo, RutabagaMapping,
    Transfer3D,
};
use crate::resource::{Display, Native2d, ResourceFormat, VirtioGpuResource};
use crate::scanout::VirtioGpuScanout;
use rutabaga_gfx::{Rutabaga, RutabagaError, RutabagaIovec};
use vm_memory::GuestMemoryMmap;
use vstd::prelude::*;

verus! {

/// What the device knows: the record of each resource, the plain 2D buffers,
/// what each scanout shows, the screens, the renderer and guest memory.
#[verifier::ext_equal]
pub struct GpuState {
    pub resources: Map<u32, VirtioGpuResource>,
    pub native_2d: Map<u32, Native2d>,
    pub scanouts: Seq<Option<VirtioGpuScanout>>,
    pub displays: Seq<Display>,
    pub renderer: Rutabaga,
    pub mem: GuestMemoryMmap,
}

/// A device without resources that shows nothing.
pub open spec fn new_state(
    renderer: Rutabaga,
    displays: Seq<Display>,
    mem: GuestMemoryMmap,
) -> GpuState {
    GpuState {
        resources: Map::empty(),
        native_2d: Map::empty(),
        scanouts: Seq::new(VIRTIO_GPU_MAX_SCANOUTS as nat, |i: int| None::<VirtioGpuScanout>),
        displays,
        renderer,
        mem,
    }
}

/// What the display has to do for a scanout.
#[derive(Clone, Copy, Debug, PartialEq, Eq, Structural)]
pub enum ScanoutStep {
    /// Turn the scanout off.
    Disable { scanout_id: u32 },
    /// Show `width` by `height` pixels of a resource on a screen.
    Configure {
        scanout_id: u32,
        resource_id: u32,
        display_width: u32,
        display_height: u32,
        width: u32,
        height: u32,
        format: ResourceFormat,
    },
}

/// How far a frame has been read.
#[derive(Clone, Copy, Debug, PartialEq, Eq, Structural)]
pub enum FrameStep {
    /// The frame holds the pixels of the resource.
    Filled,
    /// The pixels are the `size` bytes at host address `ptr`: `height` rows,
    /// `stride` bytes apart, of `width` pixels each.
    CopyBlob { ptr: u64, size: u64, width: u32, height: u32, stride: u32 },
    /// The host cannot see the pixels.
    NotMapped,
    /// The renderer refused to hand the pixels out.
    NotRead,
}

/// The transfer that reads all pixels of a resource, tightly packed.
pub open spec fn whole_resource(width: u32, height: u32) -> Transfer3D {
    Transfer3D {
        x: 0,
        y: 0,
        z: 0,
        w: width,
        h: height,
        d: 1,
        level: 0,
        stride: (4 * width) as u32,
        layer_stride: 0,
        offset: 0,
    }
}

/// What the last call on the renderer, `Rutabaga::map`, has given.
pub open spec fn last_mapping(renderer: Rutabaga) -> Option<RutabagaMapping> {
    match renderer_calls(renderer).last() {
        RendererCall::MapBlob { mapping, .. } => mapping,
        _ => None,
    }
}

/// The type of the handle that the last call on the renderer,
/// `Rutabaga::export_blob`, has given.
pub open spec fn last_export(renderer: Rutabaga) -> Option<u32> {
    match renderer_calls(renderer).last() {
        RendererCall::ExportBlob { handle_type, .. } => handle_type,
        _ => None,
    }
}

/// The list that the last call on the renderer has given to a resource.
pub open spec fn last_iovecs(renderer: Rutabaga) -> Seq<RutabagaIovec> {
    match renderer_calls(renderer).last() {
        RendererCall::AttachBacking { iovecs, .. } => iovecs,
        RendererCall::ResourceCreateBlob { backing: Some(iovecs), .. } => iovecs,
        _ => Seq::empty(),
    }
}

/// What the renderer knows about mapping resource `resource_id`.
pub open spec fn map_info_of(renderer: Rutabaga, resource_id: u32) -> Option<u32> {
    if renderer_resources(renderer).contains_key(resource_id) {
        renderer_resources(renderer)[resource_id].map_info
    } else {
        None
    }
}

/// The type of an exported blob.
pub open spec fn export_type(export: Option<ExportedBlob>) -> Option<u32> {
    match export {
        Some(export) => Some(export.handle_type),
        None => None,
    }
}

/// `result` asks for `plan` to be carried out, or refuses where there is none.
pub open spec fn map_answer(
    result: Result<MapRequest, GpuResponse>,
    plan: Option<MapPlan>,
    resource_id: u32,
    offset: u64,
    map_info: u32,
    exported: Option<u32>,
) -> bool {
    match plan {
        Some(plan) => {
            &&& result matches Ok(request)
            &&& request.resource_id == resource_id
            &&& request.offset == offset
            &&& request.map_info == map_info
            &&& request.plan == plan
            &&& export_type(request.export) == exported
        },
        None => result == Err::<MapRequest, GpuResponse>(GpuResponse::ErrUnspec),
    }
}

/// The error of the renderer that `result` hands on.
pub open spec fn refused_with(result: VirtioGpuResult) -> Option<RutabagaError> {
    match result {
        Ok(_) => None,
        Err(response) => Some(response->ErrRutabaga_0),
    }
}

/// The error with which the last call on the renderer,
/// `Rutabaga::transfer_read`, was refused.
pub open spec fn last_read_refusal(renderer: Rutabaga) -> Option<RutabagaError> {
    match renderer_calls(renderer).last() {
        RendererCall::TransferRead { refusal, .. } => refusal,
        _ => None,
    }
}

/// What the last call on the renderer, `Rutabaga::resource_flush`, has given.
pub open spec fn last_flush(renderer: Rutabaga) -> FlushReply {
    match renderer_calls(renderer).last() {
        RendererCall::ResourceFlush { outcome, .. } => outcome,
        _ => FlushReply::Flushed,
    }
}

/// Done, or refused by the renderer.
pub open spec fn done_by_renderer(result: VirtioGpuResult) -> bool {
    match result {
        Ok(response) => response == GpuResponse::OkNoData,
        Err(response) => response is ErrRutabaga,
    }
}

/// The calls that drop a resource: it is unmapped first where the renderer
/// holds a mapping that goes with it, and dropped if that worked.
pub open spec fn unref_called(
    before: Rutabaga,
    after: Rutabaga,
    resource_id: u32,
    mapped: bool,
    result: VirtioGpuResult,
) -> bool {
    let calls = renderer_calls(before);
    let refusal = refused_with(result);
    let unref = RendererCall::UnrefResource { resource_id, refusal };
    &&& same_build(before, after)
    &&& same_contexts(before, after)
    &&& if !mapped {
        renderer_calls(after) == calls.push(unref)
    } else {
        ||| refusal is Some && renderer_calls(after) == calls.push(
            RendererCall::UnmapBlob { resource_id, refusal },
        )
        ||| renderer_calls(after) == calls.push(
            RendererCall::UnmapBlob { resource_id, refusal: None },
        ).push(unref)
    }
}

/// How a flush goes on with a blob that the host sees at `source`.
pub open spec fn blob_step(source: Option<(u64, u64)>, record: VirtioGpuResource) -> FrameStep {
    match source {
        Some((ptr, size)) => FrameStep::CopyBlob {
            ptr,
            size,
            width: record.width,
            height: record.height,
            stride: record.scanout_stride,
        },
        None => FrameStep::NotMapped,
    }
}

/// Where the host sees a blob of `size` bytes: where the renderer maps it, or
/// else at `map_ptr`. An empty mapping and one at address zero are none.
pub open spec fn blob_source_spec(
    mapping: Option<RutabagaMapping>,
    map_ptr: Option<u64>,
    size: u64,
) -> Option<(u64, u64)> {
    let source = match mapping {
        Some(mapping) => Some((mapping.ptr, mapping.size)),
        None => match map_ptr {
            Some(ptr) => Some((ptr, size)),
            None => None,
        },
    };
    match source {
        Some((ptr, len)) => if ptr == 0 || len == 0 {
            None
        } else {
            Some((ptr, len))
        },
        None => None,
    }
}

/// The bytes from row to row of a blob that is shown: as the guest says, or
/// tightly packed where it says nothing.
pub open spec fn blob_stride(width: u32, stride: u32) -> int {
    if stride != 0 {
        stride as int
    } else {
        4 * width
    }
}

/// How many bytes of guest memory a transfer of `w` by `h` pixels at column `x`
/// reads: those from the first byte of the rectangle to its last.
pub open spec fn transfer_len(buffer: Native2d, x: u32, w: u32, h: u32) -> int {
    rect_len(buffer.width as int, x as int, w as int, h as int)
}

/// Whether a transfer from byte `offset` of the guest buffer on can be held in
/// memory and addressed.
pub open spec fn transfer_fits(buffer: Native2d, x: u32, w: u32, h: u32, offset: u64) -> bool {
    &&& transfer_len(buffer, x, w, h) <= isize::MAX
    &&& backing_addressable(buffer.backing, offset as int, transfer_len(buffer, x, w, h))
}

/// `after` is `before` with the rectangle of `w` by `h` pixels at (`x`, `y`)
/// copied from guest memory: `region` is what was read.
pub open spec fn transferred(
    before: Native2d,
    after: Native2d,
    region: Seq<u8>,
    x: u32,
    y: u32,
    w: u32,
    h: u32,
) -> bool {
    &&& region.len() == transfer_len(before, x, w, h)
    &&& after == (Native2d {
        shadow: scattered(
            before.shadow,
            region,
            before.width as int,
            x as int,
            y as int,
            w as int,
            h as int,
        ),
        ..before
    })
}

/// The uuid of a resource: its id, most significant byte first, behind twelve
/// zeros.
pub open spec fn uuid_of(resource_id: u32) -> Seq<u8> {
    Seq::new(
        16,
        |i: int|
            if i < 12 {
                0u8
            } else if i == 12 {
                (resource_id / 0x100_0000) as u8
            } else if i == 13 {
                ((resource_id / 0x1_0000) % 0x100) as u8
            } else if i == 14 {
                ((resource_id / 0x100) % 0x100) as u8
            } else {
                (resource_id % 0x100) as u8
            },
    )
}

/// What a query of a resource with the given planes answers.
pub open spec fn query_answer(response: GpuResponse, info: Option<Resource3DInfo>) -> bool {
    match info {
        Some(info) => {
            &&& response matches GpuResponse::OkResourcePlaneInfo { format_modifier, plane_info }
            &&& format_modifier == info.modifier
            &&& plane_info@ == Seq::new(
                4,
                |i: int|
                    GpuResponsePlaneInfo { stride: info.strides@[i], offset: info.offsets@[i] },
            )
        },
        None => response == GpuResponse::OkNoData,
    }
}

impl GpuState {
    /// The device has all its scanouts. Each record is under its id. A resource
    /// is a plain 2D buffer of the device or known to the renderer. The pixels
    /// of each buffer fill its rows.
    pub open spec fn wf(self) -> bool {
        &&& self.scanouts.len() == VIRTIO_GPU_MAX_SCANOUTS
        &&& forall|id: u32| #[trigger] self.resources.contains_key(id) ==> self.record_wf(id)
        &&& forall|id: u32| #[trigger]
            self.native_2d.contains_key(id) ==> self.native_2d[id].wf()
    }

    /// Record `id` is under its id, and its pixels are where it says.
    pub open spec fn record_wf(self, id: u32) -> bool {
        &&& self.resources[id].id == id
        &&& if self.resources[id].native_2d {
            self.native_2d.contains_key(id)
        } else {
            renderer_resources(self.renderer).contains_key(id)
        }
    }

    /// `self` with `record` under `id`.
    pub open spec fn with_record(self, id: u32, record: VirtioGpuResource) -> GpuState {
        GpuState { resources: self.resources.insert(id, record), ..self }
    }

    /// `self` with `scanout_id` showing `scanout`.
    pub open spec fn with_scanout(
        self,
        scanout_id: u32,
        scanout: Option<VirtioGpuScanout>,
    ) -> GpuState {
        GpuState { scanouts: self.scanouts.update(scanout_id as int, scanout), ..self }
    }

    /// `self` with another renderer.
    pub open spec fn with_renderer(self, renderer: Rutabaga) -> GpuState {
        GpuState { renderer, ..self }
    }

    /// The resource that scanout `scanout_id` shows.
    pub open spec fn shown(self, scanout_id: u32) -> Option<u32> {
        match self.scanouts[scanout_id as int] {
            Some(scanout) => Some(scanout.resource_id),
            None => None,
        }
    }

    /// Whether scanout `scanout_id` shows a resource of which there is no
    /// record.
    pub open spec fn shows_lost(self, scanout_id: u32) -> bool {
        match self.shown(scanout_id) {
            Some(id) => !self.resources.contains_key(id),
            None => false,
        }
    }

    /// `self` once the resource that `scanout_id` shows, if there is a record of
    /// it, has had its mark for that scanout flipped.
    pub open spec fn detached(self, scanout_id: u32) -> GpuState {
        match self.shown(scanout_id) {
            Some(id) => if self.resources.contains_key(id) {
                let record = self.resources[id];
                self.with_record(
                    id,
                    VirtioGpuResource {
                        scanouts: record.scanouts.with_flipped(scanout_id),
                        ..record
                    },
                )
            } else {
                self
            },
            None => self,
        }
    }

    /// `self` once resource `resource_id` is marked as shown by `scanout_id`.
    pub open spec fn attached(self, scanout_id: u32, resource_id: u32) -> GpuState {
        let record = self.resources[resource_id];
        self.with_record(
            resource_id,
            VirtioGpuResource { scanouts: record.scanouts.with_enabled(scanout_id), ..record },
        )
    }

    /// `self` once resource `resource_id` also has the geometry of what is
    /// shown of it.
    pub open spec fn stamped(
        self,
        scanout_id: u32,
        resource_id: u32,
        format: ResourceFormat,
        width: u32,
        height: u32,
        stride: u32,
    ) -> GpuState {
        let record = self.attached(scanout_id, resource_id).resources[resource_id];
        self.with_record(
            resource_id,
            VirtioGpuResource {
                width,
                height,
                format: Some(format),
                scanout_stride: blob_stride(width, stride) as u32,
                ..record
            },
        )
    }

    /// What the display has to do to show a resource on `scanout_id`. There has
    /// to be a screen.
    pub open spec fn configure_step(
        self,
        scanout_id: u32,
        resource_id: u32,
        width: u32,
        height: u32,
        format: ResourceFormat,
    ) -> Result<ScanoutStep, GpuResponse> {
        if scanout_id < self.displays.len() {
            Ok(
                ScanoutStep::Configure {
                    scanout_id,
                    resource_id,
                    display_width: self.displays[scanout_id as int].width,
                    display_height: self.displays[scanout_id as int].height,
                    width,
                    height,
                    format,
                },
            )
        } else {
            Err(GpuResponse::ErrInvalidScanoutId)
        }
    }

    /// What SET_SCANOUT makes of the state before the display is asked.
    pub open spec fn set_scanout(self, scanout_id: u32, resource_id: u32) -> GpuState {
        let free = self.detached(scanout_id);
        if scanout_id >= VIRTIO_GPU_MAX_SCANOUTS || self.shows_lost(scanout_id) {
            self
        } else if resource_id == 0 {
            free.with_scanout(scanout_id, None)
        } else if !self.resources.contains_key(resource_id) {
            free
        } else {
            free.attached(scanout_id, resource_id)
        }
    }

    /// What SET_SCANOUT asks of the display, or answers at once.
    pub open spec fn set_scanout_step(
        self,
        scanout_id: u32,
        resource_id: u32,
        width: u32,
        height: u32,
    ) -> Result<ScanoutStep, GpuResponse> {
        if scanout_id >= VIRTIO_GPU_MAX_SCANOUTS {
            Err(GpuResponse::ErrInvalidScanoutId)
        } else if self.shows_lost(scanout_id) {
            Err(GpuResponse::ErrInvalidResourceId)
        } else if resource_id == 0 {
            Ok(ScanoutStep::Disable { scanout_id })
        } else if !self.resources.contains_key(resource_id) {
            Err(GpuResponse::ErrInvalidResourceId)
        } else {
            match self.resources[resource_id].format {
                None => Err(GpuResponse::ErrUnspec),
                Some(format) => self.configure_step(
                    scanout_id,
                    resource_id,
                    width,
                    height,
                    format,
                ),
            }
        }
    }

    /// Whether SET_SCANOUT_BLOB gets as far as to give the resource a geometry.
    pub open spec fn stamps(
        self,
        scanout_id: u32,
        resource_id: u32,
        format: Option<ResourceFormat>,
    ) -> bool {
        &&& scanout_id < VIRTIO_GPU_MAX_SCANOUTS
        &&& resource_id != 0
        &&& self.resources.contains_key(resource_id)
        &&& format is Some
    }

    /// What SET_SCANOUT_BLOB makes of the state before the display is asked.
    pub open spec fn set_scanout_blob(
        self,
        scanout_id: u32,
        resource_id: u32,
        format: Option<ResourceFormat>,
        width: u32,
        height: u32,
        stride: u32,
    ) -> GpuState {
        let free = self.detached(scanout_id);
        if scanout_id >= VIRTIO_GPU_MAX_SCANOUTS {
            self
        } else if resource_id == 0 {
            free.with_scanout(scanout_id, None)
        } else if self.stamps(scanout_id, resource_id, format) {
            free.stamped(scanout_id, resource_id, format->0, width, height, stride)
        } else {
            free
        }
    }

    /// What SET_SCANOUT_BLOB asks of the display, or answers at once.
    pub open spec fn set_scanout_blob_step(
        self,
        scanout_id: u32,
        resource_id: u32,
        format: Option<ResourceFormat>,
        width: u32,
        height: u32,
    ) -> Result<ScanoutStep, GpuResponse> {
        if scanout_id >= VIRTIO_GPU_MAX_SCANOUTS {
            Err(GpuResponse::ErrInvalidScanoutId)
        } else if resource_id == 0 {
            Ok(ScanoutStep::Disable { scanout_id })
        } else if !self.resources.contains_key(resource_id) {
            Err(GpuResponse::ErrInvalidResourceId)
        } else {
            match format {
                None => Err(GpuResponse::ErrUnspec),
                Some(format) => self.configure_step(
                    scanout_id,
                    resource_id,
                    width,
                    height,
                    format,
                ),
            }
        }
    }

    /// What the state becomes once the display has done `step`.
    pub open spec fn shown_after(self, step: ScanoutStep) -> GpuState {
        match step {
            ScanoutStep::Disable { .. } => self,
            ScanoutStep::Configure { scanout_id, resource_id, .. } => self.with_scanout(
                scanout_id,
                Some(VirtioGpuScanout { resource_id }),
            ),
        }
    }

    /// `after` is `self` with `call` made on the renderer, which holds the same
    /// resources and contexts as before.
    pub open spec fn called(self, after: GpuState, call: RendererCall) -> bool {
        &&& after == self.with_renderer(after.renderer)
        &&& renderer_called(self.renderer, after.renderer, call)
        &&& renderer_resources(after.renderer) == renderer_resources(self.renderer)
        &&& same_contexts(self.renderer, after.renderer)
    }

    /// `self` with `buffer` under `id`.
    pub open spec fn with_buffer(self, id: u32, buffer: Native2d) -> GpuState {
        GpuState { native_2d: self.native_2d.insert(id, buffer), ..self }
    }

    /// `self` without a record of `id`.
    pub open spec fn without_record(self, id: u32) -> GpuState {
        GpuState { resources: self.resources.remove(id), ..self }
    }

    /// `after` is `before` with the new resource `id` of the renderer and its
    /// record, and `response` tells the guest its planes.
    pub open spec fn created(
        self,
        after: GpuState,
        id: u32,
        record: VirtioGpuResource,
        response: GpuResponse,
    ) -> bool {
        &&& after == self.with_record(id, record).with_renderer(after.renderer)
        &&& renderer_created(self.renderer, after.renderer, id, true)
        &&& query_answer(response, renderer_resources(after.renderer)[id].info_3d)
    }

    /// RESOURCE_MAP_BLOB up to the mapping itself: what is answered or asked
    /// for, and `after`, the state then.
    ///
    /// The blob is exported unless it is clear beforehand that it will not be
    /// mapped.
    pub open spec fn map_blob(
        self,
        after: GpuState,
        resource_id: u32,
        region: VirtioShmRegion,
        offset: u64,
        mapping: BlobMapping,
        result: Result<MapRequest, GpuResponse>,
    ) -> bool {
        let size = self.resources[resource_id].size;
        let exported = last_export(after.renderer);
        let export = RendererCall::ExportBlob { resource_id, handle_type: exported };
        if !self.resources.contains_key(resource_id) {
            &&& result == Err::<MapRequest, GpuResponse>(GpuResponse::ErrInvalidResourceId)
            &&& after == self
        } else {
            match map_info_of(self.renderer, resource_id) {
                None => {
                    &&& result == Err::<MapRequest, GpuResponse>(GpuResponse::ErrUnspec)
                    &&& after == self
                },
                Some(info) => match mapping {
                    BlobMapping::Descriptor => {
                        let plan = descriptor_plan(size, info, exported, region, offset);
                        &&& self.called(after, export)
                        &&& map_answer(result, plan, resource_id, offset, info, exported)
                    },
                    BlobMapping::Renderer => match renderer_target(size, info, region, offset) {
                        Ok((addr, prot)) => {
                            let plan = renderer_plan(size, addr, prot, exported);
                            &&& self.called(after, export)
                            &&& map_answer(
                                result,
                                Some(plan),
                                resource_id,
                                offset,
                                info,
                                exported,
                            )
                        },
                        Err(plan) => {
                            &&& after == self
                            &&& map_answer(result, plan, resource_id, offset, info, None)
                        },
                    },
                    BlobMapping::Hypervisor { map_ptr, handle_type } => match map_ptr {
                        Some(ptr) => {
                            let plan = hypervisor_plan(
                                size,
                                ptr,
                                handle_type,
                                exported,
                                region,
                                offset,
                            );
                            &&& self.called(after, export)
                            &&& map_answer(result, plan, resource_id, offset, info, exported)
                        },
                        None => {
                            &&& result == Err::<MapRequest, GpuResponse>(GpuResponse::ErrUnspec)
                            &&& after == self
                        },
                    },
                },
            }
        }
    }

    /// `self` with the blob `id` mapped at `offset` of the window, or not mapped.
    pub open spec fn with_shmem_offset(self, id: u32, offset: Option<u64>) -> GpuState {
        self.with_record(
            id,
            VirtioGpuResource { shmem_offset: offset, ..self.resources[id] },
        )
    }

    /// Whether a flush can compute the rows of resource `resource_id`.
    pub open spec fn frame_stride_fits(self, resource_id: u32) -> bool {
        self.resources.contains_key(resource_id) && self.read_by_transfer(resource_id) ==> 4
            * self.resources[resource_id].width <= u32::MAX
    }

    /// Whether resource `resource_id` is read through the renderer pixel by
    /// pixel.
    pub open spec fn read_by_transfer(self, resource_id: u32) -> bool {
        !self.resources[resource_id].native_2d && !self.resources[resource_id].blob
    }
}

/// A record can be replaced by one with the same id that keeps its pixels in
/// the same place.
pub proof fn lemma_with_record(state: GpuState, id: u32, record: VirtioGpuResource)
    requires
        state.wf(),
        state.resources.contains_key(id),
        record.id == id,
        record.native_2d == state.resources[id].native_2d,
    ensures
        state.with_record(id, record).wf(),
{
    let after = state.with_record(id, record);
    assert forall|k: u32| #[trigger] after.resources.contains_key(k) implies after.record_wf(k) by {
        assert(state.resources.contains_key(k));
    }
}

/// The tables stay sound as long as the renderer keeps its resources.
pub proof fn lemma_same_tables(before: GpuState, after: GpuState)
    requires
        before.wf(),
        after.resources == before.resources,
        after.native_2d == before.native_2d,
        after.scanouts.len() == before.scanouts.len(),
        forall|id: u32|
            renderer_resources(before.renderer).contains_key(id)
                ==> #[trigger] renderer_resources(after.renderer).contains_key(id),
    ensures
        after.wf(),
{
    assert forall|k: u32| #[trigger] after.resources.contains_key(k) implies after.record_wf(k) by {
        assert(before.resources.contains_key(k));
        assert(before.record_wf(k));
    }
}

/// A buffer can be replaced by a sound one.
pub proof fn lemma_with_buffer(state: GpuState, id: u32, buffer: Native2d)
    requires
        state.wf(),
        buffer.wf(),
    ensures
        state.with_buffer(id, buffer).wf(),
{
    let after = state.with_buffer(id, buffer);
    assert forall|k: u32| #[trigger] after.resources.contains_key(k) implies after.record_wf(k) by {
        assert(state.resources.contains_key(k));
        assert(state.record_wf(k));
    }
}

/// A record can be made of a resource that the renderer has just created.
pub proof fn lemma_created(
    before: GpuState,
    after: GpuState,
    id: u32,
    record: VirtioGpuResource,
)
    requires
        before.wf(),
        record.id == id,
        !record.native_2d,
        after == before.with_record(id, record).with_renderer(after.renderer),
        renderer_created(before.renderer, after.renderer, id, true),
    ensures
        after.wf(),
{
    assert forall|k: u32| #[trigger] after.resources.contains_key(k) implies after.record_wf(k) by {
        if k != id {
            assert(before.resources.contains_key(k));
            assert(before.record_wf(k));
            assert(renderer_resources(after.renderer).remove(id).contains_key(k)
                ==> renderer_resources(after.renderer).contains_key(k));
        }
    }
}

/// A record can go, and with it what the device or the renderer holds of the
/// resource.
pub proof fn lemma_removed(before: GpuState, after: GpuState, id: u32)
    requires
        before.wf(),
        after.resources == before.resources.remove(id),
        after.native_2d == before.native_2d || after.native_2d == before.native_2d.remove(id),
        after.scanouts.len() == before.scanouts.len(),
        renderer_resources(after.renderer) == renderer_resources(before.renderer)
            || renderer_resources(after.renderer) == renderer_resources(before.renderer).remove(id),
    ensures
        after.wf(),
{
    assert forall|k: u32| #[trigger] after.resources.contains_key(k) implies after.record_wf(k) by {
        assert(before.resources.contains_key(k));
        assert(before.record_wf(k));
    }
    assert forall|k: u32| #[trigger]
        after.native_2d.contains_key(k) implies after.native_2d[k].wf() by {
        assert(before.native_2d.contains_key(k));
    }
}

} // verus!
