//! The device: commands of the guest against resources, scanouts and the
//! renderer.
//!
//! Where a command needs the display or the memory map of the host, it comes in
//! two halves. The first half decides what is to be done and returns it as a
//! step; the second half takes in how it went.

use crate::blob::{
    plan_descriptor, plan_hypervisor, plan_renderer, target_renderer, window_base, BlobMapping,
    MapPlan, MapRequest, UnmapRequest, WindowSide, RUTABAGA_MAP_CACHE_MASK,
};
use crate::contexts::{
    check_open, is_cross_domain, is_cross_domain_init, lemma_last, lemma_untold, rings_sound,
    submittable, ContextTable,
};
use crate::fence::{FenceDescriptor, FenceState, VirtioGpuRing};
use crate::flush::{flush_answer, flush_answered, flush_start, FlushAction, FlushState};
use crate::guest_memory::{
    addressable, backing_len, backing_readable, backing_seen, guest_regions, iovecs_of,
    read_backing, sglist_mapped, sglist_to_rutabaga_iovecs,
};
use crate::model::{
    blob_source_spec, blob_step, blob_stride, done_by_renderer, export_type, last_export,
    last_flush, last_iovecs, last_mapping, last_read_refusal, lemma_created, lemma_removed,
    lemma_same_tables, lemma_with_buffer, lemma_with_record, new_state, query_answer, refused_with,
    transfer_fits, transfer_len, transferred, unref_called, uuid_of, whole_resource, FrameStep,
    GpuState, ScanoutStep,
};
use crate::pixels::{copy_prefix, prefix_copied, rect_bytes, scatter, BYTES_PER_PIXEL};
use crate::protocol::{
    GpuResponse, GpuResponsePlaneInfo, VirtioGpuResult, VirtioShmRegion,
    VIRTIO_GPU_BLOB_FLAG_CREATE_GUEST_HANDLE, VIRTIO_GPU_BLOB_MEM_HOST3D,
    VIRTIO_GPU_FLAG_INFO_RING_IDX, VIRTIO_GPU_MAX_SCANOUTS,
};
use crate::renderer;
use crate::renderer::{
    capset_info_seen, capset_seen, channel_types_fit, renderer_called, renderer_calls,
    renderer_contexts, renderer_cross_default, renderer_is_software, renderer_resources,
    same_contexts, software_creatable, software_transferable, ExportedBlob, GpuFence, RendererCall,
    ResourceCreate3D, ResourceCreateBlob, RutabagaMapping, Transfer3D,
};
use crate::resource::{
    new_resource, Display, DisplayInfo, Native2d, Native2dResource, ResourceFormat,
    VirtioGpuResource,
};
use crate::scanout::{enabled_below, VirtioGpuScanout};
use rutabaga_gfx::{Rutabaga, RutabagaIovec};
use std::collections::BTreeMap;
use vm_memory::GuestMemoryMmap;
use vstd::prelude::*;

verus! {

/// A virtio GPU.
pub struct VirtioGpu {
    rutabaga: Rutabaga,
    resources: BTreeMap<u32, VirtioGpuResource>,
    native_2d: BTreeMap<u32, Native2dResource>,
    scanouts: [Option<VirtioGpuScanout>; 16],
    displays: Vec<DisplayInfo>,
    mem: GuestMemoryMmap,
    contexts: ContextTable,
}

/// The contents of the plain 2D buffers.
pub open spec fn native_view(buffers: Map<u32, Native2dResource>) -> Map<u32, Native2d> {
    buffers.map_values(|buffer: Native2dResource| buffer@)
}

/// The contents of the screens' descriptions.
pub open spec fn display_view(displays: Seq<DisplayInfo>) -> Seq<Display> {
    displays.map_values(|display: DisplayInfo| display@)
}

impl View for VirtioGpu {
    type V = GpuState;

    closed spec fn view(&self) -> GpuState {
        GpuState {
            resources: self.resources@,
            native_2d: native_view(self.native_2d@),
            scanouts: self.scanouts@,
            displays: display_view(self.displays@),
            renderer: self.rutabaga,
            mem: self.mem,
        }
    }
}

impl VirtioGpu {
    /// The tables are sound, and the device knows the contexts of its renderer.
    pub open spec fn wf(self) -> bool {
        &&& self@.wf()
        &&& channel_types_fit(self@.renderer)
        &&& self.knows_contexts()
    }

    /// The device knows what the contexts of its renderer can be asked for.
    pub closed spec fn knows_contexts(self) -> bool {
        self.contexts.tells_of(self.rutabaga)
    }

    /// A device without resources that shows nothing, with the given renderer,
    /// on which nothing has been done. `cross_default` says whether cross-domain
    /// contexts are its default.
    pub fn with_renderer(
        rutabaga: Rutabaga,
        cross_default: bool,
        displays: Vec<DisplayInfo>,
        mem: GuestMemoryMmap,
    ) -> (result: VirtioGpu)
        requires
            renderer_calls(rutabaga) == Seq::<RendererCall>::empty(),
            renderer_cross_default(rutabaga) == cross_default,
            channel_types_fit(rutabaga),
        ensures
            result@ == new_state(rutabaga, display_view(displays@), mem),
            result.wf(),
    {
        let result = VirtioGpu {
            rutabaga,
            resources: BTreeMap::new(),
            native_2d: BTreeMap::new(),
            scanouts: [None; 16],
            displays,
            mem,
            contexts: ContextTable::new(cross_default),
        };
        assert(result@ =~= new_state(rutabaga, display_view(displays@), mem));
        result
    }

    /// The screen of scanout `scanout_id`, asked to show a resource.
    fn configure(
        &self,
        scanout_id: u32,
        resource_id: u32,
        width: u32,
        height: u32,
        format: ResourceFormat,
    ) -> (result: Result<ScanoutStep, GpuResponse>)
        ensures
            result == self@.configure_step(scanout_id, resource_id, width, height, format),
    {
        if scanout_id as usize >= self.displays.len() {
            return Err(GpuResponse::ErrInvalidScanoutId);
        }
        Ok(
            ScanoutStep::Configure {
                scanout_id,
                resource_id,
                display_width: self.displays[scanout_id as usize].width,
                display_height: self.displays[scanout_id as usize].height,
                width,
                height,
                format,
            },
        )
    }

    /// Flips the mark that scanout `scanout_id` has on the resource that it
    /// shows. Where there is no record of that resource, the answer is `false`.
    fn detach(&mut self, scanout_id: u32) -> (result: bool)
        requires
            old(self).wf(),
            scanout_id < VIRTIO_GPU_MAX_SCANOUTS,
        ensures
            result == !old(self)@.shows_lost(scanout_id),
            final(self)@ == old(self)@.detached(scanout_id),
            final(self).wf(),
    {
        match self.scanouts[scanout_id as usize] {
            Some(scanout) => {
                let mut resource = match self.resources.get(&scanout.resource_id) {
                    Some(resource) => *resource,
                    None => {
                        return false;
                    },
                };
                resource.scanouts.disable(scanout_id);
                proof {
                    lemma_with_record(self@, scanout.resource_id, resource);
                }
                self.resources.insert(scanout.resource_id, resource);
                true
            },
            None => true,
        }
    }

    /// SET_SCANOUT, first half: shows a resource on a scanout, or turns the
    /// scanout off where `resource_id` is 0.
    ///
    /// A scanout that already shows a resource is taken from it first. If that
    /// resource has been dropped, the command is refused.
    pub fn set_scanout(
        &mut self,
        scanout_id: u32,
        resource_id: u32,
        width: u32,
        height: u32,
    ) -> (result: Result<ScanoutStep, GpuResponse>)
        requires
            old(self).wf(),
        ensures
            final(self)@ == old(self)@.set_scanout(scanout_id, resource_id),
            result == old(self)@.set_scanout_step(scanout_id, resource_id, width, height),
            final(self).wf(),
    {
        if scanout_id >= VIRTIO_GPU_MAX_SCANOUTS {
            return Err(GpuResponse::ErrInvalidScanoutId);
        }
        if !self.detach(scanout_id) {
            return Err(GpuResponse::ErrInvalidResourceId);
        }
        if resource_id == 0 {
            proof {
                lemma_same_tables(self@, self@.with_scanout(scanout_id, None));
            }
            self.scanouts[scanout_id as usize] = None;
            return Ok(ScanoutStep::Disable { scanout_id });
        }
        let mut resource = match self.resources.get(&resource_id) {
            Some(resource) => *resource,
            None => {
                return Err(GpuResponse::ErrInvalidResourceId);
            },
        };
        resource.scanouts.enable(scanout_id);
        proof {
            lemma_with_record(self@, resource_id, resource);
        }
        self.resources.insert(resource_id, resource);
        match resource.format {
            Some(format) => self.configure(scanout_id, resource_id, width, height, format),
            None => Err(GpuResponse::ErrUnspec),
        }
    }

    /// SET_SCANOUT_BLOB, first half: as `set_scanout`, for a blob. A blob has no
    /// geometry of its own: it takes on that of the command, for flushes to come.
    ///
    /// Where the resource that the scanout shows has been dropped, nothing is
    /// taken from it.
    pub fn set_scanout_blob(
        &mut self,
        scanout_id: u32,
        resource_id: u32,
        format: Option<ResourceFormat>,
        width: u32,
        height: u32,
        strides: [u32; 4],
        _offsets: [u32; 4],
    ) -> (result: Result<ScanoutStep, GpuResponse>)
        requires
            old(self).wf(),
            old(self)@.stamps(scanout_id, resource_id, format) ==> blob_stride(width, strides@[0])
                <= u32::MAX,
        ensures
            final(self)@ == old(self)@.set_scanout_blob(
                scanout_id,
                resource_id,
                format,
                width,
                height,
                strides@[0],
            ),
            result == old(self)@.set_scanout_blob_step(
                scanout_id,
                resource_id,
                format,
                width,
                height,
            ),
            final(self).wf(),
    {
        if scanout_id >= VIRTIO_GPU_MAX_SCANOUTS {
            return Err(GpuResponse::ErrInvalidScanoutId);
        }
        self.detach(scanout_id);
        if resource_id == 0 {
            proof {
                lemma_same_tables(self@, self@.with_scanout(scanout_id, None));
            }
            self.scanouts[scanout_id as usize] = None;
            return Ok(ScanoutStep::Disable { scanout_id });
        }
        let mut resource = match self.resources.get(&resource_id) {
            Some(resource) => *resource,
            None => {
                return Err(GpuResponse::ErrInvalidResourceId);
            },
        };
        let format = match format {
            Some(format) => format,
            None => {
                return Err(GpuResponse::ErrUnspec);
            },
        };
        resource.scanouts.enable(scanout_id);
        resource.width = width;
        resource.height = height;
        resource.format = Some(format);
        resource.scanout_stride = if strides[0] != 0 {
            strides[0]
        } else {
            width * BYTES_PER_PIXEL
        };
        proof {
            lemma_with_record(self@, resource_id, resource);
        }
        self.resources.insert(resource_id, resource);
        self.configure(scanout_id, resource_id, width, height, format)
    }

    /// Whether SET_SCANOUT_BLOB gets as far as to give the resource a geometry.
    pub fn stamps_scanout_blob(
        &self,
        scanout_id: u32,
        resource_id: u32,
        format: Option<ResourceFormat>,
    ) -> (result: bool)
        ensures
            result == self@.stamps(scanout_id, resource_id, format),
    {
        scanout_id < VIRTIO_GPU_MAX_SCANOUTS && resource_id != 0 && self.resources.contains_key(
            &resource_id,
        ) && format.is_some()
    }

    /// SET_SCANOUT and SET_SCANOUT_BLOB, second half: how the display took the
    /// step. Where it refused, the scanout is not changed.
    pub fn finish_set_scanout(
        &mut self,
        step: ScanoutStep,
        outcome: Result<(), GpuResponse>,
    ) -> (result: VirtioGpuResult)
        requires
            old(self).wf(),
            step matches ScanoutStep::Configure { scanout_id, .. } ==> scanout_id
                < VIRTIO_GPU_MAX_SCANOUTS,
        ensures
            match outcome {
                Ok(()) => {
                    &&& result == Ok::<GpuResponse, GpuResponse>(GpuResponse::OkNoData)
                    &&& final(self)@ == old(self)@.shown_after(step)
                },
                Err(e) => {
                    &&& result == Err::<GpuResponse, GpuResponse>(e)
                    &&& final(self)@ == old(self)@
                },
            },
            final(self).wf(),
    {
        match outcome {
            Ok(()) => {
                match step {
                    ScanoutStep::Configure { scanout_id, resource_id, .. } => {
                        self.scanouts[scanout_id as usize] = Some(VirtioGpuScanout { resource_id });
                    },
                    ScanoutStep::Disable { .. } => {},
                }
                Ok(GpuResponse::OkNoData)
            },
            Err(e) => Err(e),
        }
    }

    /// RESOURCE_FLUSH: how the resource gets to the scanouts that show it, on a
    /// Windows host or another.
    pub fn flush_resource(&self, resource_id: u32, windows: bool) -> (result: (
        FlushState,
        FlushAction,
    ))
        ensures
            ({
                let scanouts = if resource_id != 0 && self@.resources.contains_key(resource_id) {
                    enabled_below(
                        self@.resources[resource_id].scanouts,
                        VIRTIO_GPU_MAX_SCANOUTS as nat,
                    )
                } else {
                    Seq::empty()
                };
                &&& result.0.scanouts() == scanouts
                &&& result.0.windows() == (windows && resource_id != 0)
                &&& result.1 == if resource_id != 0 && !self@.resources.contains_key(resource_id) {
                    FlushAction::Answer(Err(GpuResponse::ErrInvalidResourceId))
                } else {
                    flush_start(scanouts, windows && resource_id != 0)
                }
            }),
    {
        if resource_id == 0 {
            return FlushState::start(Vec::new(), false);
        }
        match self.resources.get(&resource_id) {
            Some(resource) => FlushState::start(resource.scanouts.iter_enabled(), windows),
            None => {
                let (flush, _) = FlushState::start(Vec::new(), windows);
                (flush, FlushAction::Answer(Err(GpuResponse::ErrInvalidResourceId)))
            },
        }
    }

    /// RESOURCE_FLUSH: has the renderer flush the resource.
    pub fn flush_renderer(&mut self, resource_id: u32) -> (result: VirtioGpuResult)
        requires
            old(self).wf(),
        ensures
            final(self).wf(),
            result == flush_answered(last_flush(final(self)@.renderer)),
            old(self)@.called(
                final(self)@,
                RendererCall::ResourceFlush {
                    resource_id,
                    outcome: last_flush(final(self)@.renderer),
                },
            ),
            result is Ok ==> renderer_resources(old(self)@.renderer).contains_key(resource_id),
            renderer_is_software(old(self)@.renderer) ==> (result is Ok <==> renderer_resources(
                old(self)@.renderer,
            ).contains_key(resource_id)),
    {
        let reply = renderer::resource_flush(&mut self.rutabaga, resource_id);
        proof {
            lemma_same_tables(old(self)@, self@);
            lemma_untold(self.contexts, old(self).rutabaga, self.rutabaga);
        }
        flush_answer(reply)
    }

    /// Whether `read_frame` can compute the rows of the resource.
    pub fn frame_stride_fits(&self, resource_id: u32) -> (result: bool)
        ensures
            result == self@.frame_stride_fits(resource_id),
    {
        match self.resources.get(&resource_id) {
            Some(resource) => resource.native_2d || resource.blob || resource.width <= u32::MAX
                / BYTES_PER_PIXEL,
            None => true,
        }
    }

    /// Reads a resource that the renderer draws, all of it.
    fn read_2d_resource(
        rutabaga: &mut Rutabaga,
        resource: VirtioGpuResource,
        output: &mut [u8],
    ) -> (result: FrameStep)
        requires
            4 * resource.width <= u32::MAX,
        ensures
            final(output)@.len() == old(output)@.len(),
            result == if last_read_refusal(*final(rutabaga)) is None {
                FrameStep::Filled
            } else {
                FrameStep::NotRead
            },
            renderer_called(
                *old(rutabaga),
                *final(rutabaga),
                RendererCall::TransferRead {
                    ctx_id: 0,
                    resource_id: resource.id,
                    transfer: whole_resource(resource.width, resource.height),
                    output: Some(final(output)@),
                    refusal: last_read_refusal(*final(rutabaga)),
                },
            ),
            renderer_resources(*final(rutabaga)) == renderer_resources(*old(rutabaga)),
            same_contexts(*old(rutabaga), *final(rutabaga)),
    {
        let transfer = Transfer3D {
            x: 0,
            y: 0,
            z: 0,
            w: resource.width,
            h: resource.height,
            d: 1,
            level: 0,
            stride: resource.width * BYTES_PER_PIXEL,
            layer_stride: 0,
            offset: 0,
        };
        match renderer::transfer_read(rutabaga, 0, resource.id, transfer, Some(output)) {
            Ok(()) => FrameStep::Filled,
            Err(_) => FrameStep::NotRead,
        }
    }

    /// Finds the pixels of a blob in host memory.
    fn read_blob_resource(
        rutabaga: &mut Rutabaga,
        resource: &VirtioGpuResource,
        map_ptr: Option<u64>,
    ) -> (result: FrameStep)
        ensures
            renderer_called(
                *old(rutabaga),
                *final(rutabaga),
                RendererCall::MapBlob {
                    resource_id: resource.id,
                    mapping: last_mapping(*final(rutabaga)),
                },
            ),
            renderer_resources(*final(rutabaga)) == renderer_resources(*old(rutabaga)),
            same_contexts(*old(rutabaga), *final(rutabaga)),
            result == blob_step(
                blob_source_spec(last_mapping(*final(rutabaga)), map_ptr, resource.size),
                *resource,
            ),
    {
        let mapping = match renderer::map(rutabaga, resource.id) {
            Ok(mapping) => Some(mapping),
            Err(_) => None,
        };
        match blob_source(mapping, map_ptr, resource.size) {
            Some((ptr, size)) => FrameStep::CopyBlob {
                ptr,
                size,
                width: resource.width,
                height: resource.height,
                stride: resource.scanout_stride,
            },
            None => FrameStep::NotMapped,
        }
    }

    /// RESOURCE_FLUSH: reads the resource into a frame of the display.
    ///
    /// A plain 2D buffer is copied as far as both reach. For a blob the caller
    /// copies the rows: `map_ptr` is where the host sees the blob if the
    /// renderer cannot map it. Other resources are read by the renderer.
    pub fn read_frame(
        &mut self,
        resource_id: u32,
        map_ptr: Option<u64>,
        frame: &mut [u8],
    ) -> (result: FrameStep)
        requires
            old(self).wf(),
            old(self)@.resources.contains_key(resource_id),
            old(self)@.frame_stride_fits(resource_id),
        ensures
            final(self).wf(),
            final(frame)@.len() == old(frame)@.len(),
            ({
                let record = old(self)@.resources[resource_id];
                if record.native_2d {
                    &&& final(self)@ == old(self)@
                    &&& final(frame)@ == prefix_copied(
                        old(frame)@,
                        old(self)@.native_2d[resource_id].shadow,
                    )
                    &&& result == FrameStep::Filled
                } else if record.blob {
                    &&& final(frame)@ == old(frame)@
                    &&& old(self)@.called(
                        final(self)@,
                        RendererCall::MapBlob {
                            resource_id,
                            mapping: last_mapping(final(self)@.renderer),
                        },
                    )
                    &&& result == blob_step(
                        blob_source_spec(
                            last_mapping(final(self)@.renderer),
                            map_ptr,
                            record.size,
                        ),
                        record,
                    )
                } else {
                    &&& result == if last_read_refusal(final(self)@.renderer) is None {
                        FrameStep::Filled
                    } else {
                        FrameStep::NotRead
                    }
                    &&& old(self)@.called(
                        final(self)@,
                        RendererCall::TransferRead {
                            ctx_id: 0,
                            resource_id,
                            transfer: whole_resource(record.width, record.height),
                            output: Some(final(frame)@),
                            refusal: last_read_refusal(final(self)@.renderer),
                        },
                    )
                }
            }),
    {
        let resource = match self.resources.get(&resource_id) {
            Some(resource) => *resource,
            None => {
                return FrameStep::NotMapped;
            },
        };
        assert(self@.record_wf(resource_id));
        if resource.native_2d {
            match self.native_2d.get(&resource_id) {
                Some(native) => {
                    copy_prefix(frame, native.shadow.as_slice());
                    FrameStep::Filled
                },
                None => FrameStep::NotMapped,
            }
        } else if resource.blob {
            let step = Self::read_blob_resource(&mut self.rutabaga, &resource, map_ptr);
            proof {
                lemma_same_tables(old(self)@, self@);
                lemma_untold(self.contexts, old(self).rutabaga, self.rutabaga);
            }
            step
        } else {
            let step = Self::read_2d_resource(&mut self.rutabaga, resource, frame);
            proof {
                lemma_same_tables(old(self)@, self@);
                lemma_untold(self.contexts, old(self).rutabaga, self.rutabaga);
            }
            step
        }
    }

    /// Whether `transfer_to_host_2d` can hold and address what it reads.
    pub fn transfer_fits(&self, resource_id: u32, x: u32, w: u32, h: u32, offset: u64) -> (result:
        bool)
        requires
            self.wf(),
        ensures
            result == (self@.native_2d.contains_key(resource_id) ==> transfer_fits(
                self@.native_2d[resource_id],
                x,
                w,
                h,
                offset,
            )),
    {
        match self.native_2d.get(&resource_id) {
            Some(native) => {
                assert(self@.native_2d[resource_id] == native@);
                assert(self@.native_2d.contains_key(resource_id));
                let len: u128 = rect_bytes(native.width, x, w, h);
                if len > isize::MAX as u128 {
                    return false;
                }
                addressable(native.backing.as_slice(), offset, len as usize)
            },
            None => true,
        }
    }

    /// TRANSFER_TO_HOST_2D: copies a rectangle of a plain 2D buffer from guest
    /// memory to the host.
    ///
    /// The guest buffer has rows of the same length; its byte `offset` is the
    /// first pixel of the rectangle. It is read up to the last pixel of the
    /// rectangle. What lies outside the buffer is left out.
    pub fn transfer_to_host_2d(
        &mut self,
        resource_id: u32,
        x: u32,
        y: u32,
        w: u32,
        h: u32,
        offset: u64,
    ) -> (result: VirtioGpuResult)
        requires
            old(self).wf(),
            old(self)@.native_2d.contains_key(resource_id) ==> transfer_fits(
                old(self)@.native_2d[resource_id],
                x,
                w,
                h,
                offset,
            ),
        ensures
            final(self).wf(),
            ({
                let s = old(self)@;
                let buffer = s.native_2d[resource_id];
                let len = transfer_len(buffer, x, w, h);
                if !s.native_2d.contains_key(resource_id) {
                    &&& result == Err::<GpuResponse, GpuResponse>(GpuResponse::ErrInvalidResourceId)
                    &&& final(self)@ == s
                } else if buffer.width == 0 || h == 0 {
                    &&& result == Ok::<GpuResponse, GpuResponse>(GpuResponse::OkNoData)
                    &&& final(self)@ == s
                } else if !backing_readable(
                    guest_regions(s.mem),
                    buffer.backing,
                    offset as int,
                    len,
                ) {
                    &&& result == Err::<GpuResponse, GpuResponse>(GpuResponse::ErrUnspec)
                    &&& final(self)@ == s
                } else {
                    &&& result == Ok::<GpuResponse, GpuResponse>(GpuResponse::OkNoData)
                    &&& final(self)@ == s.with_buffer(
                        resource_id,
                        final(self)@.native_2d[resource_id],
                    )
                    &&& exists|region: Seq<u8>|
                        {
                            &&& #[trigger] backing_seen(
                                s.mem,
                                buffer.backing,
                                offset as int,
                                region,
                            )
                            &&& transferred(
                                buffer,
                                final(self)@.native_2d[resource_id],
                                region,
                                x,
                                y,
                                w,
                                h,
                            )
                        }
                }
            }),
    {
        let native = match self.native_2d.get(&resource_id) {
            Some(native) => native,
            None => {
                return Err(GpuResponse::ErrInvalidResourceId);
            },
        };
        assert(self@.native_2d.contains_key(resource_id));
        let ghost buffer = native@;
        let width: u32 = native.width;
        let height: u32 = native.height;
        if width == 0 || h == 0 {
            return Ok(GpuResponse::OkNoData);
        }
        let region_len: usize = rect_bytes(width, x, w, h) as usize;
        let mut region: Vec<u8> = vec![0u8; region_len];
        match read_backing(&self.mem, native.backing.as_slice(), offset, region.as_mut_slice()) {
            Ok(_) => {},
            Err(e) => {
                return Err(e);
            },
        }
        match self.native_2d.remove(&resource_id) {
            Some(mut native) => {
                scatter(
                    native.shadow.as_mut_slice(),
                    region.as_slice(),
                    width,
                    height,
                    x,
                    y,
                    w,
                    h,
                );
                let ghost after = native@;
                self.native_2d.insert(resource_id, native);
                proof {
                    assert(self@.native_2d =~= old(self)@.native_2d.insert(resource_id, after));
                    assert(transferred(buffer, after, region@, x, y, w, h));
                    lemma_with_buffer(old(self)@, resource_id, after);
                }
            },
            None => {},
        }
        Ok(GpuResponse::OkNoData)
    }

    /// RESOURCE_CREATE_2D: a plain 2D buffer, which the device serves without
    /// the renderer. It starts black and without guest memory.
    pub fn resource_create_2d(
        &mut self,
        resource_id: u32,
        format: Option<ResourceFormat>,
        width: u32,
        height: u32,
    ) -> (result: VirtioGpuResult)
        requires
            old(self).wf(),
            4 * width * height <= isize::MAX,
        ensures
            final(self).wf(),
            result == Ok::<GpuResponse, GpuResponse>(GpuResponse::OkNoData),
            final(self)@ == old(self)@.with_buffer(
                resource_id,
                Native2d {
                    width,
                    height,
                    shadow: Seq::new((4 * width * height) as nat, |i: int| 0u8),
                    backing: Seq::empty(),
                },
            ).with_record(
                resource_id,
                VirtioGpuResource {
                    native_2d: true,
                    ..new_resource(resource_id, width, height, format, 0)
                },
            ),
    {
        let mut resource = VirtioGpuResource::new(resource_id, width, height, format, 0);
        resource.native_2d = true;
        proof {
            assert(0 <= 4 * width * height && width as int * 4 * height == 4 * width * height)
                by (nonlinear_arith);
        }
        let len: u64 = width as u64 * 4 * height as u64;
        let native = Native2dResource {
            width,
            height,
            shadow: vec![0u8; len as usize],
            backing: Vec::new(),
        };
        let ghost buffer = native@;
        self.native_2d.insert(resource_id, native);
        self.resources.insert(resource_id, resource);
        proof {
            assert(buffer.shadow =~= Seq::new((4 * width * height) as nat, |i: int| 0u8));
            assert(self@.native_2d =~= old(self)@.native_2d.insert(resource_id, buffer));
            lemma_with_buffer(old(self)@, resource_id, buffer);
            let middle = old(self)@.with_buffer(resource_id, buffer);
            assert forall|k: u32| #[trigger]
                self@.resources.contains_key(k) implies self@.record_wf(k) by {
                if k != resource_id {
                    assert(middle.resources.contains_key(k));
                    assert(middle.record_wf(k));
                }
            }
        }
        Ok(GpuResponse::OkNoData)
    }

    /// The planes of a resource as the renderer has them.
    fn result_from_query(&self, resource_id: u32) -> (result: GpuResponse)
        requires
            renderer_resources(self@.renderer).contains_key(resource_id),
        ensures
            query_answer(result, renderer_resources(self@.renderer)[resource_id].info_3d),
    {
        match renderer::query(&self.rutabaga, resource_id) {
            Ok(query) => {
                let mut plane_info: Vec<GpuResponsePlaneInfo> = Vec::with_capacity(4);
                let mut i: usize = 0;
                while i < 4
                    invariant
                        i <= 4,
                        plane_info@ == Seq::new(
                            i as nat,
                            |k: int|
                                GpuResponsePlaneInfo {
                                    stride: query.strides@[k],
                                    offset: query.offsets@[k],
                                },
                        ),
                    decreases 4 - i,
                {
                    plane_info.push(
                        GpuResponsePlaneInfo { stride: query.strides[i], offset: query.offsets[i] },
                    );
                    i = i + 1;
                }
                GpuResponse::OkResourcePlaneInfo { format_modifier: query.modifier, plane_info }
            },
            Err(_) => GpuResponse::OkNoData,
        }
    }

    /// RESOURCE_CREATE_3D: a resource of the renderer. `format` is what the
    /// scanouts make of its format.
    ///
    /// The renderer refuses an id that it knows.
    pub fn resource_create_3d(
        &mut self,
        resource_id: u32,
        resource_create_3d: ResourceCreate3D,
        format: Option<ResourceFormat>,
    ) -> (result: VirtioGpuResult)
        requires
            old(self).wf(),
            renderer_is_software(old(self)@.renderer) ==> software_creatable(resource_create_3d),
        ensures
            final(self).wf(),
            renderer_called(
                old(self)@.renderer,
                final(self)@.renderer,
                RendererCall::ResourceCreate3D {
                    resource_id,
                    args: resource_create_3d,
                    refusal: refused_with(result),
                },
            ),
            renderer_is_software(old(self)@.renderer) ==> (result is Ok <==> !renderer_resources(
                old(self)@.renderer,
            ).contains_key(resource_id)),
            match result {
                Ok(response) => old(self)@.created(
                    final(self)@,
                    resource_id,
                    new_resource(
                        resource_id,
                        resource_create_3d.width,
                        resource_create_3d.height,
                        format,
                        0,
                    ),
                    response,
                ),
                Err(response) => {
                    &&& response is ErrRutabaga
                    &&& final(self)@ == old(self)@.with_renderer(final(self)@.renderer)
                    &&& renderer_resources(final(self)@.renderer) == renderer_resources(
                        old(self)@.renderer,
                    )
                },
            },
    {
        match renderer::resource_create_3d(&mut self.rutabaga, resource_id, resource_create_3d) {
            Ok(()) => {},
            Err(e) => {
                proof {
                    lemma_same_tables(old(self)@, self@);
                    lemma_untold(self.contexts, old(self).rutabaga, self.rutabaga);
                }
                return Err(GpuResponse::ErrRutabaga(e));
            },
        }
        let resource = VirtioGpuResource::new(
            resource_id,
            resource_create_3d.width,
            resource_create_3d.height,
            format,
            0,
        );
        self.resources.insert(resource_id, resource);
        proof {
            lemma_created(old(self)@, self@, resource_id, resource);
            lemma_untold(self.contexts, old(self).rutabaga, self.rutabaga);
        }
        Ok(self.result_from_query(resource_id))
    }

    /// RESOURCE_CREATE_BLOB: a blob of the renderer. Unless it lives in host
    /// memory alone, the guest ranges `vecs` go with it.
    pub fn resource_create_blob(
        &mut self,
        ctx_id: u32,
        resource_id: u32,
        resource_create_blob: ResourceCreateBlob,
        vecs: Vec<(u64, usize)>,
        mem: &GuestMemoryMmap,
    ) -> (result: VirtioGpuResult)
        requires
            old(self).wf(),
            resource_create_blob.blob_flags & VIRTIO_GPU_BLOB_FLAG_CREATE_GUEST_HANDLE == 0,
            ctx_id != 0 ==> rings_sound(old(self)@.renderer, ctx_id),
        ensures
            final(self).wf(),
            ({
                let guest = resource_create_blob.blob_mem != VIRTIO_GPU_BLOB_MEM_HOST3D;
                if guest && !sglist_mapped(guest_regions(*mem), vecs@) {
                    &&& result == Err::<GpuResponse, GpuResponse>(GpuResponse::ErrUnspec)
                    &&& final(self)@ == old(self)@
                } else {
                    &&& renderer_called(
                        old(self)@.renderer,
                        final(self)@.renderer,
                        RendererCall::ResourceCreateBlob {
                            ctx_id,
                            resource_id,
                            blob: resource_create_blob,
                            backing: if guest {
                                Some(last_iovecs(final(self)@.renderer))
                            } else {
                                None
                            },
                            refusal: refused_with(result),
                        },
                    )
                    &&& guest ==> iovecs_of(*mem, last_iovecs(final(self)@.renderer), vecs@)
                    &&& match result {
                        Ok(response) => old(self)@.created(
                            final(self)@,
                            resource_id,
                            VirtioGpuResource {
                                blob: true,
                                ..new_resource(resource_id, 0, 0, None, resource_create_blob.size)
                            },
                            response,
                        ),
                        Err(response) => {
                            &&& response is ErrRutabaga
                            &&& final(self)@ == old(self)@.with_renderer(final(self)@.renderer)
                            &&& renderer_resources(final(self)@.renderer) == renderer_resources(
                                old(self)@.renderer,
                            )
                        },
                    }
                }
            }),
    {
        let mut rutabaga_iovecs: Option<Vec<RutabagaIovec>> = None;
        if resource_create_blob.blob_mem != VIRTIO_GPU_BLOB_MEM_HOST3D {
            match sglist_to_rutabaga_iovecs(vecs.as_slice(), mem) {
                Ok(iovecs) => {
                    rutabaga_iovecs = Some(iovecs);
                },
                Err(_) => {
                    return Err(GpuResponse::ErrUnspec);
                },
            }
        }
        match renderer::resource_create_blob(
            &mut self.rutabaga,
            ctx_id,
            resource_id,
            resource_create_blob,
            rutabaga_iovecs,
        ) {
            Ok(()) => {},
            Err(e) => {
                proof {
                    lemma_same_tables(old(self)@, self@);
                    lemma_untold(self.contexts, old(self).rutabaga, self.rutabaga);
                }
                return Err(GpuResponse::ErrRutabaga(e));
            },
        }
        let mut resource = VirtioGpuResource::new(
            resource_id,
            0,
            0,
            None,
            resource_create_blob.size,
        );
        resource.blob = true;
        self.resources.insert(resource_id, resource);
        let empty = vecs.len() == 0 && resource_create_blob.blob_mem != VIRTIO_GPU_BLOB_MEM_HOST3D;
        self.contexts.created_blob(
            resource_id,
            empty,
            Ghost(old(self).rutabaga),
            Ghost(self.rutabaga),
        );
        proof {
            lemma_created(old(self)@, self@, resource_id, resource);
        }
        Ok(self.result_from_query(resource_id))
    }

    /// RESOURCE_UNREF: drops a resource.
    ///
    /// A resource that a scanout shows is refused, but its record is gone all
    /// the same: later commands do not know the resource any more.
    pub fn unref_resource(&mut self, resource_id: u32) -> (result: VirtioGpuResult)
        requires
            old(self).wf(),
        ensures
            final(self).wf(),
            ({
                let s = old(self)@;
                let record = s.resources[resource_id];
                let gone = s.without_record(resource_id);
                if !s.resources.contains_key(resource_id) {
                    &&& result == Err::<GpuResponse, GpuResponse>(GpuResponse::ErrInvalidResourceId)
                    &&& final(self)@ == s
                } else if !record.scanouts.none() {
                    &&& result == Err::<GpuResponse, GpuResponse>(GpuResponse::ErrUnspec)
                    &&& final(self)@ == gone
                } else if record.native_2d {
                    &&& result == Ok::<GpuResponse, GpuResponse>(GpuResponse::OkNoData)
                    &&& final(self)@ == (GpuState {
                        native_2d: s.native_2d.remove(resource_id),
                        ..gone
                    })
                } else {
                    &&& done_by_renderer(result)
                    &&& !record.rutabaga_external_mapping ==> result is Ok
                    &&& final(self)@ == gone.with_renderer(final(self)@.renderer)
                    &&& unref_called(
                        s.renderer,
                        final(self)@.renderer,
                        resource_id,
                        record.rutabaga_external_mapping,
                        result,
                    )
                    &&& renderer_resources(final(self)@.renderer) == if result is Ok {
                        renderer_resources(s.renderer).remove(resource_id)
                    } else {
                        renderer_resources(s.renderer)
                    }
                }
            }),
    {
        let resource = match self.resources.remove(&resource_id) {
            Some(resource) => resource,
            None => {
                assert(self@.resources =~= old(self)@.resources);
                return Err(GpuResponse::ErrInvalidResourceId);
            },
        };
        proof {
            assert(old(self)@.record_wf(resource_id));
            lemma_removed(old(self)@, self@, resource_id);
        }
        if resource.scanouts.has_any_enabled() {
            return Err(GpuResponse::ErrUnspec);
        }
        if resource.native_2d {
            self.native_2d.remove(&resource_id);
            proof {
                assert(self@.native_2d =~= old(self)@.native_2d.remove(resource_id));
                lemma_removed(old(self)@, self@, resource_id);
            }
            return Ok(GpuResponse::OkNoData);
        }
        if resource.rutabaga_external_mapping {
            match renderer::unmap(&mut self.rutabaga, resource_id) {
                Ok(()) => {},
                Err(e) => {
                    proof {
                        lemma_removed(old(self)@, self@, resource_id);
                        lemma_untold(self.contexts, old(self).rutabaga, self.rutabaga);
                    }
                    return Err(GpuResponse::ErrRutabaga(e));
                },
            }
            proof {
                lemma_untold(self.contexts, old(self).rutabaga, self.rutabaga);
            }
        }
        let ghost unmapped = self.rutabaga;
        let result = renderer::unref_resource(&mut self.rutabaga, resource_id);
        proof {
            lemma_removed(old(self)@, self@, resource_id);
        }
        match result {
            Ok(()) => {
                self.contexts.detached(resource_id, Ghost(unmapped), Ghost(self.rutabaga));
                Ok(GpuResponse::OkNoData)
            },
            Err(e) => {
                proof {
                    lemma_untold(self.contexts, unmapped, self.rutabaga);
                }
                Err(GpuResponse::ErrRutabaga(e))
            },
        }
    }

    /// RESOURCE_ATTACH_BACKING: gives a resource its guest memory.
    ///
    /// A plain 2D buffer only keeps the ranges. For other resources the ranges
    /// are looked up in `mem` and handed to the renderer.
    pub fn attach_backing(
        &mut self,
        resource_id: u32,
        mem: &GuestMemoryMmap,
        vecs: Vec<(u64, usize)>,
    ) -> (result: VirtioGpuResult)
        requires
            old(self).wf(),
            old(self)@.native_2d.contains_key(resource_id) ==> backing_len(vecs@) <= usize::MAX,
        ensures
            final(self).wf(),
            if old(self)@.native_2d.contains_key(resource_id) {
                &&& result == Ok::<GpuResponse, GpuResponse>(GpuResponse::OkNoData)
                &&& final(self)@ == old(self)@.with_buffer(
                    resource_id,
                    Native2d { backing: vecs@, ..old(self)@.native_2d[resource_id] },
                )
            } else if !sglist_mapped(guest_regions(*mem), vecs@) {
                &&& result == Err::<GpuResponse, GpuResponse>(GpuResponse::ErrUnspec)
                &&& final(self)@ == old(self)@
            } else {
                &&& done_by_renderer(result)
                &&& old(self)@.called(
                    final(self)@,
                    RendererCall::AttachBacking {
                        resource_id,
                        iovecs: last_iovecs(final(self)@.renderer),
                        refusal: refused_with(result),
                    },
                )
                &&& iovecs_of(*mem, last_iovecs(final(self)@.renderer), vecs@)
                &&& result is Ok ==> renderer_resources(old(self)@.renderer).contains_key(
                    resource_id,
                )
            },
    {
        match self.native_2d.remove(&resource_id) {
            Some(mut native) => {
                assert(old(self)@.native_2d.contains_key(resource_id));
                native.backing = vecs;
                let ghost after = native@;
                self.native_2d.insert(resource_id, native);
                proof {
                    assert(self@.native_2d =~= old(self)@.native_2d.insert(resource_id, after));
                    lemma_with_buffer(old(self)@, resource_id, after);
                }
                return Ok(GpuResponse::OkNoData);
            },
            None => {
                assert(self@.native_2d =~= old(self)@.native_2d);
            },
        }
        let iovecs = match sglist_to_rutabaga_iovecs(vecs.as_slice(), mem) {
            Ok(iovecs) => iovecs,
            Err(_) => {
                return Err(GpuResponse::ErrUnspec);
            },
        };
        let result = renderer::attach_backing(&mut self.rutabaga, resource_id, iovecs);
        proof {
            lemma_same_tables(old(self)@, self@);
        }
        match result {
            Ok(()) => {
                self.contexts.attached(
                    resource_id,
                    vecs.len() == 0,
                    Ghost(old(self).rutabaga),
                    Ghost(self.rutabaga),
                );
                Ok(GpuResponse::OkNoData)
            },
            Err(e) => {
                proof {
                    lemma_untold(self.contexts, old(self).rutabaga, self.rutabaga);
                }
                Err(GpuResponse::ErrRutabaga(e))
            },
        }
    }

    /// RESOURCE_DETACH_BACKING: takes the guest memory from a resource.
    pub fn detach_backing(&mut self, resource_id: u32) -> (result: VirtioGpuResult)
        requires
            old(self).wf(),
        ensures
            final(self).wf(),
            if old(self)@.native_2d.contains_key(resource_id) {
                &&& result == Ok::<GpuResponse, GpuResponse>(GpuResponse::OkNoData)
                &&& final(self)@ == old(self)@.with_buffer(
                    resource_id,
                    Native2d { backing: Seq::empty(), ..old(self)@.native_2d[resource_id] },
                )
            } else {
                &&& done_by_renderer(result)
                &&& old(self)@.called(
                    final(self)@,
                    RendererCall::DetachBacking { resource_id, refusal: refused_with(result) },
                )
                &&& result is Ok <==> renderer_resources(old(self)@.renderer).contains_key(
                    resource_id,
                )
            },
    {
        match self.native_2d.remove(&resource_id) {
            Some(mut native) => {
                assert(old(self)@.native_2d.contains_key(resource_id));
                native.backing.clear();
                let ghost after = native@;
                self.native_2d.insert(resource_id, native);
                proof {
                    assert(self@.native_2d =~= old(self)@.native_2d.insert(resource_id, after));
                    lemma_with_buffer(old(self)@, resource_id, after);
                }
                return Ok(GpuResponse::OkNoData);
            },
            None => {
                assert(self@.native_2d =~= old(self)@.native_2d);
            },
        }
        let result = renderer::detach_backing(&mut self.rutabaga, resource_id);
        proof {
            lemma_same_tables(old(self)@, self@);
        }
        match result {
            Ok(()) => {
                self.contexts.detached(
                    resource_id,
                    Ghost(old(self).rutabaga),
                    Ghost(self.rutabaga),
                );
                Ok(GpuResponse::OkNoData)
            },
            Err(e) => {
                proof {
                    lemma_untold(self.contexts, old(self).rutabaga, self.rutabaga);
                }
                Err(GpuResponse::ErrRutabaga(e))
            },
        }
    }

    /// RESOURCE_MAP_BLOB, first half: decides how a blob gets to `offset` of the
    /// window.
    pub fn resource_map_blob(
        &mut self,
        resource_id: u32,
        shm_region: &VirtioShmRegion,
        offset: u64,
        mapping: BlobMapping,
    ) -> (result: Result<MapRequest, GpuResponse>)
        requires
            old(self).wf(),
        ensures
            final(self).wf(),
            old(self)@.map_blob(
                final(self)@,
                resource_id,
                *shm_region,
                offset,
                mapping,
                result,
            ),
    {
        let size: u64 = match self.resources.get(&resource_id) {
            Some(resource) => resource.size,
            None => {
                return Err(GpuResponse::ErrInvalidResourceId);
            },
        };
        let map_info: u32 = match renderer::map_info(&self.rutabaga, resource_id) {
            Ok(map_info) => map_info,
            Err(_) => {
                return Err(GpuResponse::ErrUnspec);
            },
        };
        let plan: Option<MapPlan>;
        let export: Option<ExportedBlob>;
        match mapping {
            BlobMapping::Descriptor => {
                export = self.export(resource_id);
                plan = plan_descriptor(size, map_info, handle_type_of(&export), shm_region, offset);
            },
            BlobMapping::Renderer => {
                match target_renderer(size, map_info, shm_region, offset) {
                    Ok((addr, prot)) => {
                        export = self.export(resource_id);
                        plan = Some(plan_renderer(size, addr, prot, handle_type_of(&export)));
                    },
                    Err(without_export) => {
                        export = None;
                        plan = without_export;
                    },
                }
            },
            BlobMapping::Hypervisor { map_ptr, handle_type } => {
                match map_ptr {
                    Some(ptr) => {
                        export = self.export(resource_id);
                        plan =
                        plan_hypervisor(
                            size,
                            ptr,
                            handle_type,
                            handle_type_of(&export),
                            shm_region,
                            offset,
                        );
                    },
                    None => {
                        return Err(GpuResponse::ErrUnspec);
                    },
                }
            },
        }
        match plan {
            Some(plan) => Ok(MapRequest { resource_id, offset, map_info, plan, export }),
            None => Err(GpuResponse::ErrUnspec),
        }
    }

    /// Exports a blob, if the renderer can.
    fn export(&mut self, resource_id: u32) -> (result: Option<ExportedBlob>)
        requires
            old(self).wf(),
        ensures
            final(self).wf(),
            export_type(result) == last_export(final(self)@.renderer),
            old(self)@.called(
                final(self)@,
                RendererCall::ExportBlob {
                    resource_id,
                    handle_type: last_export(final(self)@.renderer),
                },
            ),
    {
        let result = renderer::export_blob(&mut self.rutabaga, resource_id);
        proof {
            lemma_same_tables(old(self)@, self@);
            lemma_untold(self.contexts, old(self).rutabaga, self.rutabaga);
        }
        match result {
            Ok(export) => Some(export),
            Err(_) => None,
        }
    }

    /// RESOURCE_MAP_BLOB, second half: how the mapping went. Once the blob is
    /// mapped, the guest learns how it is cached.
    pub fn finish_map_blob(
        &mut self,
        request: &MapRequest,
        outcome: Result<(), GpuResponse>,
    ) -> (result: VirtioGpuResult)
        requires
            old(self).wf(),
            old(self)@.resources.contains_key(request.resource_id),
        ensures
            final(self).wf(),
            match outcome {
                Ok(()) => {
                    &&& result == Ok::<GpuResponse, GpuResponse>(
                        GpuResponse::OkMapInfo {
                            map_info: request.map_info & RUTABAGA_MAP_CACHE_MASK,
                        },
                    )
                    &&& final(self)@ == old(self)@.with_shmem_offset(
                        request.resource_id,
                        Some(request.offset),
                    )
                },
                Err(e) => {
                    &&& result == Err::<GpuResponse, GpuResponse>(e)
                    &&& final(self)@ == old(self)@
                },
            },
    {
        match outcome {
            Ok(()) => {
                self.set_shmem_offset(request.resource_id, Some(request.offset));
                Ok(GpuResponse::OkMapInfo { map_info: request.map_info & RUTABAGA_MAP_CACHE_MASK })
            },
            Err(e) => Err(e),
        }
    }

    /// Records where a blob is mapped.
    fn set_shmem_offset(&mut self, resource_id: u32, offset: Option<u64>)
        requires
            old(self).wf(),
            old(self)@.resources.contains_key(resource_id),
        ensures
            final(self).wf(),
            final(self)@ == old(self)@.with_shmem_offset(resource_id, offset),
    {
        match self.resources.get(&resource_id) {
            Some(resource) => {
                let mut resource = *resource;
                resource.shmem_offset = offset;
                proof {
                    lemma_with_record(self@, resource_id, resource);
                }
                self.resources.insert(resource_id, resource);
            },
            None => {},
        }
    }

    /// Where in the window a blob is mapped.
    pub fn shmem_offset(&self, resource_id: u32) -> (result: Option<u64>)
        ensures
            result == if self@.resources.contains_key(resource_id) {
                self@.resources[resource_id].shmem_offset
            } else {
                None
            },
    {
        match self.resources.get(&resource_id) {
            Some(resource) => resource.shmem_offset,
            None => None,
        }
    }

    /// RESOURCE_UNMAP_BLOB, first half: what has to be unmapped.
    pub fn resource_unmap_blob(
        &self,
        resource_id: u32,
        shm_region: &VirtioShmRegion,
        side: WindowSide,
    ) -> (result: Result<UnmapRequest, GpuResponse>)
        requires
            self@.resources.contains_key(resource_id) ==> (
            self@.resources[resource_id].shmem_offset matches Some(offset) ==> window_base(
                *shm_region,
                side,
            ) + offset <= u64::MAX),
        ensures
            result == if !self@.resources.contains_key(resource_id) {
                Err::<UnmapRequest, GpuResponse>(GpuResponse::ErrInvalidResourceId)
            } else {
                match self@.resources[resource_id].shmem_offset {
                    Some(offset) => Ok(
                        UnmapRequest {
                            resource_id,
                            addr: (window_base(*shm_region, side) + offset) as u64,
                            size: self@.resources[resource_id].size,
                        },
                    ),
                    None => Err(GpuResponse::ErrUnspec),
                }
            },
    {
        let resource = match self.resources.get(&resource_id) {
            Some(resource) => *resource,
            None => {
                return Err(GpuResponse::ErrInvalidResourceId);
            },
        };
        let offset: u64 = match resource.shmem_offset {
            Some(offset) => offset,
            None => {
                return Err(GpuResponse::ErrUnspec);
            },
        };
        let base: u64 = match side {
            WindowSide::Host => shm_region.host_addr,
            WindowSide::Guest => shm_region.guest_addr,
        };
        Ok(UnmapRequest { resource_id, addr: base + offset, size: resource.size })
    }

    /// RESOURCE_UNMAP_BLOB, second half: whether the blob is unmapped.
    pub fn finish_unmap_blob(&mut self, request: &UnmapRequest, unmapped: bool) -> (result:
        VirtioGpuResult)
        requires
            old(self).wf(),
            old(self)@.resources.contains_key(request.resource_id),
        ensures
            final(self).wf(),
            if unmapped {
                &&& result == Ok::<GpuResponse, GpuResponse>(GpuResponse::OkNoData)
                &&& final(self)@ == old(self)@.with_shmem_offset(request.resource_id, None)
            } else {
                &&& result == Err::<GpuResponse, GpuResponse>(GpuResponse::ErrUnspec)
                &&& final(self)@ == old(self)@
            },
    {
        if !unmapped {
            return Err(GpuResponse::ErrUnspec);
        }
        self.set_shmem_offset(request.resource_id, None);
        Ok(GpuResponse::OkNoData)
    }

    /// TRANSFER_FROM_HOST_3D: copies a resource of the renderer to `buf`, or without
    /// one to the guest memory of the resource.
    pub fn transfer_read(
        &mut self,
        ctx_id: u32,
        resource_id: u32,
        transfer: Transfer3D,
        buf: Option<&mut [u8]>,
    ) -> (result: VirtioGpuResult)
        requires
            old(self).wf(),
        ensures
            final(self).wf(),
            done_by_renderer(result),
            buf matches Some(out) ==> final(out)@.len() == out@.len(),
            old(self)@.called(
                final(self)@,
                RendererCall::TransferRead {
                    ctx_id,
                    resource_id,
                    transfer,
                    output: match buf {
                        Some(out) => Some(final(out)@),
                        None => None,
                    },
                    refusal: refused_with(result),
                },
            ),
            result is Ok ==> renderer_resources(old(self)@.renderer).contains_key(resource_id),
    {
        let result = renderer::transfer_read(
            &mut self.rutabaga,
            ctx_id,
            resource_id,
            transfer,
            buf,
        );
        proof {
            lemma_same_tables(old(self)@, self@);
            lemma_untold(self.contexts, old(self).rutabaga, self.rutabaga);
        }
        match result {
            Ok(()) => Ok(GpuResponse::OkNoData),
            Err(e) => Err(GpuResponse::ErrRutabaga(e)),
        }
    }

    /// TRANSFER_TO_HOST_3D: copies guest memory to a resource of the renderer.
    pub fn transfer_write(
        &mut self,
        ctx_id: u32,
        resource_id: u32,
        transfer: Transfer3D,
    ) -> (result: VirtioGpuResult)
        requires
            old(self).wf(),
            renderer_is_software(old(self)@.renderer) ==> software_transferable(transfer),
        ensures
            final(self).wf(),
            done_by_renderer(result),
            old(self)@.called(
                final(self)@,
                RendererCall::TransferWrite {
                    ctx_id,
                    resource_id,
                    transfer,
                    refusal: refused_with(result),
                },
            ),
            result is Ok ==> renderer_resources(old(self)@.renderer).contains_key(resource_id),
    {
        let result = renderer::transfer_write(&mut self.rutabaga, ctx_id, resource_id, transfer);
        proof {
            lemma_same_tables(old(self)@, self@);
            lemma_untold(self.contexts, old(self).rutabaga, self.rutabaga);
        }
        match result {
            Ok(()) => Ok(GpuResponse::OkNoData),
            Err(e) => Err(GpuResponse::ErrRutabaga(e)),
        }
    }

    /// CTX_CREATE: creates a context of the renderer.
    pub fn create_context(
        &mut self,
        ctx_id: u32,
        context_init: u32,
        context_name: Option<&str>,
    ) -> (result: VirtioGpuResult)
        requires
            old(self).wf(),
        ensures
            final(self).wf(),
            done_by_renderer(result),
            final(self)@ == old(self)@.with_renderer(final(self)@.renderer),
            renderer_called(
                old(self)@.renderer,
                final(self)@.renderer,
                RendererCall::CreateContext {
                    ctx_id,
                    context_init,
                    name: match context_name {
                        Some(name) => Some(name@),
                        None => None,
                    },
                    refusal: refused_with(result),
                },
            ),
            renderer_resources(final(self)@.renderer) == renderer_resources(old(self)@.renderer),
            match result {
                Ok(_) => {
                    &&& !renderer_contexts(old(self)@.renderer).contains(ctx_id)
                    &&& renderer_contexts(final(self)@.renderer) == renderer_contexts(
                        old(self)@.renderer,
                    ).insert(ctx_id)
                },
                Err(_) => same_contexts(old(self)@.renderer, final(self)@.renderer),
            },
            forall|k: u32| #[trigger]
                is_cross_domain(final(self)@.renderer, k) == (is_cross_domain(
                    old(self)@.renderer,
                    k,
                ) || (k == ctx_id && result is Ok && is_cross_domain_init(
                    context_init,
                    renderer_cross_default(old(self)@.renderer),
                ))),
    {
        let result = renderer::create_context(
            &mut self.rutabaga,
            ctx_id,
            context_init,
            context_name,
        );
        proof {
            lemma_same_tables(old(self)@, self@);
            lemma_last(old(self).rutabaga, self.rutabaga);
        }
        match result {
            Ok(()) => {
                self.contexts.created_context(
                    ctx_id,
                    context_init,
                    Ghost(old(self).rutabaga),
                    Ghost(self.rutabaga),
                );
                Ok(GpuResponse::OkNoData)
            },
            Err(e) => {
                proof {
                    lemma_untold(self.contexts, old(self).rutabaga, self.rutabaga);
                }
                Err(GpuResponse::ErrRutabaga(e))
            },
        }
    }

    /// CTX_DESTROY: destroys a context of the renderer.
    pub fn destroy_context(&mut self, ctx_id: u32) -> (result: VirtioGpuResult)
        requires
            old(self).wf(),
        ensures
            final(self).wf(),
            done_by_renderer(result),
            final(self)@ == old(self)@.with_renderer(final(self)@.renderer),
            renderer_called(
                old(self)@.renderer,
                final(self)@.renderer,
                RendererCall::DestroyContext { ctx_id, refusal: refused_with(result) },
            ),
            renderer_resources(final(self)@.renderer) == renderer_resources(old(self)@.renderer),
            result is Ok <==> renderer_contexts(old(self)@.renderer).contains(ctx_id),
            renderer_contexts(final(self)@.renderer) == renderer_contexts(
                old(self)@.renderer,
            ).remove(ctx_id),
            forall|k: u32| #[trigger]
                is_cross_domain(final(self)@.renderer, k) == (is_cross_domain(
                    old(self)@.renderer,
                    k,
                ) && !(k == ctx_id && result is Ok)),
    {
        let result = renderer::destroy_context(&mut self.rutabaga, ctx_id);
        proof {
            lemma_same_tables(old(self)@, self@);
            lemma_last(old(self).rutabaga, self.rutabaga);
        }
        match result {
            Ok(()) => {
                self.contexts.destroyed_context(
                    ctx_id,
                    Ghost(old(self).rutabaga),
                    Ghost(self.rutabaga),
                );
                Ok(GpuResponse::OkNoData)
            },
            Err(e) => {
                proof {
                    lemma_untold(self.contexts, old(self).rutabaga, self.rutabaga);
                }
                Err(GpuResponse::ErrRutabaga(e))
            },
        }
    }

    /// CTX_ATTACH_RESOURCE: gives a context the use of a resource.
    pub fn context_attach_resource(&mut self, ctx_id: u32, resource_id: u32) -> (result:
        VirtioGpuResult)
        requires
            old(self).wf(),
            rings_sound(old(self)@.renderer, ctx_id),
        ensures
            final(self).wf(),
            done_by_renderer(result),
            old(self)@.called(
                final(self)@,
                RendererCall::ContextAttachResource {
                    ctx_id,
                    resource_id,
                    refusal: refused_with(result),
                },
            ),
            result is Ok <==> renderer_contexts(old(self)@.renderer).contains(ctx_id)
                && renderer_resources(old(self)@.renderer).contains_key(resource_id),
    {
        let result = renderer::context_attach_resource(&mut self.rutabaga, ctx_id, resource_id);
        proof {
            lemma_same_tables(old(self)@, self@);
        }
        match result {
            Ok(()) => {
                self.contexts.attached_resource(
                    ctx_id,
                    resource_id,
                    Ghost(old(self).rutabaga),
                    Ghost(self.rutabaga),
                );
                Ok(GpuResponse::OkNoData)
            },
            Err(e) => {
                proof {
                    lemma_untold(self.contexts, old(self).rutabaga, self.rutabaga);
                }
                Err(GpuResponse::ErrRutabaga(e))
            },
        }
    }

    /// CTX_DETACH_RESOURCE: takes the use of a resource from a context.
    pub fn context_detach_resource(&mut self, ctx_id: u32, resource_id: u32) -> (result:
        VirtioGpuResult)
        requires
            old(self).wf(),
            rings_sound(old(self)@.renderer, ctx_id),
        ensures
            final(self).wf(),
            done_by_renderer(result),
            old(self)@.called(
                final(self)@,
                RendererCall::ContextDetachResource {
                    ctx_id,
                    resource_id,
                    refusal: refused_with(result),
                },
            ),
            result is Ok <==> renderer_contexts(old(self)@.renderer).contains(ctx_id)
                && renderer_resources(old(self)@.renderer).contains_key(resource_id),
    {
        let result = renderer::context_detach_resource(&mut self.rutabaga, ctx_id, resource_id);
        proof {
            lemma_same_tables(old(self)@, self@);
            lemma_untold(self.contexts, old(self).rutabaga, self.rutabaga);
        }
        match result {
            Ok(()) => Ok(GpuResponse::OkNoData),
            Err(e) => Err(GpuResponse::ErrRutabaga(e)),
        }
    }

    /// Whether a context can be given and deprived of resources.
    pub fn rings_sound(&self, ctx_id: u32) -> (result: bool)
        requires
            self.wf(),
        ensures
            result == rings_sound(self@.renderer, ctx_id),
    {
        self.contexts.rings_sound(ctx_id, Ghost(self.rutabaga))
    }

    /// SUBMIT_3D where the context can be handed the command buffer, and else
    /// nothing.
    pub fn try_submit_command(
        &mut self,
        ctx_id: u32,
        commands: &mut [u8],
        fence_ids: &[u64],
    ) -> (result: Option<VirtioGpuResult>)
        requires
            old(self).wf(),
        ensures
            final(self).wf(),
            final(commands)@.len() == old(commands)@.len(),
            result is Some <==> submittable(
                old(self)@.renderer,
                ctx_id,
                old(commands)@,
                fence_ids@,
            ),
            match result {
                Some(result) => {
                    &&& done_by_renderer(result)
                    &&& old(self)@.called(
                        final(self)@,
                        RendererCall::SubmitCommand {
                            ctx_id,
                            commands: old(commands)@,
                            fence_ids: fence_ids@,
                            refusal: refused_with(result),
                        },
                    )
                    &&& result is Ok ==> renderer_contexts(old(self)@.renderer).contains(ctx_id)
                },
                None => {
                    &&& final(self)@ == old(self)@
                    &&& final(commands)@ == old(commands)@
                },
            },
    {
        if !self.contexts.submittable(ctx_id, commands, fence_ids, Ghost(self.rutabaga)) {
            return None;
        }
        Some(self.submit_command(ctx_id, commands, fence_ids))
    }

    /// SUBMIT_3D: hands a command buffer to a context, which may use it as scratch
    /// space.
    pub fn submit_command(
        &mut self,
        ctx_id: u32,
        commands: &mut [u8],
        fence_ids: &[u64],
    ) -> (result: VirtioGpuResult)
        requires
            old(self).wf(),
            submittable(old(self)@.renderer, ctx_id, old(commands)@, fence_ids@),
        ensures
            final(self).wf(),
            final(commands)@.len() == old(commands)@.len(),
            done_by_renderer(result),
            old(self)@.called(
                final(self)@,
                RendererCall::SubmitCommand {
                    ctx_id,
                    commands: old(commands)@,
                    fence_ids: fence_ids@,
                    refusal: refused_with(result),
                },
            ),
            result is Ok ==> renderer_contexts(old(self)@.renderer).contains(ctx_id),
    {
        let unread = fence_ids.len() > 0;
        let opened_if_done = !unread && check_open(commands, true);
        let opened_if_refused = !unread && check_open(commands, false);
        let result = renderer::submit_command(&mut self.rutabaga, ctx_id, commands, fence_ids);
        let opened = if result.is_ok() {
            opened_if_done
        } else {
            opened_if_refused
        };
        proof {
            lemma_same_tables(old(self)@, self@);
        }
        self.contexts.submitted(
            ctx_id,
            opened,
            Ghost(old(self).rutabaga),
            Ghost(self.rutabaga),
        );
        match result {
            Ok(()) => Ok(GpuResponse::OkNoData),
            Err(e) => Err(GpuResponse::ErrRutabaga(e)),
        }
    }

    /// Asks the renderer for a fence behind what has been submitted.
    pub fn create_fence(&mut self, rutabaga_fence: GpuFence) -> (result: VirtioGpuResult)
        requires
            old(self).wf(),
        ensures
            final(self).wf(),
            done_by_renderer(result),
            old(self)@.called(
                final(self)@,
                RendererCall::CreateFence { fence: rutabaga_fence, refusal: refused_with(result) },
            ),
            rutabaga_fence.flags & VIRTIO_GPU_FLAG_INFO_RING_IDX != 0 && result is Ok
                ==> renderer_contexts(old(self)@.renderer).contains(rutabaga_fence.ctx_id),
            rutabaga_fence.flags & VIRTIO_GPU_FLAG_INFO_RING_IDX == 0 && renderer_is_software(
                old(self)@.renderer,
            ) ==> result is Ok,
    {
        let result = renderer::create_fence(&mut self.rutabaga, rutabaga_fence);
        proof {
            lemma_same_tables(old(self)@, self@);
            lemma_untold(self.contexts, old(self).rutabaga, self.rutabaga);
        }
        match result {
            Ok(()) => Ok(GpuResponse::OkNoData),
            Err(e) => Err(GpuResponse::ErrRutabaga(e)),
        }
    }

    /// Takes in a request with a fence: `true` where it is complete already,
    /// `false` where the request waits in `fence_state`.
    pub fn process_fence(
        &self,
        fence_state: &mut FenceState,
        ring: VirtioGpuRing,
        fence_id: u64,
        desc_index: u16,
        len: u32,
    ) -> (result: bool)
        ensures
            result == (fence_id <= old(fence_state).completed(ring)),
            final(fence_state).descs() == if result {
                old(fence_state).descs()
            } else {
                old(fence_state).descs().push(FenceDescriptor { ring, fence_id, desc_index, len })
            },
            forall|r: VirtioGpuRing| #[trigger]
                final(fence_state).completed(r) == old(fence_state).completed(r),
            old(fence_state).wf() ==> final(fence_state).wf(),
    {
        fence_state.process_fence(ring, fence_id, desc_index, len)
    }

    /// Makes the renderer current on its reserved context.
    pub fn force_ctx_0(&self) {
        renderer::force_ctx_0(&self.rutabaga)
    }

    /// Whether a resource is a plain 2D buffer.
    pub fn is_native_2d(&self, resource_id: u32) -> (result: bool)
        ensures
            result == self@.native_2d.contains_key(resource_id),
    {
        self.native_2d.contains_key(&resource_id)
    }

    /// GET_DISPLAY_INFO: the screens, all of them enabled.
    pub fn display_info(&self) -> (result: VirtioGpuResult)
        ensures
            result matches Ok(GpuResponse::OkDisplayInfo(info)) && info@ == Seq::new(
                self@.displays.len(),
                |i: int| (self@.displays[i].width, self@.displays[i].height, true),
            ),
    {
        let mut info: Vec<(u32, u32, bool)> = Vec::new();
        let mut i: usize = 0;
        while i < self.displays.len()
            invariant
                i <= self.displays@.len(),
                info@ == Seq::new(
                    i as nat,
                    |k: int| (self@.displays[k].width, self@.displays[k].height, true),
                ),
            decreases self.displays.len() - i,
        {
            info.push((self.displays[i].width, self.displays[i].height, true));
            i = i + 1;
        }
        Ok(GpuResponse::OkDisplayInfo(info))
    }

    /// GET_EDID: the description of a screen.
    pub fn get_edid(&self, scanout_id: u32) -> (result: VirtioGpuResult)
        ensures
            if scanout_id < self@.displays.len() {
                result matches Ok(GpuResponse::OkEdid(edid)) && edid@
                    == self@.displays[scanout_id as int].edid
            } else {
                result == Err::<GpuResponse, GpuResponse>(GpuResponse::ErrInvalidScanoutId)
            },
    {
        if scanout_id as usize >= self.displays.len() {
            return Err(GpuResponse::ErrInvalidScanoutId);
        }
        let edid = self.displays[scanout_id as usize].edid.clone();
        assert(edid@ =~= self.displays@[scanout_id as int].edid@);
        Ok(GpuResponse::OkEdid(edid))
    }

    /// RESOURCE_ASSIGN_UUID: a uuid that is the resource id, most significant
    /// byte first, behind zeros.
    pub fn resource_assign_uuid(&self, resource_id: u32) -> (result: VirtioGpuResult)
        ensures
            if self@.resources.contains_key(resource_id) {
                result matches Ok(GpuResponse::OkResourceUuid { uuid }) && uuid@ == uuid_of(
                    resource_id,
                )
            } else {
                result == Err::<GpuResponse, GpuResponse>(GpuResponse::ErrInvalidResourceId)
            },
    {
        if !self.resources.contains_key(&resource_id) {
            return Err(GpuResponse::ErrInvalidResourceId);
        }
        let mut uuid: [u8; 16] = [0; 16];
        uuid[12] = (resource_id / 0x100_0000) as u8;
        uuid[13] = ((resource_id / 0x1_0000) % 0x100) as u8;
        uuid[14] = ((resource_id / 0x100) % 0x100) as u8;
        uuid[15] = (resource_id % 0x100) as u8;
        assert(uuid@ =~= uuid_of(resource_id));
        Ok(GpuResponse::OkResourceUuid { uuid })
    }

    /// GET_CAPSET_INFO: what the renderer tells of its capability set `index`.
    pub fn get_capset_info(&self, index: u32) -> (result: VirtioGpuResult)
        ensures
            match result {
                Ok(response) => {
                    &&& response matches GpuResponse::OkCapsetInfo { capset_id, version, size }
                    &&& capset_info_seen(
                        self@.renderer,
                        index,
                        Ok((capset_id, version, size)),
                    )
                },
                Err(response) => {
                    &&& response is ErrRutabaga
                    &&& capset_info_seen(self@.renderer, index, Err(response->ErrRutabaga_0))
                },
            },
    {
        match renderer::get_capset_info(&self.rutabaga, index) {
            Ok((capset_id, version, size)) => Ok(
                GpuResponse::OkCapsetInfo { capset_id, version, size },
            ),
            Err(e) => Err(GpuResponse::ErrRutabaga(e)),
        }
    }

    /// GET_CAPSET: a capability set of the renderer.
    pub fn get_capset(&self, capset_id: u32, version: u32) -> (result: VirtioGpuResult)
        requires
            self.wf(),
        ensures
            match result {
                Ok(response) => {
                    &&& response matches GpuResponse::OkCapset(capset)
                    &&& capset_seen(self@.renderer, capset_id, version, Ok(capset@))
                },
                Err(response) => {
                    &&& response is ErrRutabaga
                    &&& capset_seen(
                        self@.renderer,
                        capset_id,
                        version,
                        Err(response->ErrRutabaga_0),
                    )
                },
            },
    {
        match renderer::get_capset(&self.rutabaga, capset_id, version) {
            Ok(capset) => Ok(GpuResponse::OkCapset(capset)),
            Err(e) => Err(GpuResponse::ErrRutabaga(e)),
        }
    }
}

/// The type of an exported blob.
fn handle_type_of(export: &Option<ExportedBlob>) -> (result: Option<u32>)
    ensures
        result == export_type(*export),
{
    match export {
        Some(export) => Some(export.handle_type),
        None => None,
    }
}

/// Where the host sees a blob, given what the renderer answered.
pub fn blob_source(mapping: Option<RutabagaMapping>, map_ptr: Option<u64>, size: u64) -> (result:
    Option<(u64, u64)>)
    ensures
        result == blob_source_spec(mapping, map_ptr, size),
{
    let (ptr, len): (u64, u64) = match mapping {
        Some(mapping) => (mapping.ptr, mapping.size),
        None => match map_ptr {
            Some(ptr) => (ptr, size),
            None => {
                return None;
            },
        },
    };
    if ptr == 0 || len == 0 {
        None
    } else {
        Some((ptr, len))
    }
}

/// Buffers and screens are told apart as they are kept: each buffer under its id,
/// each screen in its place.
pub proof fn law_tables_keep_their_order(
    buffers: Map<u32, Native2dResource>,
    displays: Seq<DisplayInfo>,
    id: u32,
    i: int,
)
    ensures
        native_view(buffers).contains_key(id) <==> buffers.contains_key(id),
        buffers.contains_key(id) ==> native_view(buffers)[id] == buffers[id]@,
        display_view(displays).len() == displays.len(),
        0 <= i < displays.len() ==> display_view(displays)[i] == displays[i]@,
{
}

} // verus!
