//! The boundary to the 3D renderer, `rutabaga_gfx::Rutabaga`.
//!
//! The renderer is opaque. A few names say what the contracts need to know of
//! one: the resources and the contexts that it holds, the calls that have been
//! made on it, and how it was built. Every function here makes one call and
//! states what that call does to them.

use crate::contexts::{rings_sound, submittable};
use crate::protocol::VIRTIO_GPU_FLAG_INFO_RING_IDX;
use rutabaga_gfx::{Rutabaga, RutabagaError, RutabagaHandle, RutabagaIovec};
use std::io::IoSliceMut;
use vstd::prelude::*;

verus! {

/// The renderer, held and lent but never opened.
#[verifier::external_type_specification]
#[verifier::external_body]
pub struct ExRutabaga(rutabaga_gfx::Rutabaga);

/// An exported memory object, carried to the code that maps it.
#[verifier::external_type_specification]
#[verifier::external_body]
pub struct ExRutabagaHandle(rutabaga_gfx::RutabagaHandle);

/// A host pointer and a length.
#[verifier::external_type_specification]
#[verifier::external_body]
pub struct ExRutabagaIovec(rutabaga_gfx::RutabagaIovec);

/// How a 3D resource is created.
#[derive(Clone, Copy, Debug, PartialEq, Eq, Structural)]
pub struct ResourceCreate3D {
    pub target: u32,
    pub format: u32,
    pub bind: u32,
    pub width: u32,
    pub height: u32,
    pub depth: u32,
    pub array_size: u32,
    pub last_level: u32,
    pub nr_samples: u32,
    pub flags: u32,
}

/// How a blob resource is created.
#[derive(Clone, Copy, Debug, PartialEq, Eq, Structural)]
pub struct ResourceCreateBlob {
    pub blob_mem: u32,
    pub blob_flags: u32,
    pub blob_id: u64,
    pub size: u64,
}

/// A box of texels and its layout in a linear buffer.
#[derive(Clone, Copy, Debug, PartialEq, Eq, Structural)]
pub struct Transfer3D {
    pub x: u32,
    pub y: u32,
    pub z: u32,
    pub w: u32,
    pub h: u32,
    pub d: u32,
    pub level: u32,
    pub stride: u32,
    pub layer_stride: u32,
    pub offset: u64,
}

/// A fence of the renderer.
#[derive(Clone, Copy, Debug, PartialEq, Eq, Structural)]
pub struct GpuFence {
    pub flags: u32,
    pub fence_id: u64,
    pub ctx_id: u32,
    pub ring_idx: u8,
}

/// The plane layout of a resource.
#[derive(Clone, Copy, Debug, PartialEq, Eq)]
pub struct Resource3DInfo {
    pub strides: [u32; 4],
    pub offsets: [u32; 4],
    pub modifier: u64,
}

/// Where the host sees a mapped blob.
#[derive(Clone, Copy, Debug, PartialEq, Eq, Structural)]
pub struct RutabagaMapping {
    pub ptr: u64,
    pub size: u64,
}

/// An exported blob: the handle, and the type of memory behind it.
pub struct ExportedBlob {
    pub handle: RutabagaHandle,
    pub handle_type: u32,
}

/// What the renderer makes of a flush.
#[derive(Debug)]
pub enum FlushReply {
    /// The resource is on the display.
    Flushed,
    /// The renderer has no way to flush.
    Unsupported,
    /// The renderer refused.
    Refused(RutabagaError),
}

/// What the renderer keeps of a resource, as far as the device asks for it.
pub struct RendererResource {
    pub info_3d: Option<Resource3DInfo>,
    pub map_info: Option<u32>,
}

/// A call on the renderer with its arguments and what came of it: what it has
/// given where there is anything, or the error with which it was refused.
pub enum RendererCall {
    CreateFence { fence: GpuFence, refusal: Option<RutabagaError> },
    ResourceCreate3D { resource_id: u32, args: ResourceCreate3D, refusal: Option<RutabagaError> },
    ResourceCreateBlob {
        ctx_id: u32,
        resource_id: u32,
        blob: ResourceCreateBlob,
        backing: Option<Seq<RutabagaIovec>>,
        refusal: Option<RutabagaError>,
    },
    AttachBacking { resource_id: u32, iovecs: Seq<RutabagaIovec>, refusal: Option<RutabagaError> },
    DetachBacking { resource_id: u32, refusal: Option<RutabagaError> },
    UnrefResource { resource_id: u32, refusal: Option<RutabagaError> },
    TransferWrite {
        ctx_id: u32,
        resource_id: u32,
        transfer: Transfer3D,
        refusal: Option<RutabagaError>,
    },
    TransferRead {
        ctx_id: u32,
        resource_id: u32,
        transfer: Transfer3D,
        output: Option<Seq<u8>>,
        refusal: Option<RutabagaError>,
    },
    ResourceFlush { resource_id: u32, outcome: FlushReply },
    MapBlob { resource_id: u32, mapping: Option<RutabagaMapping> },
    UnmapBlob { resource_id: u32, refusal: Option<RutabagaError> },
    ExportBlob { resource_id: u32, handle_type: Option<u32> },
    CreateContext {
        ctx_id: u32,
        context_init: u32,
        name: Option<Seq<char>>,
        refusal: Option<RutabagaError>,
    },
    DestroyContext { ctx_id: u32, refusal: Option<RutabagaError> },
    ContextAttachResource { ctx_id: u32, resource_id: u32, refusal: Option<RutabagaError> },
    ContextDetachResource { ctx_id: u32, resource_id: u32, refusal: Option<RutabagaError> },
    SubmitCommand {
        ctx_id: u32,
        commands: Seq<u8>,
        fence_ids: Seq<u64>,
        refusal: Option<RutabagaError>,
    },
}

/// The error of a call that was refused.
pub open spec fn refusal_of(result: Result<(), RutabagaError>) -> Option<RutabagaError> {
    match result {
        Ok(_) => None,
        Err(e) => Some(e),
    }
}

/// The resources that the renderer holds, by id.
pub uninterp spec fn renderer_resources(renderer: Rutabaga) -> Map<u32, RendererResource>;

/// The contexts that the renderer holds, by id.
pub uninterp spec fn renderer_contexts(renderer: Rutabaga) -> Set<u32>;

/// The calls that have changed the renderer since it was built, oldest first.
pub uninterp spec fn renderer_calls(renderer: Rutabaga) -> Seq<RendererCall>;

/// Whether the renderer has the software component as its default.
pub uninterp spec fn renderer_is_software(renderer: Rutabaga) -> bool;

/// Whether the renderer has the cross-domain component as its default.
pub uninterp spec fn renderer_cross_default(renderer: Rutabaga) -> bool;

/// The types of the channels that the renderer was built with.
pub uninterp spec fn renderer_channel_types(renderer: Rutabaga) -> Seq<u32>;

/// `reply` is what a call of `get_capset_info` with `index` has given.
pub uninterp spec fn capset_info_seen(
    renderer: Rutabaga,
    index: u32,
    reply: Result<(u32, u32, u32), RutabagaError>,
) -> bool;

/// `reply` is what a call of `get_capset` with `capset_id` and `version` has
/// given.
pub uninterp spec fn capset_seen(
    renderer: Rutabaga,
    capset_id: u32,
    version: u32,
    reply: Result<Seq<u8>, RutabagaError>,
) -> bool;

/// `after` was built like `before`.
pub open spec fn same_build(before: Rutabaga, after: Rutabaga) -> bool {
    &&& renderer_is_software(after) == renderer_is_software(before)
    &&& renderer_cross_default(after) == renderer_cross_default(before)
    &&& renderer_channel_types(after) == renderer_channel_types(before)
}

/// `after` is `before` with `call` made on it.
pub open spec fn renderer_called(before: Rutabaga, after: Rutabaga, call: RendererCall) -> bool {
    &&& renderer_calls(after) == renderer_calls(before).push(call)
    &&& same_build(before, after)
}

/// `after` holds the contexts of `before`.
pub open spec fn same_contexts(before: Rutabaga, after: Rutabaga) -> bool {
    renderer_contexts(after) == renderer_contexts(before)
}

/// Whether the channel types of a renderer are bits of one word, as it tells
/// them to the guest.
pub open spec fn channel_types_fit(renderer: Rutabaga) -> bool {
    forall|i: int|
        0 <= i < renderer_channel_types(renderer).len() ==> #[trigger] renderer_channel_types(
            renderer,
        )[i] < 32
}

/// `after` holds the contexts and resources of `before` and, where `ok`, the new
/// resource `resource_id`.
pub open spec fn renderer_created(
    before: Rutabaga,
    after: Rutabaga,
    resource_id: u32,
    ok: bool,
) -> bool {
    &&& same_contexts(before, after)
    &&& if ok {
        &&& !renderer_resources(before).contains_key(resource_id)
        &&& renderer_resources(after).contains_key(resource_id)
        &&& renderer_resources(after).remove(resource_id) == renderer_resources(before)
    } else {
        renderer_resources(after) == renderer_resources(before)
    }
}

/// `after` holds the contexts and resources of `before`, among them the resource
/// `resource_id` where `ok`.
pub open spec fn renderer_used(
    before: Rutabaga,
    after: Rutabaga,
    resource_id: u32,
    ok: bool,
) -> bool {
    &&& same_contexts(before, after)
    &&& renderer_resources(after) == renderer_resources(before)
    &&& ok ==> renderer_resources(before).contains_key(resource_id)
}

/// What a software renderer can create without overflow: it computes four
/// bytes per pixel, a row in 32 bits and the whole as one allocation.
pub open spec fn software_creatable(args: ResourceCreate3D) -> bool {
    &&& 4 * args.width <= u32::MAX
    &&& 4 * args.width * args.height <= isize::MAX
}

/// The transfers whose start a software renderer can compute without overflow.
pub open spec fn software_transferable(transfer: Transfer3D) -> bool {
    transfer.offset + transfer.y * u32::MAX + u32::MAX <= u64::MAX
}

/// Calls `Rutabaga::force_ctx_0`, which makes the renderer current on its
/// reserved context. It returns nothing and changes no resource.
#[verifier::external_body]
pub(crate) fn force_ctx_0(renderer: &Rutabaga) {
    renderer.force_ctx_0()
}

/// Calls `Rutabaga::get_capset_info`. What the renderer's component reports is
/// up to the graphics library of the host: only that this reply was given for
/// `index` is claimed.
#[verifier::external_body]
pub(crate) fn get_capset_info(renderer: &Rutabaga, index: u32) -> (result: Result<
    (u32, u32, u32),
    RutabagaError,
>)
    ensures
        capset_info_seen(*renderer, index, result),
{
    renderer.get_capset_info(index)
}

/// Calls `Rutabaga::get_capset`. As with `get_capset_info`, only that this
/// reply was given for these arguments is claimed. The cross-domain component
/// shifts a bit by the type of each channel.
#[verifier::external_body]
pub(crate) fn get_capset(renderer: &Rutabaga, capset_id: u32, version: u32) -> (result: Result<
    Vec<u8>,
    RutabagaError,
>)
    requires
        channel_types_fit(*renderer),
    ensures
        match result {
            Ok(capset) => capset_seen(*renderer, capset_id, version, Ok(capset@)),
            Err(e) => capset_seen(*renderer, capset_id, version, Err(e)),
        },
{
    renderer.get_capset(capset_id, version)
}

/// Calls `Rutabaga::create_fence` with `fence`. The call touches neither
/// resources nor contexts. A fence on a ring of a context needs that context; a
/// software renderer grants every other fence.
#[verifier::external_body]
pub(crate) fn create_fence(renderer: &mut Rutabaga, fence: GpuFence) -> (result: Result<
    (),
    RutabagaError,
>)
    ensures
        renderer_calls(*final(renderer)) == renderer_calls(*old(renderer)).push(
            RendererCall::CreateFence { fence, refusal: refusal_of(result) },
        ),
        renderer_is_software(*final(renderer)) == renderer_is_software(*old(renderer)),
        renderer_cross_default(*final(renderer)) == renderer_cross_default(*old(renderer)),
        renderer_channel_types(*final(renderer)) == renderer_channel_types(*old(renderer)),
        renderer_resources(*final(renderer)) == renderer_resources(*old(renderer)),
        same_contexts(*old(renderer), *final(renderer)),
        fence.flags & VIRTIO_GPU_FLAG_INFO_RING_IDX != 0 && result is Ok ==> renderer_contexts(
            *old(renderer),
        ).contains(fence.ctx_id),
        fence.flags & VIRTIO_GPU_FLAG_INFO_RING_IDX == 0 && renderer_is_software(*old(renderer))
            ==> result is Ok,
{
    renderer.create_fence(rutabaga_gfx::RutabagaFence {
        flags: fence.flags,
        fence_id: fence.fence_id,
        ctx_id: fence.ctx_id,
        ring_idx: fence.ring_idx,
    })
}

/// Calls `Rutabaga::resource_create_3d`. On success the renderer holds the new
/// resource, which it did not hold before, beside the old ones; on failure it
/// holds what it held. An id that is taken is therefore refused. A software
/// renderer refuses nothing else, and knows neither planes nor mappings.
#[verifier::external_body]
pub(crate) fn resource_create_3d(
    renderer: &mut Rutabaga,
    resource_id: u32,
    args: ResourceCreate3D,
) -> (result: Result<(), RutabagaError>)
    requires
        renderer_is_software(*old(renderer)) ==> software_creatable(args),
    ensures
        renderer_called(
            *old(renderer),
            *final(renderer),
            RendererCall::ResourceCreate3D { resource_id, args, refusal: refusal_of(result) },
        ),
        renderer_created(*old(renderer), *final(renderer), resource_id, result is Ok),
        renderer_is_software(*old(renderer)) && !renderer_resources(*old(renderer)).contains_key(
            resource_id,
        ) ==> {
            &&& result is Ok
            &&& renderer_resources(*final(renderer))[resource_id] == (RendererResource {
                info_3d: None,
                map_info: None,
            })
        },
{
    renderer.resource_create_3d(resource_id, rutabaga_gfx::ResourceCreate3D {
        target: args.target,
        format: args.format,
        bind: args.bind,
        width: args.width,
        height: args.height,
        depth: args.depth,
        array_size: args.array_size,
        last_level: args.last_level,
        nr_samples: args.nr_samples,
        flags: args.flags,
    })
}

/// Calls `Rutabaga::resource_create_blob` without an external handle. Success
/// and failure are as for `resource_create_3d`; a context that is named has to
/// exist.
#[verifier::external_body]
pub(crate) fn resource_create_blob(
    renderer: &mut Rutabaga,
    ctx_id: u32,
    resource_id: u32,
    args: ResourceCreateBlob,
    iovecs: Option<Vec<RutabagaIovec>>,
) -> (result: Result<(), RutabagaError>)
    requires
        ctx_id != 0 ==> rings_sound(*old(renderer), ctx_id),
    ensures
        renderer_called(
            *old(renderer),
            *final(renderer),
            RendererCall::ResourceCreateBlob {
                ctx_id,
                resource_id,
                blob: args,
                backing: match iovecs {
                    Some(iovecs) => Some(iovecs@),
                    None => None,
                },
                refusal: refusal_of(result),
            },
        ),
        renderer_created(*old(renderer), *final(renderer), resource_id, result is Ok),
        ctx_id != 0 && result is Ok ==> renderer_contexts(*old(renderer)).contains(ctx_id),
{
    let blob = rutabaga_gfx::ResourceCreateBlob {
        blob_mem: args.blob_mem,
        blob_flags: args.blob_flags,
        blob_id: args.blob_id,
        size: args.size,
    };
    renderer.resource_create_blob(ctx_id, resource_id, blob, iovecs, None)
}

/// Calls `Rutabaga::attach_backing`, which succeeds on resources that the
/// renderer holds only, and keeps them all.
#[verifier::external_body]
pub(crate) fn attach_backing(
    renderer: &mut Rutabaga,
    resource_id: u32,
    iovecs: Vec<RutabagaIovec>,
) -> (result: Result<(), RutabagaError>)
    ensures
        renderer_called(
            *old(renderer),
            *final(renderer),
            RendererCall::AttachBacking {
                resource_id,
                iovecs: iovecs@,
                refusal: refusal_of(result),
            },
        ),
        renderer_used(*old(renderer), *final(renderer), resource_id, result is Ok),
{
    renderer.attach_backing(resource_id, iovecs)
}

/// Calls `Rutabaga::detach_backing`, which succeeds on exactly the resources
/// that the renderer holds, and keeps them all.
#[verifier::external_body]
pub(crate) fn detach_backing(renderer: &mut Rutabaga, resource_id: u32) -> (result: Result<
    (),
    RutabagaError,
>)
    ensures
        renderer_called(
            *old(renderer),
            *final(renderer),
            RendererCall::DetachBacking { resource_id, refusal: refusal_of(result) },
        ),
        renderer_used(*old(renderer), *final(renderer), resource_id, result is Ok),
        result is Ok <==> renderer_resources(*old(renderer)).contains_key(resource_id),
{
    renderer.detach_backing(resource_id)
}

/// Calls `Rutabaga::unref_resource`, which drops the resource if the renderer
/// holds it, and fails if not.
#[verifier::external_body]
pub(crate) fn unref_resource(renderer: &mut Rutabaga, resource_id: u32) -> (result: Result<
    (),
    RutabagaError,
>)
    ensures
        renderer_called(
            *old(renderer),
            *final(renderer),
            RendererCall::UnrefResource { resource_id, refusal: refusal_of(result) },
        ),
        result is Ok <==> renderer_resources(*old(renderer)).contains_key(resource_id),
        renderer_resources(*final(renderer)) == renderer_resources(*old(renderer)).remove(
            resource_id,
        ),
        same_contexts(*old(renderer), *final(renderer)),
{
    renderer.unref_resource(resource_id)
}

/// Calls `Rutabaga::transfer_write`, which succeeds on resources that the
/// renderer holds only, and keeps them all.
#[verifier::external_body]
pub(crate) fn transfer_write(
    renderer: &mut Rutabaga,
    ctx_id: u32,
    resource_id: u32,
    transfer: Transfer3D,
) -> (result: Result<(), RutabagaError>)
    requires
        renderer_is_software(*old(renderer)) ==> software_transferable(transfer),
    ensures
        renderer_called(
            *old(renderer),
            *final(renderer),
            RendererCall::TransferWrite {
                ctx_id,
                resource_id,
                transfer,
                refusal: refusal_of(result),
            },
        ),
        renderer_used(*old(renderer), *final(renderer), resource_id, result is Ok),
{
    let boxed = rutabaga_gfx::Transfer3D {
        x: transfer.x,
        y: transfer.y,
        z: transfer.z,
        w: transfer.w,
        h: transfer.h,
        d: transfer.d,
        level: transfer.level,
        stride: transfer.stride,
        layer_stride: transfer.layer_stride,
        offset: transfer.offset,
    };
    renderer.transfer_write(ctx_id, resource_id, boxed)
}

/// Calls `Rutabaga::transfer_read` into `output`, whose length stays, or without
/// one into the guest memory of the resource. Which bytes come is up to the
/// renderer: those in `output` are recorded with the call.
#[verifier::external_body]
pub(crate) fn transfer_read(
    renderer: &mut Rutabaga,
    ctx_id: u32,
    resource_id: u32,
    transfer: Transfer3D,
    output: Option<&mut [u8]>,
) -> (result: Result<(), RutabagaError>)
    ensures
        output matches Some(out) ==> final(out)@.len() == out@.len(),
        renderer_called(
            *old(renderer),
            *final(renderer),
            RendererCall::TransferRead {
                ctx_id,
                resource_id,
                transfer,
                output: match output {
                    Some(out) => Some(final(out)@),
                    None => None,
                },
                refusal: refusal_of(result),
            },
        ),
        renderer_used(*old(renderer), *final(renderer), resource_id, result is Ok),
{
    let boxed = rutabaga_gfx::Transfer3D {
        x: transfer.x,
        y: transfer.y,
        z: transfer.z,
        w: transfer.w,
        h: transfer.h,
        d: transfer.d,
        level: transfer.level,
        stride: transfer.stride,
        layer_stride: transfer.layer_stride,
        offset: transfer.offset,
    };
    renderer.transfer_read(ctx_id, resource_id, boxed, output.map(IoSliceMut::new))
}

/// Calls `Rutabaga::resource_flush`, which refuses a resource that the renderer
/// does not hold, and keeps those that it holds. Not every renderer has a way to
/// flush: one that renders in software has none.
#[verifier::external_body]
pub(crate) fn resource_flush(renderer: &mut Rutabaga, resource_id: u32) -> (result: FlushReply)
    ensures
        renderer_called(
            *old(renderer),
            *final(renderer),
            RendererCall::ResourceFlush { resource_id, outcome: result },
        ),
        renderer_used(*old(renderer), *final(renderer), resource_id, !(result is Refused)),
        renderer_is_software(*old(renderer)) && renderer_resources(*old(renderer)).contains_key(
            resource_id,
        ) ==> result is Unsupported,
{
    match renderer.resource_flush(resource_id) {
        Ok(()) => FlushReply::Flushed,
        Err(RutabagaError::Unsupported) => FlushReply::Unsupported,
        Err(e) => FlushReply::Refused(e),
    }
}

/// Calls `Rutabaga::map`, which succeeds on resources that the renderer holds
/// only, and keeps them all. Where the mapping lies is up to the host: it is
/// recorded with the call.
#[verifier::external_body]
pub(crate) fn map(renderer: &mut Rutabaga, resource_id: u32) -> (result: Result<
    RutabagaMapping,
    RutabagaError,
>)
    ensures
        renderer_called(
            *old(renderer),
            *final(renderer),
            RendererCall::MapBlob {
                resource_id,
                mapping: match result {
                    Ok(mapping) => Some(mapping),
                    Err(_) => None,
                },
            },
        ),
        renderer_used(*old(renderer), *final(renderer), resource_id, result is Ok),
{
    let mapping = renderer.map(resource_id)?;
    Ok(RutabagaMapping { ptr: mapping.ptr, size: mapping.size })
}

/// Calls `Rutabaga::unmap`, which succeeds on resources that the renderer holds
/// only, and keeps them all.
#[verifier::external_body]
pub(crate) fn unmap(renderer: &mut Rutabaga, resource_id: u32) -> (result: Result<
    (),
    RutabagaError,
>)
    ensures
        renderer_called(
            *old(renderer),
            *final(renderer),
            RendererCall::UnmapBlob { resource_id, refusal: refusal_of(result) },
        ),
        renderer_used(*old(renderer), *final(renderer), resource_id, result is Ok),
{
    renderer.unmap(resource_id)
}

/// Calls `Rutabaga::map_info`, which reads what the renderer keeps of the
/// resource.
#[verifier::external_body]
pub(crate) fn map_info(renderer: &Rutabaga, resource_id: u32) -> (result: Result<
    u32,
    RutabagaError,
>)
    ensures
        match result {
            Ok(info) => {
                &&& renderer_resources(*renderer).contains_key(resource_id)
                &&& renderer_resources(*renderer)[resource_id].map_info == Some(info)
            },
            Err(_) => {
                ||| !renderer_resources(*renderer).contains_key(resource_id)
                ||| renderer_resources(*renderer)[resource_id].map_info is None
            },
        },
{
    renderer.map_info(resource_id)
}

/// Calls `Rutabaga::query`, which reads what the renderer keeps of the
/// resource.
#[verifier::external_body]
pub(crate) fn query(renderer: &Rutabaga, resource_id: u32) -> (result: Result<
    Resource3DInfo,
    RutabagaError,
>)
    ensures
        match result {
            Ok(info) => {
                &&& renderer_resources(*renderer).contains_key(resource_id)
                &&& renderer_resources(*renderer)[resource_id].info_3d == Some(info)
            },
            Err(_) => {
                ||| !renderer_resources(*renderer).contains_key(resource_id)
                ||| renderer_resources(*renderer)[resource_id].info_3d is None
            },
        },
{
    let info = renderer.query(resource_id)?;
    Ok(Resource3DInfo {
        strides: info.strides,
        offsets: info.offsets,
        modifier: info.modifier,
    })
}

/// Calls `Rutabaga::export_blob`, which succeeds on resources that the renderer
/// holds only, and keeps them all. The type of the handle is up to the
/// renderer: it is recorded with the call.
#[verifier::external_body]
pub(crate) fn export_blob(renderer: &mut Rutabaga, resource_id: u32) -> (result: Result<
    ExportedBlob,
    RutabagaError,
>)
    ensures
        renderer_called(
            *old(renderer),
            *final(renderer),
            RendererCall::ExportBlob {
                resource_id,
                handle_type: match result {
                    Ok(export) => Some(export.handle_type),
                    Err(_) => None,
                },
            },
        ),
        renderer_used(*old(renderer), *final(renderer), resource_id, result is Ok),
{
    let handle = renderer.export_blob(resource_id)?;
    let handle_type = handle.handle_type;
    Ok(ExportedBlob { handle, handle_type })
}

/// Calls `Rutabaga::create_context`. On success the renderer holds the new
/// context, which it did not hold before; on failure it holds what it held. The
/// call touches no resource.
#[verifier::external_body]
pub(crate) fn create_context(
    renderer: &mut Rutabaga,
    ctx_id: u32,
    context_init: u32,
    context_name: Option<&str>,
) -> (result: Result<(), RutabagaError>)
    ensures
        renderer_called(
            *old(renderer),
            *final(renderer),
            RendererCall::CreateContext {
                ctx_id,
                context_init,
                name: match context_name {
                    Some(name) => Some(name@),
                    None => None,
                },
                refusal: refusal_of(result),
            },
        ),
        renderer_resources(*final(renderer)) == renderer_resources(*old(renderer)),
        match result {
            Ok(()) => {
                &&& !renderer_contexts(*old(renderer)).contains(ctx_id)
                &&& renderer_contexts(*final(renderer)) == renderer_contexts(*old(renderer)).insert(
                    ctx_id,
                )
            },
            Err(_) => same_contexts(*old(renderer), *final(renderer)),
        },
{
    renderer.create_context(ctx_id, context_init, context_name)
}

/// Calls `Rutabaga::destroy_context`, which drops the context if the renderer
/// holds it, and fails if not. The call touches no resource. It waits for the
/// thread that serves the channel of a cross-domain context, and which it tells
/// to end. That thread hears of it unless the context was initialised without a
/// channel after it got one, which `submit_command` leaves out.
#[verifier::external_body]
pub(crate) fn destroy_context(renderer: &mut Rutabaga, ctx_id: u32) -> (result: Result<
    (),
    RutabagaError,
>)
    ensures
        renderer_called(
            *old(renderer),
            *final(renderer),
            RendererCall::DestroyContext { ctx_id, refusal: refusal_of(result) },
        ),
        renderer_resources(*final(renderer)) == renderer_resources(*old(renderer)),
        result is Ok <==> renderer_contexts(*old(renderer)).contains(ctx_id),
        renderer_contexts(*final(renderer)) == renderer_contexts(*old(renderer)).remove(ctx_id),
{
    renderer.destroy_context(ctx_id)
}

/// Calls `Rutabaga::context_attach_resource`, which succeeds exactly where the
/// renderer holds both the context and the resource, and keeps them all.
#[verifier::external_body]
pub(crate) fn context_attach_resource(
    renderer: &mut Rutabaga,
    ctx_id: u32,
    resource_id: u32,
) -> (result: Result<(), RutabagaError>)
    requires
        rings_sound(*old(renderer), ctx_id),
    ensures
        renderer_called(
            *old(renderer),
            *final(renderer),
            RendererCall::ContextAttachResource {
                ctx_id,
                resource_id,
                refusal: refusal_of(result),
            },
        ),
        renderer_used(*old(renderer), *final(renderer), resource_id, result is Ok),
        result is Ok <==> renderer_contexts(*old(renderer)).contains(ctx_id) && renderer_resources(
            *old(renderer),
        ).contains_key(resource_id),
{
    renderer.context_attach_resource(ctx_id, resource_id)
}

/// Calls `Rutabaga::context_detach_resource`, which succeeds exactly where the
/// renderer holds both the context and the resource, and keeps them all.
#[verifier::external_body]
pub(crate) fn context_detach_resource(
    renderer: &mut Rutabaga,
    ctx_id: u32,
    resource_id: u32,
) -> (result: Result<(), RutabagaError>)
    requires
        rings_sound(*old(renderer), ctx_id),
    ensures
        renderer_called(
            *old(renderer),
            *final(renderer),
            RendererCall::ContextDetachResource {
                ctx_id,
                resource_id,
                refusal: refusal_of(result),
            },
        ),
        renderer_used(*old(renderer), *final(renderer), resource_id, result is Ok),
        result is Ok <==> renderer_contexts(*old(renderer)).contains(ctx_id) && renderer_resources(
            *old(renderer),
        ).contains_key(resource_id),
{
    renderer.context_detach_resource(ctx_id, resource_id)
}

/// Calls `Rutabaga::submit_command`, which needs a context that the renderer
/// holds. The context may use `commands` as scratch space; their number stays.
/// The call changes neither resources nor contexts as far as they are named.
/// What a context makes of its commands is left unsaid. A cross-domain context
/// would stay at a command that gives no distance to the next, and would stop the
/// process where it has to reply in the first of no guest ranges. It reads numbers
/// in the byte order of the host, which is taken to be that of the guest, the
/// lowest byte first; and it waits for the host where it sends and writes.
#[verifier::external_body]
pub(crate) fn submit_command(
    renderer: &mut Rutabaga,
    ctx_id: u32,
    commands: &mut [u8],
    fence_ids: &[u64],
) -> (result: Result<(), RutabagaError>)
    requires
        submittable(*old(renderer), ctx_id, old(commands)@, fence_ids@),
    ensures
        final(commands)@.len() == old(commands)@.len(),
        renderer_called(
            *old(renderer),
            *final(renderer),
            RendererCall::SubmitCommand {
                ctx_id,
                commands: old(commands)@,
                fence_ids: fence_ids@,
                refusal: refusal_of(result),
            },
        ),
        renderer_resources(*final(renderer)) == renderer_resources(*old(renderer)),
        same_contexts(*old(renderer), *final(renderer)),
        result is Ok ==> renderer_contexts(*old(renderer)).contains(ctx_id),
{
    renderer.submit_command(ctx_id, commands, fence_ids)
}

} // verus!
