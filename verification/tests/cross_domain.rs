//! Blobs against a renderer that allocates shared memory.

use rutabaga_gfx::{RutabagaBuilder, RutabagaComponentType, RutabagaError, RutabagaHandler};
use virtio_gpu::blob::{BlobMapping, MapPlan, UnmapRequest, WindowSide};
use virtio_gpu::contexts::{check_close, check_command, check_frames, check_open};
use virtio_gpu::device::{blob_source, VirtioGpu};
use virtio_gpu::flush::{FlushAction, FlushEvent};
use virtio_gpu::model::{FrameStep, ScanoutStep};
use virtio_gpu::protocol::{GpuResponse, VirtioGpuResult, VirtioShmRegion};
use virtio_gpu::renderer::{GpuFence, ResourceCreateBlob, RutabagaMapping};
use virtio_gpu::resource::{DisplayInfo, ResourceFormat};
use vm_memory::{Bytes, GuestAddress, GuestMemoryMmap};

const RING: u32 = 1;
const BLOB: u32 = 2;
const CONTEXT: u32 = 6;
const REGION: VirtioShmRegion =
    VirtioShmRegion { host_addr: 0x7000_0000, guest_addr: 0x1_0000, size: 0x10_0000 };

fn memory() -> GuestMemoryMmap {
    GuestMemoryMmap::from_ranges(&[(GuestAddress(0x1000), 0x1000)]).unwrap()
}

fn gpu(mem: &GuestMemoryMmap) -> VirtioGpu {
    let renderer = RutabagaBuilder::new(RutabagaComponentType::CrossDomain, 1 << 5)
        .build(RutabagaHandler::new(|_| {}), None)
        .unwrap();
    let displays = vec![DisplayInfo { width: 640, height: 480, edid: vec![] }];
    VirtioGpu::with_renderer(renderer, true, displays, mem.clone())
}

/// The scanouts on which a flush presents a resource.
fn flushed(gpu: &VirtioGpu, resource_id: u32) -> Result<Vec<u32>, GpuResponse> {
    let (mut flush, mut action) = gpu.flush_resource(resource_id, false);
    let mut scanouts = Vec::new();
    loop {
        action = match action {
            FlushAction::FillFrame { .. } => flush.step(FlushEvent::Frame(Ok(FrameStep::Filled))),
            FlushAction::PresentFrame { scanout_id } => {
                scanouts.push(scanout_id);
                flush.step(FlushEvent::Presented(Ok(())))
            }
            FlushAction::Answer(Ok(GpuResponse::OkNoData)) => return Ok(scanouts),
            FlushAction::Answer(Err(e)) => return Err(e),
            _ => panic!("unexpected action"),
        }
    }
}

fn is_ok(result: VirtioGpuResult) -> bool {
    matches!(result, Ok(GpuResponse::OkNoData))
}

fn is_rutabaga(result: VirtioGpuResult) -> bool {
    matches!(result, Err(GpuResponse::ErrRutabaga(_)))
}

fn words(values: &[u32]) -> Vec<u8> {
    values.iter().flat_map(|value| value.to_le_bytes()).collect()
}

fn word(mem: &GuestMemoryMmap, at: u64) -> u32 {
    let mut bytes = [0u8; 4];
    mem.read_slice(&mut bytes, GuestAddress(0x1000 + at)).unwrap();
    u32::from_le_bytes(bytes)
}

/// A context with a ring, and a blob of 16 by 4 pixels.
fn with_blob(mem: &GuestMemoryMmap) -> (VirtioGpu, u64, VirtioGpuResult) {
    let mut gpu = gpu(mem);
    let ring = ResourceCreateBlob { blob_mem: 1, blob_flags: 1, blob_id: 0, size: 0x1000 };
    assert!(is_ok(gpu.resource_create_blob(0, RING, ring, vec![(0x1000, 0x1000)], mem)));
    assert!(is_ok(gpu.create_context(CONTEXT, 5, Some("test"))));
    assert!(is_ok(gpu.context_attach_resource(CONTEXT, RING)));
    // No channel.
    let mut init = words(&[1 | (20 << 16), 0, RING, RING, 0]);
    assert!(check_frames(&init));
    assert!(is_ok(gpu.submit_command(CONTEXT, &mut init, &[])));
    let format = u32::from_le_bytes([b'X', b'R', b'2', b'4']);
    let mut requirements = words(&[2 | (24 << 16), 0, 16, 4, format, 0]);
    assert!(is_ok(gpu.submit_command(CONTEXT, &mut requirements, &[])));
    let size = u64::from(word(mem, 40));
    let blob_id = u64::from(word(mem, 48));
    let blob = ResourceCreateBlob { blob_mem: 2, blob_flags: 3, blob_id, size };
    let answer = gpu.resource_create_blob(CONTEXT, BLOB, blob, vec![], mem);
    (gpu, size, answer)
}

#[test]
fn planes_are_told_with_the_blob() {
    let mem = memory();
    let (_, _, answer) = with_blob(&mem);
    match answer {
        Ok(GpuResponse::OkResourcePlaneInfo { plane_info, .. }) => {
            assert_eq!(plane_info.len(), 4);
            for (i, plane) in plane_info.iter().enumerate() {
                assert_eq!(plane.stride, word(&mem, 4 * i as u64));
                assert_eq!(plane.offset, word(&mem, 16 + 4 * i as u64));
            }
            assert_eq!(plane_info[0].stride, 64);
        }
        _ => panic!("no planes"),
    }
}

#[test]
fn blob_ids_are_taken_once() {
    let mem = memory();
    let (mut gpu, size, _) = with_blob(&mem);
    let blob = ResourceCreateBlob { blob_mem: 2, blob_flags: 3, blob_id: 4, size };
    assert!(is_rutabaga(gpu.resource_create_blob(CONTEXT, BLOB, blob, vec![], &mem)));
    // A context that does not exist.
    assert!(is_rutabaga(gpu.resource_create_blob(9, 3, blob, vec![], &mem)));
}

#[test]
fn mapped_blob_is_unmapped_where_it_was() {
    let mem = memory();
    let (mut gpu, size, _) = with_blob(&mem);
    let request = gpu.resource_map_blob(BLOB, &REGION, 0x2000, BlobMapping::Descriptor).unwrap();
    assert_eq!(request.resource_id, BLOB);
    assert_eq!(request.offset, 0x2000);
    assert_eq!(request.map_info, 0x31);
    assert_eq!(request.plan, MapPlan::MapHandle { addr: 0x7000_2000, size, prot: 3 });
    assert_eq!(request.export.as_ref().unwrap().handle_type, 4);
    assert_eq!(gpu.shmem_offset(BLOB), None);
    assert!(matches!(
        gpu.finish_map_blob(&request, Ok(())),
        Ok(GpuResponse::OkMapInfo { map_info: 1 })
    ));
    assert_eq!(gpu.shmem_offset(BLOB), Some(0x2000));
    let unmap = gpu.resource_unmap_blob(BLOB, &REGION, WindowSide::Host).unwrap();
    assert_eq!(unmap, UnmapRequest { resource_id: BLOB, addr: 0x7000_2000, size });
    let guest = gpu.resource_unmap_blob(BLOB, &REGION, WindowSide::Guest).unwrap();
    assert_eq!(guest.addr, 0x1_2000);
    assert!(matches!(gpu.finish_unmap_blob(&unmap, false), Err(GpuResponse::ErrUnspec)));
    assert_eq!(gpu.shmem_offset(BLOB), Some(0x2000));
    assert!(is_ok(gpu.finish_unmap_blob(&unmap, true)));
    assert_eq!(gpu.shmem_offset(BLOB), None);
    assert!(matches!(
        gpu.resource_unmap_blob(BLOB, &REGION, WindowSide::Host),
        Err(GpuResponse::ErrUnspec)
    ));
}

#[test]
fn failed_mapping_leaves_the_blob_unmapped() {
    let mem = memory();
    let (mut gpu, _, _) = with_blob(&mem);
    let request = gpu.resource_map_blob(BLOB, &REGION, 0, BlobMapping::Descriptor).unwrap();
    assert!(matches!(
        gpu.finish_map_blob(&request, Err(GpuResponse::ErrUnspec)),
        Err(GpuResponse::ErrUnspec)
    ));
    assert_eq!(gpu.shmem_offset(BLOB), None);
}

#[test]
fn blob_is_mapped_by_the_other_ways() {
    let mem = memory();
    let (mut gpu, size, _) = with_blob(&mem);
    let by_renderer = BlobMapping::Renderer;
    let request = gpu.resource_map_blob(BLOB, &REGION, 0x1000, by_renderer).unwrap();
    assert_eq!(request.plan, MapPlan::MapHandle { addr: 0x7000_1000, size, prot: 3 });
    let end = REGION.size as u64;
    assert!(matches!(
        gpu.resource_map_blob(BLOB, &REGION, end, by_renderer),
        Err(GpuResponse::ErrUnspec)
    ));
    let map_ptr = Some(0x5000);
    let by_hypervisor = BlobMapping::Hypervisor { map_ptr, handle_type: 4 };
    let request = gpu.resource_map_blob(BLOB, &REGION, 0x1000, by_hypervisor).unwrap();
    assert_eq!(
        request.plan,
        MapPlan::MapByHypervisor { map_ptr: 0x5000, guest_addr: 0x1_1000, size }
    );
    let other_type = BlobMapping::Hypervisor { map_ptr, handle_type: 8 };
    assert!(gpu.resource_map_blob(BLOB, &REGION, 0x1000, other_type).is_err());
    let no_address = BlobMapping::Hypervisor { map_ptr: None, handle_type: 4 };
    assert!(gpu.resource_map_blob(BLOB, &REGION, 0x1000, no_address).is_err());
}

#[test]
fn blob_without_mapping_information_is_refused() {
    let mem = memory();
    let (mut gpu, _, _) = with_blob(&mem);
    assert!(matches!(
        gpu.resource_map_blob(RING, &REGION, 0, BlobMapping::Descriptor),
        Err(GpuResponse::ErrUnspec)
    ));
}

#[test]
fn shown_blob_is_found_in_host_memory() {
    let mem = memory();
    let (mut gpu, size, _) = with_blob(&mem);
    let format = Some(ResourceFormat { code: 2 });
    let step = gpu.set_scanout_blob(0, BLOB, format, 16, 4, [0; 4], [0; 4]).unwrap();
    assert!(matches!(step, ScanoutStep::Configure { display_width: 640, width: 16, .. }));
    assert!(is_ok(gpu.finish_set_scanout(step, Ok(()))));
    assert_eq!(flushed(&gpu, BLOB).unwrap(), vec![0]);
    // At its mapping, or else at the given address; either way all of it.
    let mut frame = vec![5u8; 256];
    match gpu.read_frame(BLOB, Some(64), &mut frame) {
        FrameStep::CopyBlob { ptr, size: len, width, height, stride } => {
            assert_ne!(ptr, 0);
            assert_eq!((len, width, height, stride), (size, 16, 4, 64));
        }
        _ => panic!("no blob"),
    }
    assert_eq!(frame, vec![5u8; 256]);
    let step = gpu.set_scanout_blob(0, BLOB, format, 16, 4, [100, 0, 0, 0], [0; 4]).unwrap();
    assert!(is_ok(gpu.finish_set_scanout(step, Ok(()))));
    assert!(matches!(
        gpu.read_frame(BLOB, Some(64), &mut frame),
        FrameStep::CopyBlob { stride: 100, .. }
    ));
}

#[test]
fn blob_that_is_not_mapped_is_read_at_its_address() {
    let mem = memory();
    let (mut gpu, _, _) = with_blob(&mem);
    let mut frame = vec![0u8; 4];
    assert_eq!(gpu.read_frame(RING, None, &mut frame), FrameStep::NotMapped);
    assert_eq!(gpu.read_frame(RING, Some(0), &mut frame), FrameStep::NotMapped);
    assert!(matches!(
        gpu.read_frame(RING, Some(64), &mut frame),
        FrameStep::CopyBlob { ptr: 64, size: 0x1000, width: 0, height: 0, stride: 0 }
    ));
}

#[test]
fn blob_source_prefers_the_mapping() {
    let mapping = |ptr, size| Some(RutabagaMapping { ptr, size });
    assert_eq!(blob_source(mapping(8, 4), Some(16), 2), Some((8, 4)));
    assert_eq!(blob_source(mapping(0, 4), Some(16), 2), None);
    assert_eq!(blob_source(mapping(8, 0), Some(16), 2), None);
    assert_eq!(blob_source(None, Some(16), 2), Some((16, 2)));
    assert_eq!(blob_source(None, Some(16), 0), None);
    assert_eq!(blob_source(None, None, 2), None);
}

#[test]
fn contexts_come_and_go() {
    let mem = memory();
    let (mut gpu, _, _) = with_blob(&mem);
    assert!(is_rutabaga(gpu.create_context(CONTEXT, 5, None)));
    assert!(is_rutabaga(gpu.context_attach_resource(CONTEXT, 9)));
    assert!(is_rutabaga(gpu.context_attach_resource(9, BLOB)));
    assert!(is_ok(gpu.context_attach_resource(CONTEXT, BLOB)));
    assert!(is_ok(gpu.context_detach_resource(CONTEXT, BLOB)));
    assert!(is_rutabaga(gpu.context_detach_resource(9, BLOB)));
    let fence = GpuFence { flags: 2, fence_id: 1, ctx_id: CONTEXT, ring_idx: 0 };
    assert!(is_ok(gpu.create_fence(fence)));
    assert!(is_rutabaga(gpu.create_fence(GpuFence { ring_idx: 7, ..fence })));
    assert!(is_rutabaga(gpu.submit_command(CONTEXT, &mut [3], &[])));
    assert!(is_rutabaga(gpu.submit_command(CONTEXT, &mut [], &[1])));
    assert!(is_ok(gpu.submit_command(CONTEXT, &mut [], &[])));
    assert!(is_ok(gpu.destroy_context(CONTEXT)));
    assert!(is_rutabaga(gpu.destroy_context(CONTEXT)));
    assert!(is_rutabaga(gpu.create_fence(fence)));
    assert!(is_ok(gpu.create_context(CONTEXT, 5, None)));
}

#[test]
fn capability_set_is_that_of_the_component() {
    let gpu = gpu(&memory());
    assert!(matches!(
        gpu.get_capset_info(0),
        Ok(GpuResponse::OkCapsetInfo { capset_id: 5, version: 0, size: 16 })
    ));
    assert!(is_rutabaga(gpu.get_capset_info(1)));
    match gpu.get_capset(5, 0) {
        Ok(GpuResponse::OkCapset(capset)) => {
            assert_eq!(capset.len(), 16);
            assert_eq!(capset[0], 1);
        }
        _ => panic!("no capability set"),
    }
}

#[test]
fn dropped_blob_is_gone() {
    let mem = memory();
    let (mut gpu, _, _) = with_blob(&mem);
    assert!(is_ok(gpu.unref_resource(BLOB)));
    assert!(matches!(gpu.unref_resource(BLOB), Err(GpuResponse::ErrInvalidResourceId)));
    assert!(is_rutabaga(gpu.context_attach_resource(CONTEXT, BLOB)));
}

#[test]
fn frames_have_to_advance() {
    assert!(check_frames(&[]));
    assert!(check_frames(&[3, 0, 0, 0]));
    assert!(!check_frames(&words(&[3, 0])));
    assert!(!check_frames(&words(&[3 | (8 << 16), 0, 3, 0])));
    assert!(check_frames(&words(&[3 | (8 << 16), 0, 3 | (8 << 16), 0])));
    assert!(check_frames(&words(&[3 | (256 << 16), 0])));
    // No command: the context stops there.
    assert!(check_frames(&words(&[9, 0])));
    // Not all of a command: it stops there too.
    assert!(check_frames(&words(&[1, 0])));
    assert!(!check_frames(&words(&[1, 0, 0, 0])));
    assert!(check_frames(&words(&[2, 0, 0, 0, 0])));
    assert!(!check_frames(&words(&[2, 0, 0, 0, 0, 0])));
    assert!(check_frames(&words(&[4; 87])));
    assert!(!check_frames(&words(&[4; 88])));
    assert!(check_frames(&words(&[7, 0, 0, 0, 0])));
    assert!(!check_frames(&words(&[7, 0, 0, 0, 0, 0])));
}

const INIT: u32 = 1 | (20 << 16);
const LEGACY_INIT: u32 = 1 | (16 << 16);
const POLL: u32 = 3 | (8 << 16);

#[test]
fn channel_is_asked_for_by_its_type() {
    assert!(check_open(&words(&[INIT, 0, RING, RING, 1]), true));
    assert!(check_open(&words(&[INIT, 0, RING, RING, 1 << 24]), true));
    assert!(!check_open(&words(&[INIT, 0, RING, RING, 0]), true));
    assert!(check_open(&words(&[LEGACY_INIT, 0, RING, 1]), true));
    assert!(!check_open(&words(&[LEGACY_INIT, 0, RING, 0]), true));
    assert!(!check_open(&words(&[LEGACY_INIT, 0, RING]), true));
    assert!(check_open(&words(&[POLL, 0, INIT, 0, RING, RING, 1]), true));
    // A last command that was refused has opened nothing; one before it may have.
    assert!(!check_open(&words(&[INIT, 0, RING, RING, 1]), false));
    assert!(check_open(&words(&[INIT, 0, RING, RING, 1, POLL, 0]), false));
    assert!(check_open(&words(&[1 | (64 << 16), 0, RING, RING, 1]), false));
}

#[test]
fn channel_is_closed_by_another_start() {
    let without = words(&[INIT, 0, RING, RING, 0]);
    assert!(check_close(&without, true));
    assert!(!check_close(&without, false));
    let with = words(&[INIT, 0, RING, RING, 1]);
    assert!(!check_close(&with, true));
    assert!(!check_close(&with, false));
    assert!(check_close(&[with.clone(), without.clone()].concat(), false));
    assert!(!check_close(&[without.clone(), with.clone()].concat(), false));
    assert!(check_close(&[without, with].concat(), true));
    assert!(!check_close(&words(&[POLL, 0]), true));
}

#[test]
fn context_that_may_have_a_channel_keeps_it() {
    let mem = memory();
    let mut gpu = gpu(&mem);
    let ring = ResourceCreateBlob { blob_mem: 1, blob_flags: 1, blob_id: 0, size: 0x1000 };
    assert!(is_ok(gpu.resource_create_blob(0, RING, ring, vec![(0x1000, 0x1000)], &mem)));
    assert!(is_ok(gpu.create_context(CONTEXT, 5, None)));
    assert!(is_ok(gpu.context_attach_resource(CONTEXT, RING)));
    let mut with = words(&[INIT, 0, RING, RING, 1]);
    let mut without = words(&[INIT, 0, RING, RING, 0]);
    let mut both = [with.clone(), without.clone()].concat();
    let mut polled = [with.clone(), words(&[POLL, 0])].concat();
    assert!(gpu.try_submit_command(CONTEXT, &mut both, &[]).is_none());
    // The renderer has no channels: it refuses, and the context has none.
    assert!(is_rutabaga(gpu.try_submit_command(CONTEXT, &mut with, &[]).unwrap()));
    assert!(is_ok(gpu.try_submit_command(CONTEXT, &mut without, &[]).unwrap()));
    // It is not told which of two commands was refused.
    assert!(is_rutabaga(gpu.try_submit_command(CONTEXT, &mut polled, &[]).unwrap()));
    assert!(gpu.try_submit_command(CONTEXT, &mut without, &[]).is_none());
    assert!(is_ok(gpu.destroy_context(CONTEXT)));
    assert!(is_ok(gpu.create_context(CONTEXT, 5, None)));
    assert!(is_ok(gpu.context_attach_resource(CONTEXT, RING)));
    assert!(is_ok(gpu.try_submit_command(CONTEXT, &mut without, &[]).unwrap()));
}

#[test]
fn error_of_the_renderer_is_handed_on() {
    let mem = memory();
    let mut gpu = gpu(&mem);
    let unknown = |result| {
        matches!(result, Err(GpuResponse::ErrRutabaga(RutabagaError::InvalidContextId)))
    };
    assert!(unknown(gpu.destroy_context(9)));
    assert!(unknown(gpu.context_detach_resource(9, RING)));
    assert!(unknown(gpu.try_submit_command(9, &mut [], &[]).unwrap()));
    assert!(matches!(
        gpu.detach_backing(9),
        Err(GpuResponse::ErrRutabaga(RutabagaError::InvalidResourceId))
    ));
    assert!(matches!(
        gpu.get_capset_info(1),
        Err(GpuResponse::ErrRutabaga(RutabagaError::InvalidCapset))
    ));
}

#[test]
fn commands_are_found_where_the_context_comes_to_them() {
    let poll = 3 | (8 << 16);
    assert!(check_command(&words(&[poll, 0]), 3));
    assert!(!check_command(&words(&[poll, 0]), 2));
    assert!(!check_command(&[], 3));
    let layout = [poll, 0, 2, 0, 0, 0, 0, 0];
    assert!(check_command(&words(&layout), 2));
    assert!(!check_command(&words(&layout[..7]), 2));
    // Behind the end of the commands, and behind a command that leads nowhere.
    assert!(!check_command(&words(&[3 | (64 << 16), 0, 2, 0, 0, 0, 0, 0]), 2));
    assert!(!check_command(&words(&[3, 0, 2, 0, 0, 0, 0, 0]), 2));
}

#[test]
fn context_without_room_to_reply_is_not_asked() {
    let mem = memory();
    let mut gpu = gpu(&mem);
    let ring = ResourceCreateBlob { blob_mem: 1, blob_flags: 1, blob_id: 0, size: 0x1000 };
    assert!(is_ok(gpu.resource_create_blob(0, RING, ring, vec![], &mem)));
    assert!(is_ok(gpu.create_context(CONTEXT, 0, None)));
    assert!(gpu.rings_sound(CONTEXT));
    assert!(is_ok(gpu.context_attach_resource(CONTEXT, RING)));
    let format = u32::from_le_bytes([b'X', b'R', b'2', b'4']);
    let mut layout = words(&[2 | (24 << 16), 0, 16, 4, format, 0]);
    assert!(gpu.try_submit_command(CONTEXT, &mut layout, &[]).is_none());
    // With fences of their own they are refused unread.
    assert!(is_rutabaga(gpu.try_submit_command(CONTEXT, &mut layout, &[1]).unwrap()));
    assert!(is_ok(gpu.destroy_context(CONTEXT)));
    assert!(is_ok(gpu.create_context(CONTEXT, 5, None)));
    assert!(is_ok(gpu.context_attach_resource(CONTEXT, RING)));
    assert!(gpu.rings_sound(CONTEXT));
}

#[test]
fn context_with_an_empty_list_is_told_once() {
    let mem = memory();
    let mut gpu = gpu(&mem);
    let ring = ResourceCreateBlob { blob_mem: 1, blob_flags: 1, blob_id: 0, size: 0x1000 };
    assert!(is_ok(gpu.resource_create_blob(0, RING, ring, vec![(0x1000, 0x1000)], &mem)));
    assert!(is_ok(gpu.attach_backing(RING, &mem, vec![])));
    assert!(is_ok(gpu.create_context(CONTEXT, 5, None)));
    assert!(is_ok(gpu.context_attach_resource(CONTEXT, RING)));
    let mut init = words(&[1 | (20 << 16), 0, RING, RING, 0]);
    assert!(is_ok(gpu.try_submit_command(CONTEXT, &mut init, &[]).unwrap()));
    assert!(!gpu.rings_sound(CONTEXT));
    assert!(gpu.try_submit_command(CONTEXT, &mut init, &[]).is_none());
    let mut write = words(&[7 | (24 << 16), 0, 0, 0, 0, 0]);
    assert!(gpu.try_submit_command(CONTEXT, &mut write, &[]).is_none());
    let mut poll = words(&[3 | (8 << 16), 0]);
    assert!(is_ok(gpu.try_submit_command(CONTEXT, &mut poll, &[]).unwrap()));
    let mut nothing = [0u8; 0];
    assert!(is_ok(gpu.try_submit_command(CONTEXT, &mut nothing, &[]).unwrap()));
    assert!(is_ok(gpu.destroy_context(CONTEXT)));
    assert!(gpu.rings_sound(CONTEXT));
}

#[test]
fn context_with_a_list_is_told_what_comes_to_an_end() {
    let mem = memory();
    let mut gpu = gpu(&mem);
    let ring = ResourceCreateBlob { blob_mem: 1, blob_flags: 1, blob_id: 0, size: 0x1000 };
    assert!(is_ok(gpu.resource_create_blob(0, RING, ring, vec![], &mem)));
    assert!(is_ok(gpu.attach_backing(RING, &mem, vec![(0x1000, 0x1000)])));
    assert!(is_ok(gpu.create_context(CONTEXT, 5, None)));
    assert!(is_ok(gpu.context_attach_resource(CONTEXT, RING)));
    let mut init = words(&[1 | (20 << 16), 0, RING, RING, 0]);
    assert!(is_ok(gpu.try_submit_command(CONTEXT, &mut init, &[]).unwrap()));
    assert!(gpu.rings_sound(CONTEXT));
    let format = u32::from_le_bytes([b'X', b'R', b'2', b'4']);
    let mut layout = words(&[2 | (24 << 16), 0, 16, 4, format, 0]);
    assert!(is_ok(gpu.try_submit_command(CONTEXT, &mut layout, &[]).unwrap()));
    assert_eq!(word(&mem, 0), 64);
    let mut endless = words(&[2, 0, 16, 4, format, 0]);
    assert!(gpu.try_submit_command(CONTEXT, &mut endless, &[]).is_none());
    // A context that the renderer does not hold.
    assert!(is_rutabaga(gpu.try_submit_command(9, &mut endless, &[]).unwrap()));
}

#[test]
fn renderer_without_a_way_to_flush_is_no_failure() {
    let mem = memory();
    let (mut gpu, _, _) = with_blob(&mem);
    assert!(is_ok(gpu.flush_renderer(BLOB)));
    assert!(is_rutabaga(gpu.flush_renderer(9)));
}
