use rutabaga_gfx::{Rutabaga, RutabagaBuilder, RutabagaComponentType, RutabagaHandler};
use std::sync::{Arc, Mutex};
use virtio_gpu::device::VirtioGpu;
use virtio_gpu::fence::{FenceState, VirtioGpuRing};
use virtio_gpu::flush::{FlushAction, FlushEvent};
use virtio_gpu::model::{FrameStep, ScanoutStep};
use virtio_gpu::protocol::{GpuResponse, VirtioGpuResult};
use virtio_gpu::renderer::{ResourceCreate3D, ResourceCreateBlob, GpuFence, Transfer3D};
use virtio_gpu::resource::{DisplayInfo, ResourceFormat};
use vm_memory::{Bytes, GuestAddress, GuestMemoryMmap};

const FORMAT: Option<ResourceFormat> = Some(ResourceFormat { code: 1 });
const OFFSETS: [u32; 4] = [0; 4];

fn renderer() -> Rutabaga {
    RutabagaBuilder::new(RutabagaComponentType::Rutabaga2D, 0)
        .build(RutabagaHandler::new(|_| {}), None)
        .unwrap()
}

/// Two regions of guest memory, with a hole between them.
fn memory() -> GuestMemoryMmap {
    GuestMemoryMmap::from_ranges(&[
        (GuestAddress(0x1000), 0x1000),
        (GuestAddress(0x4000), 0x1000),
    ])
    .unwrap()
}

fn displays() -> Vec<DisplayInfo> {
    vec![
        DisplayInfo { width: 640, height: 480, edid: vec![1, 2, 3] },
        DisplayInfo { width: 800, height: 600, edid: vec![] },
    ]
}

fn gpu(mem: &GuestMemoryMmap) -> VirtioGpu {
    VirtioGpu::with_renderer(renderer(), false, displays(), mem.clone())
}

/// The scanouts on which a flush presents a resource.
fn flushed(gpu: &VirtioGpu, resource_id: u32) -> Result<Vec<u32>, GpuResponse> {
    let (mut flush, mut action) = gpu.flush_resource(resource_id, false);
    let mut scanouts = Vec::new();
    loop {
        action = match action {
            FlushAction::FillFrame { .. } => flush.step(FlushEvent::Frame(Ok(FrameStep::Filled))),
            FlushAction::PresentFrame { scanout_id } => {
                scanouts.push(scanout_id);
                flush.step(FlushEvent::Presented(Ok(())))
            }
            FlushAction::Answer(Ok(GpuResponse::OkNoData)) => return Ok(scanouts),
            FlushAction::Answer(Err(e)) => return Err(e),
            _ => panic!("unexpected action"),
        }
    }
}

fn is_ok(result: VirtioGpuResult) -> bool {
    matches!(result, Ok(GpuResponse::OkNoData))
}

fn is_unspec(result: VirtioGpuResult) -> bool {
    matches!(result, Err(GpuResponse::ErrUnspec))
}

fn is_invalid_resource(result: VirtioGpuResult) -> bool {
    matches!(result, Err(GpuResponse::ErrInvalidResourceId))
}

fn is_rutabaga(result: VirtioGpuResult) -> bool {
    matches!(result, Err(GpuResponse::ErrRutabaga(_)))
}

fn show(gpu: &mut VirtioGpu, scanout_id: u32, resource_id: u32) {
    let step = gpu.set_scanout(scanout_id, resource_id, 2, 2).unwrap();
    assert!(is_ok(gpu.finish_set_scanout(step, Ok(()))));
}

fn create_3d(width: u32, height: u32) -> ResourceCreate3D {
    ResourceCreate3D {
        target: 2,
        format: 1,
        bind: 2,
        width,
        height,
        depth: 1,
        array_size: 1,
        last_level: 0,
        nr_samples: 0,
        flags: 0,
    }
}

fn whole(w: u32, h: u32) -> Transfer3D {
    Transfer3D {
        x: 0,
        y: 0,
        z: 0,
        w,
        h,
        d: 1,
        level: 0,
        stride: 0,
        layer_stride: 0,
        offset: 0,
    }
}

fn numbered(len: usize) -> Vec<u8> {
    (0..len).map(|i| i as u8 + 1).collect()
}

#[test]
fn buffer_is_transferred_and_flushed() {
    let mem = memory();
    let pixels = numbered(16);
    mem.write_slice(&pixels[..6], GuestAddress(0x1100)).unwrap();
    mem.write_slice(&pixels[6..], GuestAddress(0x4200)).unwrap();
    let mut gpu = gpu(&mem);
    assert!(is_ok(gpu.resource_create_2d(1, FORMAT, 2, 2)));
    assert!(gpu.is_native_2d(1));
    assert!(!gpu.is_native_2d(2));
    assert!(is_ok(gpu.attach_backing(1, &mem, vec![(0x1100, 6), (0x4200, 10)])));
    assert!(gpu.transfer_fits(1, 0, 2, 2, 0));
    assert!(is_ok(gpu.transfer_to_host_2d(1, 0, 0, 2, 2, 0)));
    show(&mut gpu, 1, 1);
    assert_eq!(flushed(&gpu, 1).unwrap(), vec![1]);
    let mut frame = vec![0u8; 16];
    assert_eq!(gpu.read_frame(1, None, &mut frame), FrameStep::Filled);
    assert_eq!(frame, pixels);
}

#[test]
fn new_buffer_is_black_and_short_frames_get_what_fits() {
    let mut gpu = gpu(&memory());
    assert!(is_ok(gpu.resource_create_2d(1, FORMAT, 2, 2)));
    let mut frame = vec![7u8; 20];
    assert_eq!(gpu.read_frame(1, None, &mut frame), FrameStep::Filled);
    assert_eq!(frame[..16], [0u8; 16]);
    assert_eq!(frame[16..], [7u8; 4]);
    let mut frame = vec![7u8; 3];
    assert_eq!(gpu.read_frame(1, None, &mut frame), FrameStep::Filled);
    assert_eq!(frame, vec![0, 0, 0]);
}

#[test]
fn rectangle_is_transferred_from_its_offset() {
    let mem = memory();
    let pixels = numbered(36);
    mem.write_slice(&pixels, GuestAddress(0x1000)).unwrap();
    let mut gpu = gpu(&mem);
    assert!(is_ok(gpu.resource_create_2d(1, FORMAT, 3, 3)));
    assert!(is_ok(gpu.attach_backing(1, &mem, vec![(0x1000, 36)])));
    // One pixel in the middle of the first two rows.
    assert!(is_ok(gpu.transfer_to_host_2d(1, 1, 0, 1, 2, 4)));
    let mut frame = vec![0u8; 36];
    assert_eq!(gpu.read_frame(1, None, &mut frame), FrameStep::Filled);
    let mut expected = vec![0u8; 36];
    expected[4..8].copy_from_slice(&pixels[4..8]);
    expected[16..20].copy_from_slice(&pixels[16..20]);
    assert_eq!(frame, expected);
}

#[test]
fn rectangle_is_read_up_to_its_last_pixel() {
    let mem = memory();
    let pixels: Vec<u8> = (0..16).collect();
    mem.write_slice(&pixels, GuestAddress(0x1000)).unwrap();
    let mut gpu = gpu(&mem);
    assert!(is_ok(gpu.resource_create_2d(1, FORMAT, 2, 2)));
    assert!(is_ok(gpu.attach_backing(1, &mem, vec![(0x1000, 16)])));
    // The right column ends where the guest's buffer ends.
    assert!(is_ok(gpu.transfer_to_host_2d(1, 1, 0, 1, 2, 4)));
    let mut frame = vec![9u8; 16];
    assert_eq!(gpu.read_frame(1, None, &mut frame), FrameStep::Filled);
    assert_eq!(frame, vec![0, 0, 0, 0, 4, 5, 6, 7, 0, 0, 0, 0, 12, 13, 14, 15]);
    assert!(is_unspec(gpu.transfer_to_host_2d(1, 1, 0, 1, 2, 5)));
    // What is right of the buffer is left out, and takes one row less to read.
    assert!(is_ok(gpu.transfer_to_host_2d(1, 2, 0, 1, 2, 8)));
    assert!(is_unspec(gpu.transfer_to_host_2d(1, 2, 0, 1, 2, 9)));
    assert_eq!(gpu.read_frame(1, None, &mut frame), FrameStep::Filled);
    assert_eq!(frame, vec![0, 0, 0, 0, 4, 5, 6, 7, 0, 0, 0, 0, 12, 13, 14, 15]);
    assert!(is_ok(gpu.transfer_to_host_2d(1, 2, 0, 1, 1, 99)));
    assert!(is_ok(gpu.detach_backing(1)));
    assert!(is_unspec(gpu.transfer_to_host_2d(1, 2, 0, 1, 1, 0)));
}

#[test]
fn cut_of_guest_memory_does_not_matter() {
    let mem = memory();
    let pixels = numbered(16);
    mem.write_slice(&pixels, GuestAddress(0x1100)).unwrap();
    let cuts = vec![
        vec![(0x1100, 16)],
        vec![(0x1100, 1), (0x1101, 15)],
        vec![(0x1100, 8), (0x1108, 8)],
        vec![(0x1100, 5), (0x1105, 6), (0x110b, 5)],
    ];
    for backing in cuts {
        let mut gpu = gpu(&mem);
        assert!(is_ok(gpu.resource_create_2d(1, FORMAT, 2, 2)));
        assert!(is_ok(gpu.attach_backing(1, &mem, backing)));
        assert!(is_ok(gpu.transfer_to_host_2d(1, 0, 0, 2, 2, 0)));
        let mut frame = vec![0u8; 16];
        assert_eq!(gpu.read_frame(1, None, &mut frame), FrameStep::Filled);
        assert_eq!(frame, pixels);
        assert!(is_unspec(gpu.transfer_to_host_2d(1, 0, 0, 2, 2, 1)));
    }
}

#[test]
fn windows_host_has_the_renderer_flush() {
    let mut gpu = gpu(&memory());
    assert!(is_ok(gpu.resource_create_2d(1, FORMAT, 2, 2)));
    assert!(is_ok(gpu.resource_create_3d(2, create_3d(2, 2), FORMAT)));
    let (mut flush, action) = gpu.flush_resource(2, true);
    assert!(matches!(action, FlushAction::FlushRenderer));
    let answer = gpu.flush_renderer(2);
    assert!(is_ok(answer));
    assert!(matches!(
        flush.step(FlushEvent::Flushed(Ok(GpuResponse::OkNoData))),
        FlushAction::Answer(Ok(GpuResponse::OkNoData))
    ));
    // The renderer does not know the buffers of the device.
    assert!(matches!(gpu.flush_resource(1, true).1, FlushAction::FlushRenderer));
    assert!(is_rutabaga(gpu.flush_renderer(1)));
    assert!(matches!(
        gpu.flush_resource(0, true).1,
        FlushAction::Answer(Ok(GpuResponse::OkNoData))
    ));
    assert!(matches!(
        gpu.flush_resource(9, true).1,
        FlushAction::Answer(Err(GpuResponse::ErrInvalidResourceId))
    ));
}

#[test]
fn resource_is_read_into_a_buffer() {
    let mem = memory();
    let pixels = numbered(16);
    mem.write_slice(&pixels, GuestAddress(0x1000)).unwrap();
    let mut gpu = gpu(&mem);
    assert!(is_rutabaga(gpu.transfer_read(0, 1, whole(2, 2), None)));
    assert!(is_ok(gpu.resource_create_3d(1, create_3d(2, 2), FORMAT)));
    assert!(is_ok(gpu.attach_backing(1, &mem, vec![(0x1000, 16)])));
    assert!(is_ok(gpu.transfer_write(0, 1, whole(2, 2))));
    let mut buf = vec![0u8; 16];
    let rows = Transfer3D { stride: 8, ..whole(2, 2) };
    assert!(is_ok(gpu.transfer_read(0, 1, rows, Some(&mut buf))));
    assert_eq!(buf, pixels);
    let column = Transfer3D { x: 1, w: 1, stride: 8, ..rows };
    let mut buf = vec![0u8; 16];
    assert!(is_ok(gpu.transfer_read(0, 1, column, Some(&mut buf))));
    assert_eq!(buf, vec![0, 0, 0, 0, 5, 6, 7, 8, 0, 0, 0, 0, 13, 14, 15, 16]);
    // The software renderer needs a buffer.
    assert!(is_rutabaga(gpu.transfer_read(0, 1, rows, None)));
}

#[test]
fn transfers_that_cannot_be_read_are_refused() {
    let mem = memory();
    let mut gpu = gpu(&mem);
    assert!(is_invalid_resource(gpu.transfer_to_host_2d(1, 0, 0, 2, 2, 0)));
    assert!(is_ok(gpu.resource_create_2d(1, FORMAT, 2, 2)));
    // No guest memory.
    assert!(is_unspec(gpu.transfer_to_host_2d(1, 0, 0, 2, 2, 0)));
    // Nothing to read.
    assert!(is_ok(gpu.transfer_to_host_2d(1, 0, 0, 2, 0, 0)));
    // One byte short.
    assert!(is_ok(gpu.attach_backing(1, &mem, vec![(0x1000, 15)])));
    assert!(is_unspec(gpu.transfer_to_host_2d(1, 0, 0, 2, 2, 0)));
    assert!(is_ok(gpu.attach_backing(1, &mem, vec![(0x1000, 16)])));
    assert!(is_ok(gpu.transfer_to_host_2d(1, 0, 0, 2, 2, 0)));
    assert!(is_unspec(gpu.transfer_to_host_2d(1, 0, 0, 2, 2, 1)));
    // In the hole.
    assert!(is_ok(gpu.attach_backing(1, &mem, vec![(0x2000, 16)])));
    assert!(is_unspec(gpu.transfer_to_host_2d(1, 0, 0, 2, 2, 0)));
    assert!(is_ok(gpu.attach_backing(1, &mem, vec![(0x1ff8, 16)])));
    assert!(is_unspec(gpu.transfer_to_host_2d(1, 0, 0, 2, 2, 0)));
    // Detached.
    assert!(is_ok(gpu.attach_backing(1, &mem, vec![(0x1000, 16)])));
    assert!(is_ok(gpu.detach_backing(1)));
    assert!(is_unspec(gpu.transfer_to_host_2d(1, 0, 0, 2, 2, 0)));
}

#[test]
fn unaddressable_transfers_are_told() {
    let mem = memory();
    let mut gpu = gpu(&mem);
    assert!(gpu.transfer_fits(1, 0, u32::MAX, u32::MAX, 0));
    assert!(is_ok(gpu.resource_create_2d(1, FORMAT, 2, 2)));
    assert!(is_ok(gpu.attach_backing(1, &mem, vec![(u64::MAX, 32)])));
    assert!(gpu.transfer_fits(1, 0, 2, 2, 0));
    assert!(!gpu.transfer_fits(1, 0, 2, 2, 1));
    assert!(gpu.transfer_fits(1, 0, 2, 0, 1));
    assert!(gpu.transfer_fits(1, 0, 2, 2, 32));
}

#[test]
fn scanout_is_configured_for_its_display() {
    let mut gpu = gpu(&memory());
    assert!(is_ok(gpu.resource_create_2d(5, FORMAT, 2, 2)));
    let step = gpu.set_scanout(1, 5, 20, 10).unwrap();
    assert_eq!(
        step,
        ScanoutStep::Configure {
            scanout_id: 1,
            resource_id: 5,
            display_width: 800,
            display_height: 600,
            width: 20,
            height: 10,
            format: ResourceFormat { code: 1 },
        }
    );
    assert!(is_ok(gpu.finish_set_scanout(step, Ok(()))));
}

#[test]
fn scanout_moves_from_resource_to_resource() {
    let mut gpu = gpu(&memory());
    assert!(is_ok(gpu.resource_create_2d(1, FORMAT, 2, 2)));
    assert!(is_ok(gpu.resource_create_2d(2, FORMAT, 2, 2)));
    show(&mut gpu, 0, 1);
    show(&mut gpu, 1, 1);
    assert_eq!(flushed(&gpu, 1).unwrap(), vec![0, 1]);
    show(&mut gpu, 0, 2);
    assert_eq!(flushed(&gpu, 1).unwrap(), vec![1]);
    assert_eq!(flushed(&gpu, 2).unwrap(), vec![0]);
    show(&mut gpu, 0, 2);
    assert_eq!(flushed(&gpu, 2).unwrap(), vec![0]);
}

#[test]
fn scanout_is_disabled_by_resource_zero() {
    let mut gpu = gpu(&memory());
    assert!(is_ok(gpu.resource_create_2d(1, FORMAT, 2, 2)));
    show(&mut gpu, 0, 1);
    assert_eq!(gpu.set_scanout(0, 0, 0, 0).unwrap(), ScanoutStep::Disable { scanout_id: 0 });
    let step = ScanoutStep::Disable { scanout_id: 0 };
    assert!(is_ok(gpu.finish_set_scanout(step, Ok(()))));
    assert_eq!(flushed(&gpu, 1).unwrap(), Vec::<u32>::new());
    show(&mut gpu, 0, 1);
    let step = gpu.set_scanout_blob(0, 0, None, 0, 0, [0; 4], OFFSETS).unwrap();
    assert_eq!(step, ScanoutStep::Disable { scanout_id: 0 });
    assert_eq!(flushed(&gpu, 1).unwrap(), Vec::<u32>::new());
    assert!(is_ok(gpu.unref_resource(1)));
}

#[test]
fn refusal_of_the_display_is_passed_on() {
    let mut gpu = gpu(&memory());
    assert!(is_ok(gpu.resource_create_2d(1, FORMAT, 2, 2)));
    let step = gpu.set_scanout(0, 1, 2, 2).unwrap();
    assert!(is_unspec(gpu.finish_set_scanout(step, Err(GpuResponse::ErrUnspec))));
    // The resource keeps its mark, and the scanout shows nothing.
    assert_eq!(flushed(&gpu, 1).unwrap(), vec![0]);
    let step = gpu.set_scanout(0, 0, 0, 0).unwrap();
    assert!(is_ok(gpu.finish_set_scanout(step, Ok(()))));
    assert_eq!(flushed(&gpu, 1).unwrap(), vec![0]);
}

#[test]
fn scanout_errors() {
    let mut gpu = gpu(&memory());
    let invalid_scanout = |r| matches!(r, Err(GpuResponse::ErrInvalidScanoutId));
    let invalid_resource = |r| matches!(r, Err(GpuResponse::ErrInvalidResourceId));
    assert!(is_ok(gpu.resource_create_2d(1, FORMAT, 2, 2)));
    assert!(is_ok(gpu.resource_create_2d(2, None, 2, 2)));
    assert!(invalid_scanout(gpu.set_scanout(16, 1, 2, 2)));
    assert!(invalid_scanout(gpu.set_scanout(16, 0, 2, 2)));
    assert!(invalid_resource(gpu.set_scanout(0, 9, 2, 2)));
    assert!(matches!(gpu.set_scanout(0, 2, 2, 2), Err(GpuResponse::ErrUnspec)));
    // There are two displays.
    assert!(invalid_scanout(gpu.set_scanout(2, 1, 2, 2)));
    assert!(invalid_scanout(gpu.set_scanout_blob(16, 1, FORMAT, 2, 2, [0; 4], OFFSETS)));
    assert!(invalid_resource(gpu.set_scanout_blob(0, 9, FORMAT, 2, 2, [0; 4], OFFSETS)));
    assert!(matches!(
        gpu.set_scanout_blob(0, 1, None, 2, 2, [0; 4], OFFSETS),
        Err(GpuResponse::ErrUnspec)
    ));
    assert!(invalid_scanout(gpu.set_scanout_blob(2, 1, FORMAT, 2, 2, [0; 4], OFFSETS)));
}

#[test]
fn scanout_of_a_dropped_resource() {
    let mut gpu = gpu(&memory());
    assert!(is_ok(gpu.resource_create_2d(1, FORMAT, 2, 2)));
    assert!(is_ok(gpu.resource_create_2d(2, FORMAT, 2, 2)));
    show(&mut gpu, 0, 1);
    // Refused, and dropped all the same.
    assert!(is_unspec(gpu.unref_resource(1)));
    assert!(is_invalid_resource(gpu.unref_resource(1)));
    assert!(matches!(gpu.set_scanout(0, 2, 2, 2), Err(GpuResponse::ErrInvalidResourceId)));
    assert!(matches!(gpu.set_scanout(0, 0, 2, 2), Err(GpuResponse::ErrInvalidResourceId)));
    // The command for blobs does not mind.
    let step = gpu.set_scanout_blob(0, 2, FORMAT, 2, 2, [0; 4], OFFSETS).unwrap();
    assert!(is_ok(gpu.finish_set_scanout(step, Ok(()))));
    show(&mut gpu, 0, 0);
}

#[test]
fn blob_geometry_is_given_only_where_the_command_gets_that_far() {
    let mut gpu = gpu(&memory());
    assert!(is_ok(gpu.resource_create_2d(1, None, 2, 2)));
    assert!(gpu.stamps_scanout_blob(0, 1, FORMAT));
    assert!(!gpu.stamps_scanout_blob(16, 1, FORMAT));
    assert!(!gpu.stamps_scanout_blob(0, 0, FORMAT));
    assert!(!gpu.stamps_scanout_blob(0, 2, FORMAT));
    assert!(!gpu.stamps_scanout_blob(0, 1, None));
    // The format of the command makes the resource fit for SET_SCANOUT.
    assert!(gpu.set_scanout(0, 1, 2, 2).is_err());
    assert!(gpu.set_scanout_blob(0, 1, FORMAT, 2, 2, [8, 0, 0, 0], OFFSETS).is_ok());
    assert!(gpu.set_scanout(0, 1, 2, 2).is_ok());
}

#[test]
fn flush_of_nothing_and_of_the_unknown() {
    let gpu = gpu(&memory());
    assert_eq!(flushed(&gpu, 0).unwrap(), Vec::<u32>::new());
    assert!(matches!(flushed(&gpu, 1), Err(GpuResponse::ErrInvalidResourceId)));
}

#[test]
fn buffer_can_be_dropped_and_made_again() {
    let mut gpu = gpu(&memory());
    assert!(is_ok(gpu.resource_create_2d(1, FORMAT, 2, 2)));
    assert!(is_ok(gpu.unref_resource(1)));
    assert!(!gpu.is_native_2d(1));
    assert!(is_invalid_resource(gpu.unref_resource(1)));
    assert!(is_ok(gpu.resource_create_2d(1, FORMAT, 2, 2)));
}

#[test]
fn rendered_resource_is_written_and_read() {
    let mem = memory();
    let pixels = numbered(16);
    mem.write_slice(&pixels[..8], GuestAddress(0x1010)).unwrap();
    mem.write_slice(&pixels[8..], GuestAddress(0x4000)).unwrap();
    let mut gpu = gpu(&mem);
    assert!(is_ok(gpu.resource_create_3d(3, create_3d(2, 2), FORMAT)));
    assert!(!gpu.is_native_2d(3));
    assert!(is_ok(gpu.attach_backing(3, &mem, vec![(0x1010, 8), (0x4000, 8)])));
    assert!(is_ok(gpu.transfer_write(0, 3, whole(2, 2))));
    assert!(gpu.frame_stride_fits(3));
    let mut frame = vec![0u8; 16];
    assert_eq!(gpu.read_frame(3, None, &mut frame), FrameStep::Filled);
    assert_eq!(frame, pixels);
    show(&mut gpu, 0, 3);
    assert_eq!(flushed(&gpu, 3).unwrap(), vec![0]);
    show(&mut gpu, 0, 0);
    assert!(is_ok(gpu.detach_backing(3)));
    assert!(is_rutabaga(gpu.transfer_write(0, 3, whole(2, 2))));
    assert!(is_ok(gpu.unref_resource(3)));
    assert!(is_rutabaga(gpu.detach_backing(3)));
}

#[test]
fn frame_that_is_too_small_is_not_read() {
    let mut gpu = gpu(&memory());
    assert!(is_ok(gpu.resource_create_3d(3, create_3d(2, 2), FORMAT)));
    let mut frame = vec![0u8; 15];
    assert_eq!(gpu.read_frame(3, None, &mut frame), FrameStep::NotRead);
}

#[test]
fn renderer_refuses_a_second_resource_of_one_id() {
    let mut gpu = gpu(&memory());
    assert!(is_ok(gpu.resource_create_3d(3, create_3d(2, 2), FORMAT)));
    assert!(is_rutabaga(gpu.resource_create_3d(3, create_3d(4, 4), None)));
    // The record is that of the first.
    assert!(gpu.set_scanout(0, 3, 2, 2).is_ok());
}

#[test]
fn dropped_resource_can_be_created_again() {
    let mut gpu = gpu(&memory());
    assert!(is_ok(gpu.resource_create_3d(3, create_3d(2, 2), FORMAT)));
    assert!(is_ok(gpu.unref_resource(3)));
    assert!(is_ok(gpu.resource_create_3d(3, create_3d(4, 4), FORMAT)));
}

#[test]
fn software_renderer_has_no_blobs() {
    let mem = memory();
    let mut gpu = gpu(&mem);
    let blob = ResourceCreateBlob { blob_mem: 2, blob_flags: 1, blob_id: 0, size: 4096 };
    assert!(is_rutabaga(gpu.resource_create_blob(0, 4, blob, vec![], &mem)));
    assert!(is_invalid_resource(gpu.unref_resource(4)));
}

#[test]
fn backing_of_rendered_resources_has_to_be_guest_memory() {
    let mem = memory();
    let mut gpu = gpu(&mem);
    assert!(is_ok(gpu.resource_create_3d(3, create_3d(2, 2), FORMAT)));
    assert!(is_unspec(gpu.attach_backing(3, &mem, vec![(0x1000, 8), (0x3000, 8)])));
    assert!(is_unspec(gpu.attach_backing(3, &mem, vec![(0x1ff9, 8)])));
    assert!(is_ok(gpu.attach_backing(3, &mem, vec![(0x1ff8, 8)])));
    assert!(is_rutabaga(gpu.attach_backing(4, &mem, vec![(0x1000, 8)])));
    let blob = ResourceCreateBlob { blob_mem: 1, blob_flags: 1, blob_id: 0, size: 8 };
    assert!(is_unspec(gpu.resource_create_blob(0, 5, blob, vec![(0x3000, 8)], &mem)));
}

#[test]
fn long_rows_are_told() {
    let mut gpu = gpu(&memory());
    assert!(gpu.frame_stride_fits(1));
    assert!(is_ok(gpu.resource_create_3d(1, create_3d(0x3fff_ffff, 0), FORMAT)));
    assert!(gpu.frame_stride_fits(1));
    assert!(is_ok(gpu.resource_create_2d(2, FORMAT, u32::MAX, 0)));
    assert!(gpu.frame_stride_fits(2));
    // Stamping a rendered resource with another geometry.
    assert!(gpu.set_scanout_blob(0, 1, FORMAT, 0x4000_0000, 1, [1, 0, 0, 0], OFFSETS).is_ok());
    assert!(!gpu.frame_stride_fits(1));
}

#[test]
fn uuid_is_the_resource_id() {
    let mut gpu = gpu(&memory());
    assert!(is_invalid_resource(gpu.resource_assign_uuid(0x0102_0304)));
    assert!(is_ok(gpu.resource_create_2d(0x0102_03f4, FORMAT, 1, 1)));
    match gpu.resource_assign_uuid(0x0102_03f4) {
        Ok(GpuResponse::OkResourceUuid { uuid }) => {
            assert_eq!(uuid, [0, 0, 0, 0, 0, 0, 0, 0, 0, 0, 0, 0, 1, 2, 3, 0xf4]);
        }
        _ => panic!("no uuid"),
    }
}

#[test]
fn displays_are_described() {
    let gpu = gpu(&memory());
    match gpu.display_info() {
        Ok(GpuResponse::OkDisplayInfo(info)) => {
            assert_eq!(info, vec![(640, 480, true), (800, 600, true)]);
        }
        _ => panic!("no display info"),
    }
    match gpu.get_edid(0) {
        Ok(GpuResponse::OkEdid(edid)) => assert_eq!(edid, vec![1, 2, 3]),
        _ => panic!("no description"),
    }
    assert!(matches!(gpu.get_edid(2), Err(GpuResponse::ErrInvalidScanoutId)));
}

#[test]
fn software_renderer_has_neither_capsets_nor_contexts() {
    let mut gpu = gpu(&memory());
    gpu.force_ctx_0();
    assert!(is_rutabaga(gpu.get_capset_info(0)));
    assert!(matches!(gpu.get_capset(1, 0), Ok(GpuResponse::OkCapset(capset)) if capset.is_empty()));
    assert!(is_rutabaga(gpu.create_context(1, 0, Some("test"))));
    assert!(is_rutabaga(gpu.destroy_context(1)));
    assert!(is_rutabaga(gpu.context_attach_resource(1, 1)));
    assert!(is_rutabaga(gpu.context_detach_resource(1, 1)));
    assert!(is_rutabaga(gpu.submit_command(1, &mut [0; 8], &[])));
}

#[test]
fn fence_reaches_its_handler() {
    let state = Arc::new(Mutex::new(FenceState::new()));
    let given_back = Arc::new(Mutex::new(Vec::new()));
    let handler_state = state.clone();
    let handler_given_back = given_back.clone();
    let handler = RutabagaHandler::new(move |fence: rutabaga_gfx::RutabagaFence| {
        let done = handler_state.lock().unwrap().complete_fence(GpuFence {
            flags: fence.flags,
            fence_id: fence.fence_id,
            ctx_id: fence.ctx_id,
            ring_idx: fence.ring_idx,
        });
        handler_given_back.lock().unwrap().extend(done);
    });
    let renderer =
        RutabagaBuilder::new(RutabagaComponentType::Rutabaga2D, 0).build(handler, None).unwrap();
    let mut gpu = VirtioGpu::with_renderer(renderer, false, displays(), memory());
    let global = VirtioGpuRing::Global;
    assert!(!gpu.process_fence(&mut state.lock().unwrap(), global, 3, 9, 24));
    let fence = GpuFence { flags: 1, fence_id: 3, ctx_id: 0, ring_idx: 0 };
    assert!(is_ok(gpu.create_fence(fence)));
    assert_eq!(*given_back.lock().unwrap(), vec![(9, 24)]);
    assert!(gpu.process_fence(&mut state.lock().unwrap(), global, 3, 10, 24));
    // A ring of a context that does not exist.
    assert!(is_rutabaga(gpu.create_fence(GpuFence { flags: 3, ..fence })));
}

#[test]
fn blobs_of_the_software_renderer_cannot_be_mapped() {
    let mut gpu = gpu(&memory());
    let region =
        virtio_gpu::protocol::VirtioShmRegion { host_addr: 0, guest_addr: 0, size: 4096 };
    let mapping = virtio_gpu::blob::BlobMapping::Descriptor;
    assert!(matches!(
        gpu.resource_map_blob(1, &region, 0, mapping),
        Err(GpuResponse::ErrInvalidResourceId)
    ));
    assert!(is_ok(gpu.resource_create_2d(1, FORMAT, 1, 1)));
    assert!(is_ok(gpu.resource_create_3d(2, create_3d(1, 1), FORMAT)));
    for id in [1, 2] {
        assert!(matches!(
            gpu.resource_map_blob(id, &region, 0, mapping),
            Err(GpuResponse::ErrUnspec)
        ));
    }
    assert_eq!(gpu.shmem_offset(1), None);
    let side = virtio_gpu::blob::WindowSide::Host;
    assert!(matches!(
        gpu.resource_unmap_blob(2, &region, side),
        Err(GpuResponse::ErrUnspec)
    ));
    assert!(matches!(
        gpu.resource_unmap_blob(3, &region, side),
        Err(GpuResponse::ErrInvalidResourceId)
    ));
}
