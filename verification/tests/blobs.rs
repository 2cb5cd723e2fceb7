use virtio_gpu::blob::{
    map_prot, plan_descriptor, plan_hypervisor, plan_renderer, target_renderer, MapPlan, PROT_READ,
    PROT_WRITE, RUTABAGA_MAP_ACCESS_MASK, RUTABAGA_MAP_ACCESS_READ, RUTABAGA_MAP_ACCESS_RW,
    RUTABAGA_MAP_ACCESS_WRITE, RUTABAGA_MAP_CACHE_MASK, RUTABAGA_MEM_HANDLE_TYPE_DMABUF,
    RUTABAGA_MEM_HANDLE_TYPE_OPAQUE_FD, RUTABAGA_MEM_HANDLE_TYPE_SHM,
};
use virtio_gpu::protocol::VirtioShmRegion;

const REGION: VirtioShmRegion =
    VirtioShmRegion { host_addr: 0x7000_0000, guest_addr: 0x1_0000, size: 0x1000 };

#[test]
fn constants_are_those_of_the_host() {
    assert_eq!(PROT_READ, libc::PROT_READ);
    assert_eq!(PROT_WRITE, libc::PROT_WRITE);
    assert_eq!(RUTABAGA_MAP_CACHE_MASK, rutabaga_gfx::RUTABAGA_MAP_CACHE_MASK);
    assert_eq!(RUTABAGA_MAP_ACCESS_MASK, rutabaga_gfx::RUTABAGA_MAP_ACCESS_MASK);
    assert_eq!(RUTABAGA_MAP_ACCESS_READ, rutabaga_gfx::RUTABAGA_MAP_ACCESS_READ);
    assert_eq!(RUTABAGA_MAP_ACCESS_WRITE, rutabaga_gfx::RUTABAGA_MAP_ACCESS_WRITE);
    assert_eq!(RUTABAGA_MAP_ACCESS_RW, rutabaga_gfx::RUTABAGA_MAP_ACCESS_RW);
    assert_eq!(
        RUTABAGA_MEM_HANDLE_TYPE_OPAQUE_FD,
        rutabaga_gfx::RUTABAGA_MEM_HANDLE_TYPE_OPAQUE_FD
    );
    assert_eq!(RUTABAGA_MEM_HANDLE_TYPE_DMABUF, rutabaga_gfx::RUTABAGA_MEM_HANDLE_TYPE_DMABUF);
    assert_eq!(RUTABAGA_MEM_HANDLE_TYPE_SHM, rutabaga_gfx::RUTABAGA_MEM_HANDLE_TYPE_SHM);
}

#[test]
fn protection_follows_the_access_bits() {
    assert_eq!(map_prot(0x11), Some(libc::PROT_READ));
    assert_eq!(map_prot(0x20), Some(libc::PROT_WRITE));
    assert_eq!(map_prot(0x3f), Some(libc::PROT_READ | libc::PROT_WRITE));
    assert_eq!(map_prot(0x01), None);
    assert_eq!(map_prot(0x40), None);
    assert_eq!(map_prot(0x130), Some(libc::PROT_READ | libc::PROT_WRITE));
}

#[test]
fn descriptor_is_mapped_at_the_offset() {
    assert_eq!(
        plan_descriptor(0x200, 0x33, Some(4), &REGION, 0x400),
        Some(MapPlan::MapHandle { addr: 0x7000_0400, size: 0x200, prot: 3 })
    );
}

#[test]
fn descriptor_beyond_the_window_is_still_mapped() {
    assert_eq!(
        plan_descriptor(0x2000, 0x11, Some(2), &REGION, 0x400),
        Some(MapPlan::MapHandle { addr: 0x7000_0400, size: 0x2000, prot: 1 })
    );
}

#[test]
fn opaque_and_missing_descriptors_are_refused() {
    assert_eq!(plan_descriptor(0x200, 0x33, Some(1), &REGION, 0), None);
    assert_eq!(plan_descriptor(0x200, 0x33, None, &REGION, 0), None);
    assert_eq!(plan_descriptor(0x200, 0x03, None, &REGION, 0), None);
}

#[test]
fn descriptor_without_access_mode_or_address_is_impossible() {
    assert_eq!(plan_descriptor(0x200, 0x03, Some(4), &REGION, 0), Some(MapPlan::Impossible));
    assert_eq!(
        plan_descriptor(u64::MAX, 0x33, Some(4), &REGION, 1),
        Some(MapPlan::Impossible)
    );
    assert_eq!(
        plan_descriptor(0, 0x33, Some(4), &REGION, u64::MAX),
        Some(MapPlan::Impossible)
    );
}

#[test]
fn renderer_needs_room_in_the_window() {
    assert_eq!(target_renderer(0x1000, 0x11, &REGION, 0), Ok((0x7000_0000, 1)));
    assert_eq!(target_renderer(0xc00, 0x21, &REGION, 0x400), Ok((0x7000_0400, 2)));
    assert_eq!(target_renderer(0xc01, 0x21, &REGION, 0x400), Err(None));
    assert_eq!(target_renderer(1, 0x01, &REGION, 0), Err(Some(MapPlan::Impossible)));
    assert_eq!(target_renderer(u64::MAX, 0x11, &REGION, 1), Err(Some(MapPlan::Impossible)));
    let top = VirtioShmRegion { host_addr: u64::MAX, guest_addr: 0, size: 0x1000 };
    assert_eq!(target_renderer(1, 0x11, &top, 1), Err(Some(MapPlan::Impossible)));
}

#[test]
fn renderer_maps_what_is_no_plain_descriptor() {
    let by_handle = MapPlan::MapHandle { addr: 16, size: 8, prot: 1 };
    let by_renderer = MapPlan::MapByRenderer { addr: 16, size: 8, prot: 1 };
    assert_eq!(plan_renderer(8, 16, 1, Some(4)), by_handle);
    assert_eq!(plan_renderer(8, 16, 1, Some(2)), by_handle);
    assert_eq!(plan_renderer(8, 16, 1, Some(1)), by_renderer);
    assert_eq!(plan_renderer(8, 16, 1, None), MapPlan::MapNothing);
}

#[test]
fn hypervisor_maps_its_own_handles() {
    assert_eq!(
        plan_hypervisor(0x100, 0x5000, 8, Some(8), &REGION, 0xf00),
        Some(MapPlan::MapByHypervisor { map_ptr: 0x5000, guest_addr: 0x1_0f00, size: 0x100 })
    );
    assert_eq!(plan_hypervisor(0x101, 0x5000, 8, Some(8), &REGION, 0xf00), None);
    assert_eq!(plan_hypervisor(0x100, 0x5000, 8, Some(4), &REGION, 0), None);
    assert_eq!(plan_hypervisor(0x100, 0x5000, 8, None, &REGION, 0), None);
    assert_eq!(
        plan_hypervisor(u64::MAX, 0x5000, 8, Some(8), &REGION, 1),
        Some(MapPlan::Impossible)
    );
    let top = VirtioShmRegion { host_addr: 0, guest_addr: u64::MAX, size: 0x1000 };
    assert_eq!(plan_hypervisor(1, 0x5000, 8, Some(8), &top, 1), Some(MapPlan::Impossible));
}
