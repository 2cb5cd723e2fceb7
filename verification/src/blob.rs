//! How a blob gets into the shared memory window of the guest.
//!
//! The mapping itself is made outside: the functions here decide what has to be
//! mapped where, for each answer of the renderer.

use crate::protocol::{GpuResponse, VirtioShmRegion};
use crate::renderer::ExportedBlob;
use vstd::prelude::*;

verus! {

/// The caching part of a blob's mapping information.
pub const RUTABAGA_MAP_CACHE_MASK: u32 = 0x0f;

/// The access part of a blob's mapping information.
pub const RUTABAGA_MAP_ACCESS_MASK: u32 = 0xf0;

/// The blob is read only.
pub const RUTABAGA_MAP_ACCESS_READ: u32 = 0x10;

/// The blob is written only.
pub const RUTABAGA_MAP_ACCESS_WRITE: u32 = 0x20;

/// The blob is read and written.
pub const RUTABAGA_MAP_ACCESS_RW: u32 = 0x30;

/// A handle that only its maker can map.
pub const RUTABAGA_MEM_HANDLE_TYPE_OPAQUE_FD: u32 = 1;

/// A descriptor of device memory.
pub const RUTABAGA_MEM_HANDLE_TYPE_DMABUF: u32 = 2;

/// A descriptor of shared memory.
pub const RUTABAGA_MEM_HANDLE_TYPE_SHM: u32 = 4;

/// Page protection of a mapping that can be read.
pub const PROT_READ: i32 = 1;

/// Page protection of a mapping that can be written.
pub const PROT_WRITE: i32 = 2;

/// How the host puts blobs into the window.
#[derive(Clone, Copy, Debug, PartialEq, Eq, Structural)]
pub enum BlobMapping {
    /// The exported descriptor is mapped into the host's view of the window.
    Descriptor,
    /// As `Descriptor` for plain descriptors; the renderer maps the rest.
    Renderer,
    /// The host address `map_ptr` of the blob, `None` where there is none, is
    /// handed to the hypervisor, if the blob exports as `handle_type`.
    Hypervisor { map_ptr: Option<u64>, handle_type: u32 },
}

/// What has to be done to map a blob.
#[derive(Clone, Copy, Debug, PartialEq, Eq, Structural)]
pub enum MapPlan {
    /// Map the exported handle at host address `addr`.
    MapHandle { addr: u64, size: u64, prot: i32 },
    /// Let the renderer map the blob at host address `addr`.
    MapByRenderer { addr: u64, size: u64, prot: i32 },
    /// Have the hypervisor show host memory at guest address `guest_addr`.
    MapByHypervisor { map_ptr: u64, guest_addr: u64, size: u64 },
    /// There is nothing to map.
    MapNothing,
    /// The mapping has no protection or no address: the access mode is unknown,
    /// or the blob would end beyond the last address.
    Impossible,
}

/// A blob on its way into the window.
pub struct MapRequest {
    pub resource_id: u32,
    pub offset: u64,
    pub map_info: u32,
    pub plan: MapPlan,
    /// The exported blob, where it was exported.
    pub export: Option<ExportedBlob>,
}

/// A blob on its way out of the window: `size` bytes at `addr`.
#[derive(Clone, Copy, Debug, PartialEq, Eq, Structural)]
pub struct UnmapRequest {
    pub resource_id: u32,
    pub addr: u64,
    pub size: u64,
}

/// The side from which the window is addressed.
#[derive(Clone, Copy, Debug, PartialEq, Eq, Structural)]
pub enum WindowSide {
    Host,
    Guest,
}

/// Where the window starts, seen from `side`.
pub open spec fn window_base(region: VirtioShmRegion, side: WindowSide) -> u64 {
    match side {
        WindowSide::Host => region.host_addr,
        WindowSide::Guest => region.guest_addr,
    }
}

/// The protection of a mapping with the given mapping information, `None` for
/// an access mode that is none of the three.
pub open spec fn map_prot_spec(map_info: u32) -> Option<i32> {
    let access = map_info & RUTABAGA_MAP_ACCESS_MASK;
    if access == RUTABAGA_MAP_ACCESS_READ {
        Some(PROT_READ)
    } else if access == RUTABAGA_MAP_ACCESS_WRITE {
        Some(PROT_WRITE)
    } else if access == RUTABAGA_MAP_ACCESS_RW {
        Some(3)
    } else {
        None
    }
}

/// The protection of a mapping with the given mapping information.
pub fn map_prot(map_info: u32) -> (result: Option<i32>)
    ensures
        result == map_prot_spec(map_info),
{
    let access: u32 = map_info & RUTABAGA_MAP_ACCESS_MASK;
    if access == RUTABAGA_MAP_ACCESS_READ {
        Some(PROT_READ)
    } else if access == RUTABAGA_MAP_ACCESS_WRITE {
        Some(PROT_WRITE)
    } else if access == RUTABAGA_MAP_ACCESS_RW {
        assert(1i32 | 2i32 == 3i32) by (bit_vector);
        Some(PROT_READ | PROT_WRITE)
    } else {
        None
    }
}

/// What `BlobMapping::Descriptor` does with a blob of `size` bytes: `None` where
/// it refuses. A blob whose handle was not exported (`None`), or whose handle
/// only its maker can map, is refused. A blob that is too large for the window
/// is not.
pub open spec fn descriptor_plan(
    size: u64,
    map_info: u32,
    exported: Option<u32>,
    region: VirtioShmRegion,
    offset: u64,
) -> Option<MapPlan> {
    match exported {
        None => None,
        Some(handle_type) => if handle_type == RUTABAGA_MEM_HANDLE_TYPE_OPAQUE_FD {
            None
        } else {
            match map_prot_spec(map_info) {
                None => Some(MapPlan::Impossible),
                Some(prot) => if offset + size > u64::MAX || region.host_addr + offset > u64::MAX {
                    Some(MapPlan::Impossible)
                } else {
                    Some(
                        MapPlan::MapHandle { addr: (region.host_addr + offset) as u64, size, prot },
                    )
                },
            }
        },
    }
}

/// What `BlobMapping::Descriptor` does with a blob of `size` bytes.
pub fn plan_descriptor(
    size: u64,
    map_info: u32,
    exported: Option<u32>,
    region: &VirtioShmRegion,
    offset: u64,
) -> (result: Option<MapPlan>)
    ensures
        result == descriptor_plan(size, map_info, exported, *region, offset),
{
    match exported {
        Some(handle_type) if handle_type != RUTABAGA_MEM_HANDLE_TYPE_OPAQUE_FD => {
            let prot: i32 = match map_prot(map_info) {
                Some(prot) => prot,
                None => {
                    return Some(MapPlan::Impossible);
                },
            };
            if offset.checked_add(size).is_none() {
                return Some(MapPlan::Impossible);
            }
            match region.host_addr.checked_add(offset) {
                Some(addr) => Some(MapPlan::MapHandle { addr, size, prot }),
                None => Some(MapPlan::Impossible),
            }
        },
        _ => None,
    }
}

/// What has to hold before `BlobMapping::Renderer` asks for a handle: where it
/// does, the address and the protection of the mapping. `Err(None)` refuses a
/// blob that is too large for the window.
pub open spec fn renderer_target(
    size: u64,
    map_info: u32,
    region: VirtioShmRegion,
    offset: u64,
) -> Result<(u64, i32), Option<MapPlan>> {
    match map_prot_spec(map_info) {
        None => Err(Some(MapPlan::Impossible)),
        Some(prot) => if offset + size > u64::MAX {
            Err(Some(MapPlan::Impossible))
        } else if offset + size > region.size {
            Err(None)
        } else if region.host_addr + offset > u64::MAX {
            Err(Some(MapPlan::Impossible))
        } else {
            Ok(((region.host_addr + offset) as u64, prot))
        },
    }
}

/// What `BlobMapping::Renderer` decides before it asks for a handle.
pub fn target_renderer(size: u64, map_info: u32, region: &VirtioShmRegion, offset: u64) -> (result:
    Result<(u64, i32), Option<MapPlan>>)
    ensures
        result == renderer_target(size, map_info, *region, offset),
{
    let prot: i32 = match map_prot(map_info) {
        Some(prot) => prot,
        None => {
            return Err(Some(MapPlan::Impossible));
        },
    };
    let end: u64 = match offset.checked_add(size) {
        Some(end) => end,
        None => {
            return Err(Some(MapPlan::Impossible));
        },
    };
    if end > region.size as u64 {
        return Err(None);
    }
    match region.host_addr.checked_add(offset) {
        Some(addr) => Ok((addr, prot)),
        None => Err(Some(MapPlan::Impossible)),
    }
}

/// What `BlobMapping::Renderer` does with a blob for which an address and a
/// protection were found: plain descriptors are mapped, other handles are left
/// to the renderer, and without a handle there is nothing to map.
pub open spec fn renderer_plan(
    size: u64,
    addr: u64,
    prot: i32,
    exported: Option<u32>,
) -> MapPlan {
    match exported {
        None => MapPlan::MapNothing,
        Some(handle_type) => if handle_type == RUTABAGA_MEM_HANDLE_TYPE_SHM || handle_type
            == RUTABAGA_MEM_HANDLE_TYPE_DMABUF {
            MapPlan::MapHandle { addr, size, prot }
        } else {
            MapPlan::MapByRenderer { addr, size, prot }
        },
    }
}

/// What `BlobMapping::Renderer` does with an exported blob.
pub fn plan_renderer(size: u64, addr: u64, prot: i32, exported: Option<u32>) -> (result: MapPlan)
    ensures
        result == renderer_plan(size, addr, prot, exported),
{
    match exported {
        Some(handle_type) => {
            if handle_type == RUTABAGA_MEM_HANDLE_TYPE_SHM || handle_type
                == RUTABAGA_MEM_HANDLE_TYPE_DMABUF {
                MapPlan::MapHandle { addr, size, prot }
            } else {
                MapPlan::MapByRenderer { addr, size, prot }
            }
        },
        None => MapPlan::MapNothing,
    }
}

/// What `BlobMapping::Hypervisor` does with a blob of `size` bytes at host
/// address `map_ptr`: `None` where it refuses. Only handles of type
/// `handle_type` are mapped, and only blobs that fit into the window.
pub open spec fn hypervisor_plan(
    size: u64,
    map_ptr: u64,
    handle_type: u32,
    exported: Option<u32>,
    region: VirtioShmRegion,
    offset: u64,
) -> Option<MapPlan> {
    if exported != Some(handle_type) {
        None
    } else if offset + size > u64::MAX {
        Some(MapPlan::Impossible)
    } else if offset + size > region.size {
        None
    } else if region.guest_addr + offset > u64::MAX {
        Some(MapPlan::Impossible)
    } else {
        Some(
            MapPlan::MapByHypervisor {
                map_ptr,
                guest_addr: (region.guest_addr + offset) as u64,
                size,
            },
        )
    }
}

/// What `BlobMapping::Hypervisor` does with a blob of `size` bytes.
pub fn plan_hypervisor(
    size: u64,
    map_ptr: u64,
    handle_type: u32,
    exported: Option<u32>,
    region: &VirtioShmRegion,
    offset: u64,
) -> (result: Option<MapPlan>)
    ensures
        result == hypervisor_plan(size, map_ptr, handle_type, exported, *region, offset),
{
    match exported {
        Some(exported_type) if exported_type == handle_type => {
            let end: u64 = match offset.checked_add(size) {
                Some(end) => end,
                None => {
                    return Some(MapPlan::Impossible);
                },
            };
            if end > region.size as u64 {
                return None;
            }
            match region.guest_addr.checked_add(offset) {
                Some(guest_addr) => Some(MapPlan::MapByHypervisor { map_ptr, guest_addr, size }),
                None => Some(MapPlan::Impossible),
            }
        },
        _ => None,
    }
}

/// The protection of a mapping is what the blob's access bits say: it can be read
/// where they say so, it can be written where they say so, and there is none
/// where they say neither or anything else. The caching bits and those above do
/// not matter.
pub proof fn law_protection_is_access(map_info: u32)
    ensures
        map_prot_spec(map_info) is Some <==> map_info & 0x30 != 0 && map_info & 0xc0 == 0,
        map_prot_spec(map_info) matches Some(prot) ==> {
            &&& 1 <= prot <= 3
            &&& (prot == 1 || prot == 3) == (map_info & 0x10 != 0)
            &&& (prot == 2 || prot == 3) == (map_info & 0x20 != 0)
        },
{
    assert((map_info & 0xf0 == 0x10) == (map_info & 0x10 != 0 && map_info & 0x20 == 0 && map_info
        & 0xc0 == 0)) by (bit_vector);
    assert((map_info & 0xf0 == 0x20) == (map_info & 0x10 == 0 && map_info & 0x20 != 0 && map_info
        & 0xc0 == 0)) by (bit_vector);
    assert((map_info & 0xf0 == 0x30) == (map_info & 0x10 != 0 && map_info & 0x20 != 0 && map_info
        & 0xc0 == 0)) by (bit_vector);
    assert((map_info & 0x30 != 0) == (map_info & 0x10 != 0 || map_info & 0x20 != 0))
        by (bit_vector);
}

/// Every blob with a handle that can be mapped is mapped: where the access mode is
/// one of the three and the addresses exist, the handle goes to `offset` of the
/// host's view of the window, wherever that lies and however long the window is,
/// with all bytes of the blob and the protection of its access mode.
pub proof fn law_descriptor_is_mapped(
    size: u64,
    map_info: u32,
    handle_type: u32,
    region: VirtioShmRegion,
    offset: u64,
)
    requires
        handle_type != 1,
        map_info & 0x30 != 0,
        map_info & 0xc0 == 0,
        offset + size <= u64::MAX,
        region.host_addr + offset <= u64::MAX,
    ensures
        descriptor_plan(size, map_info, Some(handle_type), region, offset) matches Some(
            MapPlan::MapHandle { addr, size: bytes, prot },
        ) && {
            &&& addr == region.host_addr + offset
            &&& bytes == size
            &&& 1 <= prot <= 3
            &&& (prot == 1 || prot == 3) == (map_info & 0x10 != 0)
            &&& (prot == 2 || prot == 3) == (map_info & 0x20 != 0)
        },
{
    law_protection_is_access(map_info);
}

/// A blob without a handle that can be mapped is refused, and one without an
/// access mode or an address cannot be mapped.
pub proof fn law_descriptor_is_not_mapped(
    size: u64,
    map_info: u32,
    handle_type: u32,
    region: VirtioShmRegion,
    offset: u64,
)
    ensures
        descriptor_plan(size, map_info, None, region, offset) is None,
        descriptor_plan(size, map_info, Some(1), region, offset) is None,
        handle_type != 1 && (map_info & 0x30 == 0 || map_info & 0xc0 != 0 || offset + size
            > u64::MAX || region.host_addr + offset > u64::MAX) ==> descriptor_plan(
            size,
            map_info,
            Some(handle_type),
            region,
            offset,
        ) == Some(MapPlan::Impossible),
{
    law_protection_is_access(map_info);
}

/// A blob that fits into the window goes to `offset` of the host's view of it, with
/// the protection of its access mode: by its handle where that is a descriptor of
/// device memory or of shared memory, and by the renderer where it is another.
/// Without a handle there is nothing to map.
pub proof fn law_renderer_is_asked(
    size: u64,
    map_info: u32,
    handle_type: u32,
    region: VirtioShmRegion,
    offset: u64,
)
    requires
        map_info & 0x30 != 0,
        map_info & 0xc0 == 0,
        offset + size <= region.size,
        region.host_addr + offset <= u64::MAX,
    ensures
        renderer_target(size, map_info, region, offset) matches Ok((addr, prot)) && {
            &&& addr == region.host_addr + offset
            &&& 1 <= prot <= 3
            &&& (prot == 1 || prot == 3) == (map_info & 0x10 != 0)
            &&& (prot == 2 || prot == 3) == (map_info & 0x20 != 0)
            &&& renderer_plan(size, addr, prot, Some(handle_type)) == if handle_type == 2
                || handle_type == 4 {
                MapPlan::MapHandle { addr, size, prot }
            } else {
                MapPlan::MapByRenderer { addr, size, prot }
            }
            &&& renderer_plan(size, addr, prot, None) == MapPlan::MapNothing
        },
{
    law_protection_is_access(map_info);
}

/// A blob that does not fit into the window is refused by those that look at it,
/// and a blob whose addresses do not exist cannot be mapped.
pub proof fn law_window_is_not_left(
    size: u64,
    map_info: u32,
    map_ptr: u64,
    handle_type: u32,
    region: VirtioShmRegion,
    offset: u64,
)
    ensures
        map_info & 0x30 == 0 || map_info & 0xc0 != 0 ==> renderer_target(
            size,
            map_info,
            region,
            offset,
        ) == Err::<(u64, i32), Option<MapPlan>>(Some(MapPlan::Impossible)),
        map_info & 0x30 != 0 && map_info & 0xc0 == 0 && region.size < offset + size <= u64::MAX
            ==> renderer_target(size, map_info, region, offset) == Err::<
            (u64, i32),
            Option<MapPlan>,
        >(None),
        offset + size > u64::MAX || (offset + size <= region.size && region.host_addr + offset
            > u64::MAX) ==> renderer_target(size, map_info, region, offset) == Err::<
            (u64, i32),
            Option<MapPlan>,
        >(Some(MapPlan::Impossible)),
        region.size < offset + size <= u64::MAX ==> hypervisor_plan(
            size,
            map_ptr,
            handle_type,
            Some(handle_type),
            region,
            offset,
        ) is None,
        offset + size > u64::MAX || (offset + size <= region.size && region.guest_addr + offset
            > u64::MAX) ==> hypervisor_plan(
            size,
            map_ptr,
            handle_type,
            Some(handle_type),
            region,
            offset,
        ) == Some(MapPlan::Impossible),
{
    law_protection_is_access(map_info);
}

/// Every blob that fits into the window, and exports as the hypervisor wants it,
/// is shown to the guest at `offset` of its view of the window, all bytes of it
/// from its host address on. A blob that exports otherwise is refused.
pub proof fn law_hypervisor_is_asked(
    size: u64,
    map_ptr: u64,
    handle_type: u32,
    exported: Option<u32>,
    region: VirtioShmRegion,
    offset: u64,
)
    requires
        offset + size <= region.size,
        region.guest_addr + offset <= u64::MAX,
    ensures
        hypervisor_plan(
            size,
            map_ptr,
            handle_type,
            Some(handle_type),
            region,
            offset,
        ) matches Some(MapPlan::MapByHypervisor { map_ptr: ptr, guest_addr, size: bytes }) && {
            &&& ptr == map_ptr
            &&& guest_addr == region.guest_addr + offset
            &&& bytes == size
        },
        exported != Some(handle_type) ==> hypervisor_plan(
            size,
            map_ptr,
            handle_type,
            exported,
            region,
            offset,
        ) is None,
{
}

/// The host and the guest see the window at addresses of their own.
pub proof fn law_window_has_two_sides(region: VirtioShmRegion)
    ensures
        window_base(region, WindowSide::Host) == region.host_addr,
        window_base(region, WindowSide::Guest) == region.guest_addr,
{
}

/// How a blob is cached is the lowest four bits of its mapping information.
pub proof fn law_caching_is_the_low_bits(map_info: u32)
    ensures
        map_info & RUTABAGA_MAP_CACHE_MASK == map_info % 16,
{
    assert(map_info & 0x0f == map_info % 16) by (bit_vector);
}

} // verus!
