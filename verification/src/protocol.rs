//! The answers of the device and the constants of the guest protocol.

use rutabaga_gfx::RutabagaError;
use vstd::prelude::*;

verus! {

/// How many scanouts (screens) a device can drive.
pub const VIRTIO_GPU_MAX_SCANOUTS: u32 = 16;

/// Fence flag: the fence belongs to one ring of one context.
pub const VIRTIO_GPU_FLAG_INFO_RING_IDX: u32 = 2;

/// Blob memory kind: the blob lives in host memory alone.
pub const VIRTIO_GPU_BLOB_MEM_HOST3D: u32 = 2;

/// Blob flag: create the blob from a guest handle. The device does not serve it.
pub const VIRTIO_GPU_BLOB_FLAG_CREATE_GUEST_HANDLE: u32 = 8;

/// `RutabagaError`, carried through unopened.
#[verifier::external_type_specification]
#[verifier::external_body]
pub struct ExRutabagaError(rutabaga_gfx::RutabagaError);

/// Where one plane of a resource lies.
#[derive(Clone, Copy, Debug, PartialEq, Eq, Structural)]
pub struct GpuResponsePlaneInfo {
    pub stride: u32,
    pub offset: u32,
}

/// What the device answers to a command.
#[derive(Debug)]
pub enum GpuResponse {
    OkNoData,
    /// Width, height and whether it is enabled, for each display.
    OkDisplayInfo(Vec<(u32, u32, bool)>),
    OkCapsetInfo { capset_id: u32, version: u32, size: u32 },
    OkCapset(Vec<u8>),
    OkEdid(Vec<u8>),
    OkResourcePlaneInfo { format_modifier: u64, plane_info: Vec<GpuResponsePlaneInfo> },
    OkResourceUuid { uuid: [u8; 16] },
    OkMapInfo { map_info: u32 },
    ErrUnspec,
    /// The renderer refused.
    ErrRutabaga(RutabagaError),
    ErrInvalidScanoutId,
    ErrInvalidResourceId,
}

/// The outcome of a command.
pub type VirtioGpuResult = Result<GpuResponse, GpuResponse>;

/// What can go wrong inside the device before an answer is formed.
#[derive(Clone, Copy, Debug, PartialEq, Eq, Structural)]
pub enum GpuError {
    /// A guest range is not backed by guest memory.
    GuestMemory,
}

/// The window of the address space into which blobs are mapped.
#[derive(Clone, Copy, Debug, PartialEq, Eq, Structural)]
pub struct VirtioShmRegion {
    pub host_addr: u64,
    pub guest_addr: u64,
    pub size: usize,
}

/// A blob of kind 2 lives in host memory alone, and no other does; the fourth blob
/// flag asks for a guest handle, and no other does; and the second fence flag gives
/// the fence a ring, and no other does.
pub proof fn law_protocol_numbers(blob_mem: u32, flags: u32)
    ensures
        blob_mem == VIRTIO_GPU_BLOB_MEM_HOST3D <==> blob_mem == 2,
        flags & VIRTIO_GPU_BLOB_FLAG_CREATE_GUEST_HANDLE == 0 <==> (flags / 8) % 2 == 0,
        flags & VIRTIO_GPU_FLAG_INFO_RING_IDX == 0 <==> (flags / 2) % 2 == 0,
{
    assert((flags & 8 == 0) == ((flags / 8) % 2 == 0)) by (bit_vector);
    assert((flags & 2 == 0) == ((flags / 2) % 2 == 0)) by (bit_vector);
}

} // verus!
