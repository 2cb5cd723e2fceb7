//! What the device keeps of each resource.

use crate::guest_memory::backing_len;
use crate::scanout::{lemma_none, AssociatedScanouts};
use vstd::prelude::*;

verus! {

/// A pixel format that scanouts can show, by its number in the guest protocol.
#[derive(Clone, Copy, Debug, PartialEq, Eq, Structural)]
pub struct ResourceFormat {
    pub code: u32,
}

/// The record of a resource.
#[derive(Clone, Copy, Debug, PartialEq, Eq)]
pub struct VirtioGpuResource {
    pub id: u32,
    pub width: u32,
    pub height: u32,
    /// The scanouts that show the resource.
    pub scanouts: AssociatedScanouts,
    /// `None` for a format that no scanout shows.
    pub format: Option<ResourceFormat>,
    /// Size in bytes of a blob.
    pub size: u64,
    /// Where the blob is mapped in the shared memory window.
    pub shmem_offset: Option<u64>,
    /// The renderer holds a mapping that goes with the resource.
    pub rutabaga_external_mapping: bool,
    /// The resource is a blob.
    pub blob: bool,
    /// The resource is a plain 2D buffer that the device serves without the
    /// renderer.
    pub native_2d: bool,
    /// Bytes from row to row of a blob that is shown.
    pub scanout_stride: u32,
}

/// The record of a new resource: neither shown nor mapped.
pub open spec fn new_resource(
    resource_id: u32,
    width: u32,
    height: u32,
    format: Option<ResourceFormat>,
    size: u64,
) -> VirtioGpuResource {
    VirtioGpuResource {
        id: resource_id,
        width,
        height,
        scanouts: AssociatedScanouts::empty(),
        format,
        size,
        shmem_offset: None,
        rutabaga_external_mapping: false,
        blob: false,
        native_2d: false,
        scanout_stride: 0,
    }
}

impl VirtioGpuResource {
    /// The record of a new resource. Width and height are for the display, the
    /// size is for mapping.
    pub fn new(
        resource_id: u32,
        width: u32,
        height: u32,
        format: Option<ResourceFormat>,
        size: u64,
    ) -> (result: VirtioGpuResource)
        ensures
            result == new_resource(resource_id, width, height, format, size),
    {
        VirtioGpuResource {
            id: resource_id,
            width,
            height,
            scanouts: AssociatedScanouts::new(),
            format,
            size,
            shmem_offset: None,
            rutabaga_external_mapping: false,
            blob: false,
            native_2d: false,
            scanout_stride: 0,
        }
    }
}

/// A plain 2D buffer: the pixels that the host shows, and the guest memory that
/// they come from.
pub struct Native2dResource {
    pub width: u32,
    pub height: u32,
    /// Rows of `width` pixels, tightly packed.
    pub shadow: Vec<u8>,
    /// Guest ranges that make up one buffer, end to end.
    pub backing: Vec<(u64, usize)>,
}

/// The contents of a plain 2D buffer.
pub struct Native2d {
    pub width: u32,
    pub height: u32,
    pub shadow: Seq<u8>,
    pub backing: Seq<(u64, usize)>,
}

impl View for Native2dResource {
    type V = Native2d;

    open spec fn view(&self) -> Native2d {
        Native2d {
            width: self.width,
            height: self.height,
            shadow: self.shadow@,
            backing: self.backing@,
        }
    }
}

impl Native2d {
    /// The pixels fill the rows, and the guest ranges can be counted.
    pub open spec fn wf(self) -> bool {
        &&& self.shadow.len() == 4 * self.width * self.height
        &&& backing_len(self.backing) <= usize::MAX
    }
}

/// A screen: its preferred size, and its description for the guest.
#[derive(Debug)]
pub struct DisplayInfo {
    pub width: u32,
    pub height: u32,
    pub edid: Vec<u8>,
}

/// The contents of a screen's description.
pub struct Display {
    pub width: u32,
    pub height: u32,
    pub edid: Seq<u8>,
}

impl View for DisplayInfo {
    type V = Display;

    open spec fn view(&self) -> Display {
        Display { width: self.width, height: self.height, edid: self.edid@ }
    }
}

/// A new resource has the id, the geometry, the format and the size that it is
/// created with, is neither shown nor mapped, and is neither a blob nor a plain 2D
/// buffer until it is marked as one.
pub proof fn law_new_resource(
    resource_id: u32,
    width: u32,
    height: u32,
    format: Option<ResourceFormat>,
    size: u64,
)
    ensures
        ({
            let record = new_resource(resource_id, width, height, format, size);
            &&& record.id == resource_id
            &&& record.width == width
            &&& record.height == height
            &&& record.format == format
            &&& record.size == size
            &&& forall|scanout_id: u32| !record.scanouts.enabled(scanout_id)
            &&& record.shmem_offset is None
            &&& !record.rutabaga_external_mapping
            &&& !record.blob
            &&& !record.native_2d
            &&& record.scanout_stride == 0
        }),
{
    lemma_none(new_resource(resource_id, width, height, format, size).scanouts);
}

/// What is said of a buffer or a screen is said of all of it: its size, every byte
/// of its pixels or of its description, and every guest range.
pub proof fn law_nothing_is_left_out(buffer: Native2dResource, display: DisplayInfo)
    ensures
        buffer@.width == buffer.width,
        buffer@.height == buffer.height,
        buffer@.shadow == buffer.shadow@,
        buffer@.backing == buffer.backing@,
        display@.width == display.width,
        display@.height == display.height,
        display@.edid == display.edid@,
{
}

} // verus!
