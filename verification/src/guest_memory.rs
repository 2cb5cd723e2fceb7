//! The boundary to guest memory, `vm_memory::GuestMemoryMmap`, and the scatter
//! lists that the guest describes its buffers with.

use crate::protocol::{GpuError, GpuResponse, VirtioGpuResult};
use rutabaga_gfx::RutabagaIovec;
use vm_memory::{Bytes, GuestAddress, GuestMemory, GuestMemoryMmap};
use vstd::prelude::*;

verus! {

/// The memory of the guest, mapped into this process.
#[verifier::external_type_specification]
#[verifier::external_body]
#[verifier::reject_recursive_types(B)]
pub struct ExGuestMemoryMmap<B>(vm_memory::GuestMemoryMmap<B>);

/// The regions (first address and length) that make up guest memory.
pub uninterp spec fn guest_regions(mem: GuestMemoryMmap) -> Seq<(u64, u64)>;

/// `value` is what a read of the guest byte at `addr` has handed out.
///
/// The guest runs while the host reads, so the same byte may be seen with
/// different values.
pub uninterp spec fn guest_byte_seen(mem: GuestMemoryMmap, addr: int, value: u8) -> bool;

/// Whether the byte at `addr` lies in one of `regions`.
pub open spec fn guest_mapped(regions: Seq<(u64, u64)>, addr: int) -> bool {
    exists|i: int|
        0 <= i < regions.len() && (#[trigger] regions[i]).0 <= addr < regions[i].0 + regions[i].1
}

/// Whether `len` bytes from `addr` on lie in one of `regions`.
pub open spec fn guest_contiguous(regions: Seq<(u64, u64)>, addr: int, len: int) -> bool {
    exists|i: int|
        0 <= i < regions.len() && (#[trigger] regions[i]).0 <= addr < regions[i].0 + regions[i].1
            && addr + len <= regions[i].0 + regions[i].1
}

/// Whether `len` bytes from `addr` on can be read: the first address exists,
/// and so does every byte.
pub open spec fn guest_readable(regions: Seq<(u64, u64)>, addr: int, len: int) -> bool {
    &&& guest_mapped(regions, addr)
    &&& forall|a: int| addr <= a < addr + len ==> #[trigger] guest_mapped(regions, a)
}

/// `iovec` was made of the `len` bytes of guest memory from `addr` on.
pub uninterp spec fn iovec_of(
    mem: GuestMemoryMmap,
    iovec: RutabagaIovec,
    addr: u64,
    len: usize,
) -> bool;

/// Each of `iovecs` was made of the guest range in its place.
pub open spec fn iovecs_of(
    mem: GuestMemoryMmap,
    iovecs: Seq<RutabagaIovec>,
    ranges: Seq<(u64, usize)>,
) -> bool {
    &&& iovecs.len() == ranges.len()
    &&& forall|i: int|
        0 <= i < ranges.len() ==> iovec_of(
            mem,
            #[trigger] iovecs[i],
            ranges[i].0,
            ranges[i].1,
        )
}

/// Calls `GuestMemory::get_slice` and makes an iovec of the slice. There is one
/// exactly when the range lies in one region of guest memory.
#[verifier::external_body]
pub(crate) fn guest_iovec(mem: &GuestMemoryMmap, addr: u64, len: usize) -> (result: Option<
    RutabagaIovec,
>)
    ensures
        result is Some <==> guest_contiguous(guest_regions(*mem), addr as int, len as int),
        result matches Some(iovec) ==> iovec_of(*mem, iovec, addr, len),
{
    let slice = mem.get_slice(GuestAddress(addr), len).ok()?;
    Some(RutabagaIovec { base: slice.ptr_guard_mut().as_ptr().cast(), len })
}

/// Calls `Bytes::read_slice` on guest memory. It fills `buf` exactly when every
/// byte of the range exists; otherwise `buf` holds anything.
#[verifier::external_body]
pub(crate) fn read_guest(mem: &GuestMemoryMmap, addr: u64, buf: &mut [u8]) -> (result: bool)
    ensures
        final(buf)@.len() == old(buf)@.len(),
        result == guest_readable(guest_regions(*mem), addr as int, old(buf)@.len() as int),
        result ==> forall|k: int|
            0 <= k < final(buf)@.len() ==> guest_byte_seen(
                *mem,
                addr + k,
                #[trigger] final(buf)@[k],
            ),
{
    mem.read_slice(buf, GuestAddress(addr)).is_ok()
}

/// Turns a list of guest ranges into iovecs for the renderer. Each range has to
/// lie in one region of guest memory.
pub fn sglist_to_rutabaga_iovecs(vecs: &[(u64, usize)], mem: &GuestMemoryMmap) -> (result: Result<
    Vec<RutabagaIovec>,
    GpuError,
>)
    ensures
        result is Ok <==> sglist_mapped(guest_regions(*mem), vecs@),
        result matches Ok(iovecs) ==> iovecs_of(*mem, iovecs@, vecs@),
        result matches Err(e) ==> e == GpuError::GuestMemory,
{
    let mut iovecs: Vec<RutabagaIovec> = Vec::new();
    let mut i: usize = 0;
    while i < vecs.len()
        invariant
            i <= vecs.len(),
            iovecs@.len() == i,
            forall|j: int|
                0 <= j < i ==> iovec_of(*mem, #[trigger] iovecs@[j], vecs@[j].0, vecs@[j].1),
            forall|j: int|
                0 <= j < i ==> guest_contiguous(
                    guest_regions(*mem),
                    (#[trigger] vecs@[j]).0 as int,
                    vecs@[j].1 as int,
                ),
        decreases vecs.len() - i,
    {
        let (addr, len) = vecs[i];
        match guest_iovec(mem, addr, len) {
            Some(iovec) => {
                iovecs.push(iovec);
            },
            None => {
                assert(!guest_contiguous(
                    guest_regions(*mem),
                    vecs@[i as int].0 as int,
                    vecs@[i as int].1 as int,
                ));
                return Err(GpuError::GuestMemory);
            },
        }
        i = i + 1;
    }
    Ok(iovecs)
}

/// Whether each of `ranges` lies in one of `regions`.
pub open spec fn sglist_mapped(regions: Seq<(u64, u64)>, ranges: Seq<(u64, usize)>) -> bool {
    forall|i: int|
        0 <= i < ranges.len() ==> guest_contiguous(
            regions,
            (#[trigger] ranges[i]).0 as int,
            ranges[i].1 as int,
        )
}

/// Where segment `i` of a backing starts, counted in bytes from the start of
/// the backing. The segments lie end to end.
pub open spec fn backing_start(backing: Seq<(u64, usize)>, i: int) -> int
    decreases i,
{
    if i <= 0 {
        0
    } else {
        backing_start(backing, i - 1) + backing[i - 1].1
    }
}

/// How many bytes a backing holds.
pub open spec fn backing_len(backing: Seq<(u64, usize)>) -> int {
    backing_start(backing, backing.len() as int)
}

/// Where segment `i` of a backing ends.
pub open spec fn backing_end(backing: Seq<(u64, usize)>, i: int) -> int {
    backing_start(backing, i) + backing[i].1
}

/// Whether segment `i` takes part in a read of `len` bytes from `offset` on:
/// it ends behind the first byte wanted and starts before the last one.
pub open spec fn backing_touched(
    backing: Seq<(u64, usize)>,
    offset: int,
    len: int,
    i: int,
) -> bool {
    &&& len > 0
    &&& offset < backing_end(backing, i)
    &&& backing_start(backing, i) < offset + len
}

/// The first byte of the backing that segment `i` gives to the read.
pub open spec fn piece_start(backing: Seq<(u64, usize)>, offset: int, i: int) -> int {
    if offset < backing_start(backing, i) {
        backing_start(backing, i)
    } else {
        offset
    }
}

/// The byte of the backing behind the last one that segment `i` gives to the
/// read.
pub open spec fn piece_end(backing: Seq<(u64, usize)>, offset: int, len: int, i: int) -> int {
    if offset + len < backing_end(backing, i) {
        offset + len
    } else {
        backing_end(backing, i)
    }
}

/// The guest address of byte `pos` of the backing, which lies in segment `i`.
pub open spec fn backing_address(backing: Seq<(u64, usize)>, i: int, pos: int) -> int {
    backing[i].0 + (pos - backing_start(backing, i))
}

/// Whether the addresses at which a read starts in each segment are addresses
/// at all.
pub open spec fn backing_addressable(backing: Seq<(u64, usize)>, offset: int, len: int) -> bool {
    forall|i: int|
        0 <= i < backing.len() && #[trigger] backing_touched(backing, offset, len, i)
            ==> backing_address(backing, i, piece_start(backing, offset, i)) <= u64::MAX
}

/// Whether `len` bytes from `offset` on can be read from a backing: there is
/// one, it reaches that far, and guest memory holds every piece.
pub open spec fn backing_readable(
    regions: Seq<(u64, u64)>,
    backing: Seq<(u64, usize)>,
    offset: int,
    len: int,
) -> bool {
    &&& backing.len() > 0
    &&& len > 0 ==> offset + len <= backing_len(backing)
    &&& forall|i: int|
        0 <= i < backing.len() && #[trigger] backing_touched(backing, offset, len, i)
            ==> guest_readable(
            regions,
            backing_address(backing, i, piece_start(backing, offset, i)),
            piece_end(backing, offset, len, i) - piece_start(backing, offset, i),
        )
}

/// `bytes` are what reads of the backing from `offset` on have handed out, each
/// byte from the guest address at which the backing holds it.
pub open spec fn backing_seen(
    mem: GuestMemoryMmap,
    backing: Seq<(u64, usize)>,
    offset: int,
    bytes: Seq<u8>,
) -> bool {
    forall|i: int, pos: int|
        0 <= i < backing.len() && backing_start(backing, i) <= pos < backing_end(backing, i)
            && offset <= pos < offset + bytes.len() ==> guest_byte_seen(
            mem,
            #[trigger] backing_address(backing, i, pos),
            bytes[pos - offset],
        )
}

/// The starts of the segments ascend.
pub proof fn lemma_backing_start_monotonic(backing: Seq<(u64, usize)>, i: int, j: int)
    requires
        0 <= i <= j,
    ensures
        0 <= backing_start(backing, i) <= backing_start(backing, j),
    decreases j,
{
    if i < j {
        lemma_backing_start_monotonic(backing, i, j - 1);
    } else if 0 < i {
        lemma_backing_start_monotonic(backing, i - 1, i - 1);
    }
}

/// Reads `out.len()` bytes from byte `offset` of the backing on, segment by
/// segment.
///
/// The answer is `ErrUnspec` where the backing is empty, does not reach that
/// far, or names guest memory that does not exist; `out` is then of no use, but
/// an empty backing leaves it as it was.
pub fn read_backing(
    mem: &GuestMemoryMmap,
    backing: &[(u64, usize)],
    offset: u64,
    out: &mut [u8],
) -> (result: VirtioGpuResult)
    requires
        backing_len(backing@) <= usize::MAX,
        backing_addressable(backing@, offset as int, old(out)@.len() as int),
    ensures
        final(out)@.len() == old(out)@.len(),
        backing_readable(guest_regions(*mem), backing@, offset as int, old(out)@.len() as int) ==> {
            &&& result == Ok::<GpuResponse, GpuResponse>(GpuResponse::OkNoData)
            &&& backing_seen(*mem, backing@, offset as int, final(out)@)
        },
        !backing_readable(guest_regions(*mem), backing@, offset as int, old(out)@.len() as int)
            ==> result == Err::<GpuResponse, GpuResponse>(GpuResponse::ErrUnspec),
        backing@.len() == 0 ==> final(out)@ == old(out)@,
{
    if backing.len() == 0 {
        return Err(GpuResponse::ErrUnspec);
    }
    let ghost regions = guest_regions(*mem);
    let ghost first = offset as int;
    let ghost len = out@.len() as int;
    let mut want: usize = out.len();
    let mut out_pos: usize = 0;
    let mut logical: usize = 0;
    let mut i: usize = 0;
    while i < backing.len() && want > 0
        invariant
            first == offset,
            regions == guest_regions(*mem),
            0 < backing@.len(),
            i <= backing@.len(),
            backing_len(backing@) <= usize::MAX,
            backing_addressable(backing@, first, len),
            logical == backing_start(backing@, i as int),
            len == old(out)@.len(),
            out@.len() == len,
            want == len - out_pos,
            logical <= first ==> out_pos == 0,
            first < logical ==> out_pos == if logical - first < len {
                logical - first
            } else {
                len
            },
            forall|j: int|
                0 <= j < i && #[trigger] backing_touched(backing@, first, len, j)
                    ==> guest_readable(
                    regions,
                    backing_address(backing@, j, piece_start(backing@, first, j)),
                    piece_end(backing@, first, len, j) - piece_start(backing@, first, j),
                ),
            forall|j: int, pos: int|
                0 <= j < i && backing_start(backing@, j) <= pos < backing_end(backing@, j) && first
                    <= pos < first + len ==> guest_byte_seen(
                    *mem,
                    #[trigger] backing_address(backing@, j, pos),
                    out@[pos - first],
                ),
        decreases backing.len() - i,
    {
        let (addr, seg_len) = backing[i];
        proof {
            lemma_backing_start_monotonic(backing@, i + 1, backing@.len() as int);
        }
        let seg_start: usize = logical;
        let seg_end: usize = logical + seg_len;
        logical = seg_end;
        if (seg_end as u64) > offset {
            let skip: usize = if (seg_start as u64) < offset {
                (offset - seg_start as u64) as usize
            } else {
                0
            };
            let avail: usize = seg_len - skip;
            let take: usize = if avail < want {
                avail
            } else {
                want
            };
            assert(backing_touched(backing@, first, len, i as int));
            let gaddr: u64 = addr + skip as u64;
            let ghost before = out@;
            let (head, rest) = out.split_at_mut(out_pos);
            let (piece, tail) = rest.split_at_mut(take);
            let ok = read_guest(mem, gaddr, piece);
            if !ok {
                return Err(GpuResponse::ErrUnspec);
            }
            proof {
                assert forall|j: int, pos: int|
                    0 <= j <= i && backing_start(backing@, j) <= pos < backing_end(backing@, j)
                        && first <= pos < first + len implies guest_byte_seen(
                    *mem,
                    #[trigger] backing_address(backing@, j, pos),
                    out@[pos - first],
                ) by {
                    if j < i {
                        lemma_backing_start_monotonic(backing@, j + 1, i as int);
                        assert(out@[pos - first] == before[pos - first]);
                    } else {
                        assert(backing_address(backing@, j, pos) == gaddr + (pos - first
                            - out_pos));
                    }
                }
            }
            out_pos = out_pos + take;
            want = want - take;
        }
        i = i + 1;
    }
    proof {
        lemma_backing_start_monotonic(backing@, i as int, backing@.len() as int);
        assert forall|j: int| i <= j < backing@.len() implies backing_start(backing@, j)
            >= logical by {
            lemma_backing_start_monotonic(backing@, i as int, j);
        }
    }
    if want != 0 {
        return Err(GpuResponse::ErrUnspec);
    }
    Ok(GpuResponse::OkNoData)
}

/// Whether the addresses at which a read of `len` bytes from `offset` on starts
/// in each segment are addresses at all.
pub fn addressable(backing: &[(u64, usize)], offset: u64, len: usize) -> (result: bool)
    requires
        backing_len(backing@) <= usize::MAX,
    ensures
        result == backing_addressable(backing@, offset as int, len as int),
{
    let mut start: usize = 0;
    let mut i: usize = 0;
    while i < backing.len()
        invariant
            i <= backing@.len(),
            backing_len(backing@) <= usize::MAX,
            start == backing_start(backing@, i as int),
            forall|j: int|
                0 <= j < i && #[trigger] backing_touched(backing@, offset as int, len as int, j)
                    ==> backing_address(backing@, j, piece_start(backing@, offset as int, j))
                    <= u64::MAX,
        decreases backing.len() - i,
    {
        let (addr, seg_len) = backing[i];
        proof {
            lemma_backing_start_monotonic(backing@, i + 1, backing@.len() as int);
        }
        let end: usize = start + seg_len;
        if len > 0 && offset < end as u64 && (start as u128) < offset as u128 + len as u128 {
            let skip: u64 = if (start as u64) < offset {
                offset - start as u64
            } else {
                0
            };
            assert(backing_touched(backing@, offset as int, len as int, i as int));
            if addr.checked_add(skip).is_none() {
                return false;
            }
        }
        start = end;
        i = i + 1;
    }
    true
}

} // verus!
