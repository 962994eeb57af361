//! The memory ownership layer: page-granular accounting for DMA-capable
//! memory, address translation, and bounce-buffer registration of arbitrary
//! buffers shared with the device.
//!
//! The allocator owns a physically contiguous, identity-mapped pool and
//! tracks which of its pages are free; ownership of allocated pages
//! transfers to the caller until they are released, exactly once.

use vstd::prelude::*;
use crate::transport::VirtioError;

verus! {

/// A memory page, the granularity of the DMA pool.
pub const PAGE_SIZE: usize = 4096;

/// Which way data flows through a buffer shared with the device.
#[derive(Clone, Copy, Debug, PartialEq, Eq, Structural)]
pub enum Direction {
    /// The driver fills the buffer, the device reads it.
    DriverToDevice,
    /// The device fills the buffer, the driver reads it.
    DeviceToDriver,
    /// Both sides access the buffer.
    Both,
}

/// Memory handed out by [`DmaAllocator::dma_alloc`]: physically contiguous
/// pages, owned by the caller until released exactly once.
#[derive(Clone, Copy, Debug, PartialEq, Eq, Structural)]
pub struct DmaRegion {
    /// Physical address of the first page.
    pub paddr: u64,
    /// Driver-visible address of the first page; the pool is
    /// identity-mapped, so the two coincide.
    pub vaddr: u64,
    /// Number of pages.
    pub pages: usize,
}

/// One active bounce-buffer registration.
#[derive(Clone, Copy, Debug, PartialEq, Eq, Structural)]
pub struct ShareEntry {
    /// Physical address the device was given.
    pub paddr: u64,
    /// Pages backing the registration.
    pub pages: usize,
    /// Flow direction the registration was made for.
    pub direction: Direction,
}

/// Page-granular accounting for a physically contiguous, identity-mapped
/// DMA pool: `free[i]` says whether page `i` (at `base + i * PAGE_SIZE`) is
/// free, and `shared` lists the bounce-buffer registrations still open.
pub struct DmaAllocator {
    /// Physical address of page 0 of the pool.
    pub base: u64,
    /// One flag per page of the pool.
    pub free: Vec<bool>,
    /// Open bounce-buffer registrations, oldest first.
    pub shared: Vec<ShareEntry>,
}

/// Pages `start .. start + n` of `free` are all free.
pub open spec fn fits(free: Seq<bool>, start: int, n: int) -> bool {
    &&& 0 <= start
    &&& start + n <= free.len()
    &&& forall|j: int| start <= j < start + n ==> free[j]
}

/// `free` with pages `start .. start + n` set to `b`.
pub open spec fn range_set(free: Seq<bool>, start: int, n: int, b: bool) -> Seq<bool> {
    Seq::new(free.len(), |j: int| if start <= j < start + n { b } else { free[j] })
}

/// Pages needed to back `len` bytes.
pub open spec fn pages_for(len: int) -> int {
    (len + PAGE_SIZE - 1) / (PAGE_SIZE as int)
}

/// The pool page index behind physical address `paddr`.
pub open spec fn pool_start(a: DmaAllocator, paddr: u64) -> int {
    (paddr - a.base) / (PAGE_SIZE as int)
}

/// `paddr` names a page-aligned run of `n` pages inside `a`'s pool.
pub open spec fn region_in_pool(a: DmaAllocator, paddr: u64, n: int) -> bool {
    &&& a.base <= paddr
    &&& (paddr - a.base) % (PAGE_SIZE as int) == 0
    &&& pool_start(a, paddr) + n <= a.free@.len()
}

impl DmaAllocator {
    /// The pool's bookkeeping is sound: the base is page-aligned and the
    /// last page still ends inside the address space.
    pub open spec fn wf(self) -> bool {
        &&& self.base % (PAGE_SIZE as u64) == 0
        &&& self.base + self.free@.len() * (PAGE_SIZE as int) <= u64::MAX
    }

    /// What a successful allocation of `n` pages did: the returned region
    /// is the first free run of `n` pages (first fit), identity-mapped, and
    /// exactly its pages flipped to allocated.
    pub open spec fn alloc_ok_post(
        pre: DmaAllocator,
        post: DmaAllocator,
        n: int,
        region: DmaRegion,
    ) -> bool {
        let start = pool_start(pre, region.paddr);
        &&& region.pages == n
        &&& region.vaddr == region.paddr
        &&& region_in_pool(pre, region.paddr, n)
        &&& fits(pre.free@, start, n)
        &&& forall|s: int| 0 <= s < start ==> !fits(pre.free@, s, n)
        &&& post.base == pre.base
        &&& post.free@ == range_set(pre.free@, start, n, false)
        &&& post.shared == pre.shared
    }

    /// The inputs [`DmaAllocator::dma_dealloc`] demands: the region lies in
    /// the pool, is identity-mapped, and every page of it is currently
    /// allocated — a double free or a mismatched page count fails here,
    /// fast, rather than corrupting the accounting.
    pub open spec fn dealloc_pre(a: DmaAllocator, paddr: u64, vaddr: u64, n: int) -> bool {
        &&& a.wf()
        &&& n >= 1
        &&& vaddr == paddr
        &&& region_in_pool(a, paddr, n)
        &&& forall|j: int|
            pool_start(a, paddr) <= j < pool_start(a, paddr) + n ==> !a.free@[j]
    }

    /// What a release did: exactly the region's pages flipped back to free.
    pub open spec fn dealloc_post(pre: DmaAllocator, post: DmaAllocator, paddr: u64, n: int) -> bool {
        &&& post.base == pre.base
        &&& post.free@ == range_set(pre.free@, pool_start(pre, paddr), n, true)
        &&& post.shared == pre.shared
    }

    /// A fresh pool of `pages` pages at physical `base`, all free, no open
    /// registrations.
    pub fn new(base: u64, pages: usize) -> (r: DmaAllocator)
        requires
            base % (PAGE_SIZE as u64) == 0,
            base + pages * (PAGE_SIZE as int) <= u64::MAX,
        ensures
            r.wf(),
            r.base == base,
            r.free@.len() == pages,
            forall|j: int| 0 <= j < pages ==> r.free@[j],
            r.shared@.len() == 0,
    {
        let mut free: Vec<bool> = Vec::new();
        let mut i: usize = 0;
        while i < pages
            invariant
                i <= pages,
                free@.len() == i,
                forall|j: int| 0 <= j < i ==> free@[j],
            decreases pages - i,
        {
            free.push(true);
            i = i + 1;
        }
        DmaAllocator { base, free, shared: Vec::new() }
    }

    /// How many pages are currently free.
    pub fn free_page_count(&self) -> (r: usize)
        ensures
            r == count_free(self.free@),
    {
        let mut count: usize = 0;
        let mut i: usize = 0;
        while i < self.free.len()
            invariant
                i <= self.free@.len(),
                count == count_free(self.free@.take(i as int)),
                count <= i,
            decreases self.free@.len() - i,
        {
            proof {
                assert(self.free@.take(i + 1).drop_last() =~= self.free@.take(i as int));
                assert(self.free@.take(i + 1).last() == self.free@[i as int]);
            }
            if self.free[i] {
                count = count + 1;
            }
            i = i + 1;
        }
        proof {
            assert(self.free@.take(self.free@.len() as int) =~= self.free@);
        }
        count
    }

    /// Allocate `pages` zeroed, physically contiguous, device-visible
    /// pages: the first free run of that length, first fit.  Ownership
    /// transfers to the caller until released.  Exhaustion is recoverable
    /// and surfaced as an error.
    pub fn dma_alloc(&mut self, pages: usize) -> (r: Result<DmaRegion, VirtioError>)
        requires
            old(self).wf(),
            pages >= 1,
        ensures
            final(self).wf(),
            match r {
                Ok(region) => DmaAllocator::alloc_ok_post(*old(self), *final(self), pages as int, region),
                Err(e) => {
                    &&& e == VirtioError::AllocationFailed
                    &&& *final(self) == *old(self)
                    &&& forall|s: int| !fits(old(self).free@, s, pages as int)
                },
            },
    {
        let len = self.free.len();
        if pages > len {
            return Err(VirtioError::AllocationFailed);
        }
        let mut start: usize = 0;
        while start <= len - pages
            invariant
                old(self).wf(),
                *self == *old(self),
                len == self.free@.len(),
                pages >= 1,
                pages <= len,
                start <= len,
                forall|s: int| 0 <= s < start ==> !fits(old(self).free@, s, pages as int),
            decreases len - start,
        {
            if all_free(&self.free, start, pages) {
                mark_range(&mut self.free, start, pages, false);
                let paddr = self.base + (start as u64) * (PAGE_SIZE as u64);
                return Ok(DmaRegion { paddr, vaddr: paddr, pages });
            }
            start = start + 1;
        }
        proof {
            assert forall|s: int| !fits(old(self).free@, s, pages as int) by {
                if 0 <= s < start {
                } else {
                    assert(!(0 <= s && s + pages <= len) ==> !fits(
                        old(self).free@,
                        s,
                        pages as int,
                    ));
                }
            }
        }
        Err(VirtioError::AllocationFailed)
    }

    /// Release pages previously returned by [`DmaAllocator::dma_alloc`].
    /// Misuse — a double free, a foreign address, a mismatched page count —
    /// is a programming error and is ruled out by the precondition rather
    /// than recovered from.  Returns 0, the success status.
    pub fn dma_dealloc(&mut self, paddr: u64, vaddr: u64, pages: usize) -> (r: i32)
        requires
            DmaAllocator::dealloc_pre(*old(self), paddr, vaddr, pages as int),
        ensures
            r == 0,
            final(self).wf(),
            DmaAllocator::dealloc_post(*old(self), *final(self), paddr, pages as int),
    {
        let pool_pages = self.free.len();
        proof {
            assert(pool_start(*old(self), paddr) + pages <= pool_pages as int);
        }
        let start = ((paddr - self.base) / (PAGE_SIZE as u64)) as usize;
        mark_range(&mut self.free, start, pages, true);
        0
    }
}

/// Index of the first registration in `shared` made under `paddr`
/// (`shared.len()` when none is).
pub open spec fn find_share(shared: Seq<ShareEntry>, paddr: u64) -> int
    decreases shared.len(),
{
    if shared.len() == 0 {
        0
    } else if shared[0].paddr == paddr {
        0
    } else {
        1 + find_share(shared.skip(1), paddr)
    }
}

proof fn lemma_find_share_nonneg(shared: Seq<ShareEntry>, paddr: u64)
    ensures
        find_share(shared, paddr) >= 0,
    decreases shared.len(),
{
    if shared.len() > 0 && shared[0].paddr != paddr {
        lemma_find_share_nonneg(shared.skip(1), paddr);
    }
}

proof fn lemma_find_share_at(shared: Seq<ShareEntry>, paddr: u64, i: int)
    requires
        0 <= i < shared.len(),
        shared[i].paddr == paddr,
        forall|j: int| 0 <= j < i ==> shared[j].paddr != paddr,
    ensures
        find_share(shared, paddr) == i,
    decreases i,
{
    if i > 0 {
        assert forall|j: int| 0 <= j < i - 1 implies shared.skip(1)[j].paddr != paddr by {
            assert(shared.skip(1)[j] == shared[j + 1]);
        }
        assert(shared.skip(1)[i - 1] == shared[i]);
        lemma_find_share_at(shared.skip(1), paddr, i - 1);
    }
}

impl DmaAllocator {
    /// Register `buffer_len` bytes of an arbitrary buffer for device
    /// access: bounce pages are taken from the pool and the registration is
    /// noted, to be matched by exactly one [`DmaAllocator::unshare`] before
    /// the buffer may be reused.  Returns the physical address the device
    /// should use.
    pub fn share(&mut self, buffer_len: usize, direction: Direction) -> (r: Result<
        u64,
        VirtioError,
    >)
        requires
            old(self).wf(),
            buffer_len >= 1,
            buffer_len + PAGE_SIZE <= usize::MAX,
        ensures
            final(self).wf(),
            match r {
                Ok(paddr) => {
                    &&& DmaAllocator::alloc_ok_post(
                        *old(self),
                        DmaAllocator {
                            shared: old(self).shared,
                            ..*final(self)
                        },
                        pages_for(buffer_len as int),
                        DmaRegion {
                            paddr,
                            vaddr: paddr,
                            pages: pages_for(buffer_len as int) as usize,
                        },
                    )
                    &&& final(self).shared@ == old(self).shared@.push(
                        ShareEntry {
                            paddr,
                            pages: pages_for(buffer_len as int) as usize,
                            direction,
                        },
                    )
                },
                Err(e) => {
                    &&& e == VirtioError::AllocationFailed
                    &&& *final(self) == *old(self)
                    &&& forall|s: int| !fits(old(self).free@, s, pages_for(buffer_len as int))
                },
            },
    {
        let pages = (buffer_len + (PAGE_SIZE - 1)) / PAGE_SIZE;
        let region = match self.dma_alloc(pages) {
            Ok(region) => region,
            Err(e) => {
                return Err(e);
            },
        };
        self.shared.push(ShareEntry { paddr: region.paddr, pages, direction });
        Ok(region.paddr)
    }

    /// Close the registration made under `paddr`: the registration must
    /// exist and match the buffer length and direction it was made with —
    /// an unshare without a matching share is a programming error and is
    /// ruled out here.  The bounce pages return to the pool; for a
    /// device-to-driver direction the caller copies the bounce data back
    /// before reuse.
    pub fn unshare(&mut self, paddr: u64, buffer_len: usize, direction: Direction)
        requires
            old(self).wf(),
            buffer_len >= 1,
            buffer_len + PAGE_SIZE <= usize::MAX,
            find_share(old(self).shared@, paddr) < old(self).shared@.len(),
            old(self).shared@[find_share(old(self).shared@, paddr)] == (ShareEntry {
                paddr,
                pages: pages_for(buffer_len as int) as usize,
                direction,
            }),
            region_in_pool(*old(self), paddr, pages_for(buffer_len as int)),
        ensures
            final(self).wf(),
            final(self).base == old(self).base,
            final(self).shared@ == old(self).shared@.remove(
                find_share(old(self).shared@, paddr),
            ),
            final(self).free@ == range_set(
                old(self).free@,
                pool_start(*old(self), paddr),
                pages_for(buffer_len as int),
                true,
            ),
    {
        let pages = (buffer_len + (PAGE_SIZE - 1)) / PAGE_SIZE;
        let mut k: usize = 0;
        while k < self.shared.len()
            invariant
                *self == *old(self),
                old(self).wf(),
                buffer_len >= 1,
                buffer_len + PAGE_SIZE <= usize::MAX,
                pages == pages_for(buffer_len as int),
                region_in_pool(*old(self), paddr, pages_for(buffer_len as int)),
                old(self).shared@[find_share(old(self).shared@, paddr)] == (ShareEntry {
                    paddr,
                    pages: pages_for(buffer_len as int) as usize,
                    direction,
                }),
                k <= self.shared@.len(),
                forall|j: int| 0 <= j < k ==> self.shared@[j].paddr != paddr,
                find_share(self.shared@, paddr) < self.shared@.len(),
                self.shared@[find_share(self.shared@, paddr)].paddr == paddr,
            decreases self.shared@.len() - k,
        {
            if self.shared[k].paddr == paddr {
                proof {
                    lemma_find_share_at(self.shared@, paddr, k as int);
                }
                self.shared.remove(k);
                let pool_pages = self.free.len();
                proof {
                    assert(pool_start(*old(self), paddr) + pages <= pool_pages as int);
                }
                let start = ((paddr - self.base) / (PAGE_SIZE as u64)) as usize;
                mark_range(&mut self.free, start, pages, true);
                return ;
            }
            k = k + 1;
        }
        proof {
            let w = find_share(self.shared@, paddr);
            lemma_find_share_nonneg(self.shared@, paddr);
            assert(self.shared@[w].paddr == paddr);
            assert(false);
        }
    }
}

/// How many pages of `free` are free.
pub open spec fn count_free(free: Seq<bool>) -> int
    decreases free.len(),
{
    if free.len() == 0 {
        0
    } else {
        count_free(free.drop_last()) + if free.last() {
            1int
        } else {
            0int
        }
    }
}

/// Pages `start .. start + n` of `v` are all free.
fn all_free(v: &Vec<bool>, start: usize, n: usize) -> (r: bool)
    requires
        start + n <= v@.len(),
    ensures
        r == fits(v@, start as int, n as int),
{
    let vlen = v.len();
    let mut j: usize = 0;
    while j < n
        invariant
            j <= n,
            vlen == v@.len(),
            start + n <= vlen,
            forall|k: int| start <= k < start + j ==> v@[k],
        decreases n - j,
    {
        if !v[start + j] {
            return false;
        }
        j = j + 1;
    }
    true
}

/// Set pages `start .. start + n` of `v` to `b`.
fn mark_range(v: &mut Vec<bool>, start: usize, n: usize, b: bool)
    requires
        start + n <= old(v)@.len(),
    ensures
        final(v)@ == range_set(old(v)@, start as int, n as int, b),
{
    let vlen = v.len();
    let mut j: usize = 0;
    while j < n
        invariant
            j <= n,
            vlen == v@.len(),
            start + n <= vlen,
            v@.len() == old(v)@.len(),
            forall|k: int| start <= k < start + j ==> v@[k] == b,
            forall|k: int| 0 <= k < v@.len() && !(start <= k < start + j) ==> v@[k] == old(
                v,
            )@[k],
        decreases n - j,
    {
        v[start + j] = b;
        j = j + 1;
    }
    proof {
        assert(v@ =~= range_set(old(v)@, start as int, n as int, b));
    }
}

/// Translate a device-side physical address into a driver-visible pointer.
/// The address spaces are identity-mapped today, so the translation is the
/// identity; it stays a translation point so a non-identity layout can plug
/// in without touching callers.
pub fn mmio_phys_to_virt(paddr: u64, _size: usize) -> (r: u64)
    ensures
        r == paddr,
{
    paddr
}

/// Law: releasing a region right after allocating it is accepted and
/// restores the free accounting — and the open registrations — to exactly
/// what they were before the pair.
pub proof fn lemma_alloc_dealloc_roundtrip(
    a0: DmaAllocator,
    a1: DmaAllocator,
    region: DmaRegion,
    n: int,
)
    requires
        a0.wf(),
        a1.wf(),
        n >= 1,
        DmaAllocator::alloc_ok_post(a0, a1, n, region),
    ensures
        DmaAllocator::dealloc_pre(a1, region.paddr, region.vaddr, n),
        forall|a2: DmaAllocator|
            #[trigger] DmaAllocator::dealloc_post(a1, a2, region.paddr, n) ==> a2.free@
                =~= a0.free@ && a2.shared == a0.shared,
{
    let start = pool_start(a0, region.paddr);
    assert(pool_start(a1, region.paddr) == start);
    assert forall|a2: DmaAllocator|
        #[trigger] DmaAllocator::dealloc_post(a1, a2, region.paddr, n) implies a2.free@
        =~= a0.free@ && a2.shared == a0.shared by {
        assert(a2.free@ =~= range_set(range_set(a0.free@, start, n, false), start, n, true));
    }
}

} // verus!
