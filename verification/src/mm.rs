//! Virtual-memory model: virtual addresses, permission bits, and the per-task
//! address space — a page table over the user window together with the
//! data-segment break, with byte-level read and write access used by the
//! cross-page record copier.

use vstd::prelude::*;

use crate::config::{NUM_PAGES, PAGE_SIZE, USER_SPACE_SIZE};

verus! {

/// A virtual address: a byte offset into the user-addressable window.
#[derive(Clone, Copy, PartialEq, Eq, Structural, Debug)]
pub struct VirtAddr(pub usize);

impl VirtAddr {
    /// An address is aligned when it is a multiple of the page size.
    pub open spec fn spec_aligned(self) -> bool {
        self.0 % PAGE_SIZE == 0
    }

    /// Whether the address is a multiple of the page size.
    pub fn aligned(&self) -> (r: bool)
        ensures
            r == self.spec_aligned(),
    {
        self.0 % PAGE_SIZE == 0
    }

    /// Page number of the page holding this address.
    pub open spec fn spec_floor(self) -> int {
        self.0 as int / (PAGE_SIZE as int)
    }

    /// Page number of the page holding this address.
    pub fn floor(&self) -> (r: usize)
        ensures
            r == self.spec_floor(),
    {
        self.0 / PAGE_SIZE
    }

    /// Page number one past the last page that `[0, self.0)` touches.
    pub open spec fn spec_ceil(self) -> int {
        (self.0 as int + PAGE_SIZE - 1) / (PAGE_SIZE as int)
    }

    /// Page number one past the last page that `[0, self.0)` touches.
    pub fn ceil(&self) -> (r: usize)
        requires
            self.0 <= USER_SPACE_SIZE,
        ensures
            r == self.spec_ceil(),
    {
        (self.0 + PAGE_SIZE - 1) / PAGE_SIZE
    }
}

/// Permission bit: the page may be read.
pub const PERM_R: u8 = 2;

/// Permission bit: the page may be written.
pub const PERM_W: u8 = 4;

/// Permission bit: the page may be executed.
pub const PERM_X: u8 = 8;

/// Permission bit: the page is accessible from user mode.
pub const PERM_U: u8 = 16;

/// A bit-set of mapping permissions over {readable, writable, executable,
/// user-accessible}.
#[derive(Clone, Copy, PartialEq, Eq, Structural, Debug)]
pub struct MapPermission {
    pub bits: u8,
}

/// A well-formed permission request: only the read (bit 0), write (bit 1)
/// and execute (bit 3) bits may be set, and at least one of them must be.
pub open spec fn spec_port_valid(port: usize) -> bool {
    port & !0xb == 0 && port & 0xb != 0
}

/// Whether `port` is a well-formed permission request.
pub fn port_valid(port: usize) -> (r: bool)
    ensures
        r == spec_port_valid(port),
{
    port & !0xb == 0 && port & 0xb != 0
}

/// The permission bits that a request `port` asks for; user access is always
/// granted.
pub open spec fn spec_perm_from_port(port: usize) -> u8 {
    ((if port & 1 != 0 {
        PERM_R
    } else {
        0
    }) | (if port & 2 != 0 {
        PERM_W
    } else {
        0
    }) | (if port & 8 != 0 {
        PERM_X
    } else {
        0
    })) | PERM_U
}

/// Translates the request bits of `port` into permission flags, always
/// including user access.
pub fn perm_from_port(port: usize) -> (r: MapPermission)
    ensures
        r.bits == spec_perm_from_port(port),
{
    let r_bit: u8 = if port & 1 != 0 {
        PERM_R
    } else {
        0
    };
    let w_bit: u8 = if port & 2 != 0 {
        PERM_W
    } else {
        0
    };
    let x_bit: u8 = if port & 8 != 0 {
        PERM_X
    } else {
        0
    };
    MapPermission { bits: (r_bit | w_bit | x_bit) | PERM_U }
}

/// One mapped page: its permission bits and its `PAGE_SIZE` bytes of backing
/// store.
pub struct Page {
    pub perm: u8,
    pub data: Vec<u8>,
}

/// The contents of a freshly mapped page: all zero.
pub open spec fn zero_page_seq() -> Seq<u8> {
    Seq::new(PAGE_SIZE as nat, |i: int| 0u8)
}

/// A full page of zero-initialized backing store for a fresh mapping.
pub fn zero_page() -> (v: Vec<u8>)
    ensures
        v@ == zero_page_seq(),
{
    let mut v: Vec<u8> = Vec::new();
    let mut i: usize = 0;
    while i < PAGE_SIZE
        invariant
            i <= PAGE_SIZE,
            v@.len() == i,
            forall|j: int| 0 <= j < i ==> #[trigger] v@[j] == 0u8,
        decreases PAGE_SIZE - i,
    {
        v.push(0u8);
        i += 1;
    }
    proof {
        assert(v@ =~= zero_page_seq());
    }
    v
}

/// The virtual address space of one task as this core sees it: one slot per
/// page of the user window, plus the data-segment break.
pub struct AddressSpace {
    pub pages: Vec<Option<Page>>,
    pub heap_base: usize,
    pub brk: usize,
    pub heap_limit: usize,
}

impl AddressSpace {
    /// Well-formedness: the table covers the whole user window, every mapped
    /// page has a full page of backing bytes, and the break lies within the
    /// data segment's bounds.
    pub open spec fn wf(self) -> bool {
        &&& self.pages@.len() == NUM_PAGES
        &&& forall|v: int|
            0 <= v < NUM_PAGES && self.pages@[v] is Some ==> (#[trigger] self.pages@[v]).unwrap().data@.len()
                == PAGE_SIZE
        &&& self.heap_base <= self.brk <= self.heap_limit <= USER_SPACE_SIZE
    }

    /// Whether page `v` is mapped.
    pub open spec fn page_mapped(self, v: int) -> bool {
        0 <= v < self.pages@.len() && self.pages@[v] is Some
    }

    /// Permission bits of mapped page `v`.
    pub open spec fn page_perm(self, v: int) -> u8 {
        self.pages@[v].unwrap().perm
    }

    /// Contents of mapped page `v`.
    pub open spec fn page_data(self, v: int) -> Seq<u8> {
        self.pages@[v].unwrap().data@
    }

    /// Whether the byte at address `a` is backed by a mapped page.
    pub open spec fn addr_mapped(self, a: int) -> bool {
        0 <= a && self.page_mapped(a / (PAGE_SIZE as int))
    }

    /// The byte at address `a`, for a mapped address.
    pub open spec fn byte_at(self, a: int) -> u8 {
        self.page_data(a / (PAGE_SIZE as int))[a % (PAGE_SIZE as int)]
    }

    /// Every byte of `[start, start + len)` is backed by a mapped page.
    pub open spec fn range_mapped(self, start: int, len: int) -> bool {
        forall|a: int| start <= a < start + len ==> #[trigger] self.addr_mapped(a)
    }

    /// Every page of `[vs, ve)` is mapped when `mapped` is true; no page of it
    /// is when `mapped` is false.
    pub open spec fn range_state(self, vs: int, ve: int, mapped: bool) -> bool {
        forall|v: int| vs <= v < ve ==> #[trigger] self.page_mapped(v) == mapped
    }

    /// The same pages are mapped with the same permissions, and the data
    /// segment's bounds agree; page contents may differ.
    pub open spec fn same_layout(self, other: AddressSpace) -> bool {
        &&& self.pages@.len() == other.pages@.len()
        &&& forall|v: int|
            0 <= v < other.pages@.len() ==> #[trigger] self.page_mapped(v) == other.page_mapped(v)
        &&& forall|v: int|
            0 <= v < other.pages@.len() && other.page_mapped(v) ==> #[trigger] self.page_perm(v)
                == other.page_perm(v)
        &&& self.heap_base == other.heap_base
        &&& self.brk == other.brk
        &&& self.heap_limit == other.heap_limit
    }

    /// An empty address space: nothing mapped, the break at the base of the
    /// data segment.
    pub fn new(heap_base: usize, heap_limit: usize) -> (s: AddressSpace)
        requires
            heap_base <= heap_limit <= USER_SPACE_SIZE,
        ensures
            s.wf(),
            forall|v: int| 0 <= v < NUM_PAGES ==> !(#[trigger] s.page_mapped(v)),
            s.heap_base == heap_base,
            s.brk == heap_base,
            s.heap_limit == heap_limit,
    {
        let mut pages: Vec<Option<Page>> = Vec::new();
        let mut i: usize = 0;
        while i < NUM_PAGES
            invariant
                i <= NUM_PAGES,
                pages@.len() == i,
                forall|v: int| 0 <= v < i ==> (#[trigger] pages@[v]) is None,
            decreases NUM_PAGES - i,
        {
            pages.push(None);
            i += 1;
        }
        AddressSpace { pages, heap_base, brk: heap_base, heap_limit }
    }

    /// The shared range check behind both mmap and munmap: with `mapped` true it
    /// asks whether every page of `[start_va, end_va)` is mapped; with
    /// `mapped` false, whether none is.
    pub fn is_mapped(&self, start_va: VirtAddr, end_va: VirtAddr, mapped: bool) -> (r: bool)
        requires
            self.wf(),
            start_va.0 <= end_va.0 <= USER_SPACE_SIZE,
        ensures
            r == self.range_state(start_va.spec_floor(), end_va.spec_ceil(), mapped),
    {
        let vs = start_va.floor();
        let ve = end_va.ceil();
        proof {
            lemma_vpn_end_in_window(end_va.0 as int);
        }
        let mut v = vs;
        while v < ve
            invariant
                self.wf(),
                vs <= v,
                ve <= NUM_PAGES,
                vs == start_va.spec_floor(),
                ve == end_va.spec_ceil(),
                forall|w: int| vs <= w < v ==> #[trigger] self.page_mapped(w) == mapped,
            decreases ve - v,
        {
            if self.pages[v].is_some() != mapped {
                proof {
                    assert(self.page_mapped(v as int) != mapped);
                }
                return false;
            }
            v += 1;
        }
        true
    }
    /// Installs fresh zero-filled pages with permission `permission` over
    /// every page of `[start_va, end_va)`; validate-then-commit, so callers
    /// check the range first.
    pub fn mmap(&mut self, start_va: VirtAddr, end_va: VirtAddr, permission: MapPermission)
        requires
            old(self).wf(),
            start_va.0 <= end_va.0 <= USER_SPACE_SIZE,
            old(self).range_state(start_va.spec_floor(), end_va.spec_ceil(), false),
        ensures
            final(self).wf(),
            mmap_post(
                *old(self),
                *final(self),
                start_va.spec_floor(),
                end_va.spec_ceil(),
                permission.bits,
            ),
    {
        let vs = start_va.floor();
        let ve = end_va.ceil();
        proof {
            lemma_vpn_end_in_window(end_va.0 as int);
        }
        let mut v = vs;
        while v < ve
            invariant
                self.wf(),
                old(self).wf(),
                vs <= v,
                v <= ve || v == vs,
                ve <= NUM_PAGES,
                vs == start_va.spec_floor(),
                ve == end_va.spec_ceil(),
                self.heap_base == old(self).heap_base,
                self.brk == old(self).brk,
                self.heap_limit == old(self).heap_limit,
                forall|w: int| vs <= w < v ==> (#[trigger] self.pages@[w]) is Some,
                forall|w: int|
                    vs <= w < v ==> (#[trigger] self.pages@[w]).unwrap().perm == permission.bits,
                forall|w: int|
                    vs <= w < v ==> (#[trigger] self.pages@[w]).unwrap().data@ == zero_page_seq(),
                forall|w: int|
                    0 <= w < NUM_PAGES && !(vs <= w < v) ==> #[trigger] self.pages@[w] == old(
                        self,
                    ).pages@[w],
            decreases ve - v,
        {
            let data = zero_page();
            self.pages[v] = Some(Page { perm: permission.bits, data });
            v += 1;
        }
        proof {
            assert forall|w: int| vs <= w < ve implies #[trigger] self.page_mapped(w) by {
                assert(self.pages@[w] is Some);
            }
            assert forall|w: int| vs <= w < ve implies #[trigger] self.page_perm(w)
                == permission.bits by {
                assert(self.pages@[w].unwrap().perm == permission.bits);
            }
            assert forall|w: int| vs <= w < ve implies #[trigger] self.page_data(w)
                == zero_page_seq() by {
                assert(self.pages@[w].unwrap().data@ == zero_page_seq());
            }
        }
    }

    /// Removes the mapping of every page of `[start_va, end_va)` and reclaims
    /// its backing store; callers check first that the whole range is mapped.
    pub fn unmap(&mut self, start_va: VirtAddr, end_va: VirtAddr)
        requires
            old(self).wf(),
            start_va.0 <= end_va.0 <= USER_SPACE_SIZE,
            old(self).range_state(start_va.spec_floor(), end_va.spec_ceil(), true),
        ensures
            final(self).wf(),
            unmap_post(*old(self), *final(self), start_va.spec_floor(), end_va.spec_ceil()),
    {
        let vs = start_va.floor();
        let ve = end_va.ceil();
        proof {
            lemma_vpn_end_in_window(end_va.0 as int);
        }
        let mut v = vs;
        while v < ve
            invariant
                self.wf(),
                old(self).wf(),
                vs <= v,
                v <= ve || v == vs,
                ve <= NUM_PAGES,
                vs == start_va.spec_floor(),
                ve == end_va.spec_ceil(),
                self.heap_base == old(self).heap_base,
                self.brk == old(self).brk,
                self.heap_limit == old(self).heap_limit,
                forall|w: int| vs <= w < v ==> (#[trigger] self.pages@[w]) is None,
                forall|w: int|
                    0 <= w < NUM_PAGES && !(vs <= w < v) ==> #[trigger] self.pages@[w] == old(
                        self,
                    ).pages@[w],
            decreases ve - v,
        {
            self.pages[v] = None;
            v += 1;
        }
        proof {
            assert forall|w: int| vs <= w < ve implies !(#[trigger] self.page_mapped(w)) by {
                assert(self.pages@[w] is None);
            }
        }
    }

    /// The byte stored at a mapped address.
    pub fn read_byte(&self, addr: usize) -> (b: u8)
        requires
            self.wf(),
            addr < USER_SPACE_SIZE,
            self.addr_mapped(addr as int),
        ensures
            b == self.byte_at(addr as int),
    {
        proof {
            lemma_addr_vpn_in_window(addr as int);
        }
        let v = addr / PAGE_SIZE;
        let off = addr % PAGE_SIZE;
        match &self.pages[v] {
            Some(page) => page.data[off],
            None => vstd::pervasive::unreached(),
        }
    }

    /// Stores one byte at a mapped address; every other byte and the layout
    /// stay as they were.
    pub fn write_byte(&mut self, addr: usize, b: u8)
        requires
            old(self).wf(),
            addr < USER_SPACE_SIZE,
            old(self).addr_mapped(addr as int),
        ensures
            final(self).wf(),
            final(self).same_layout(*old(self)),
            final(self).page_data(addr as int / (PAGE_SIZE as int)) == old(self).page_data(
                addr as int / (PAGE_SIZE as int),
            ).update(addr as int % (PAGE_SIZE as int), b),
            forall|v: int|
                0 <= v < NUM_PAGES && v != addr as int / (PAGE_SIZE as int)
                    ==> #[trigger] final(self).pages@[v] == old(self).pages@[v],
    {
        proof {
            lemma_addr_vpn_in_window(addr as int);
        }
        let v = addr / PAGE_SIZE;
        let off = addr % PAGE_SIZE;
        match &mut self.pages[v] {
            Some(page) => {
                page.data[off] = b;
            },
            None => {},
        }
    }

    /// Every byte of `[va, va + len)` lies on a mapped page.
    pub fn check_range_mapped(&self, va: usize, len: usize) -> (r: bool)
        requires
            self.wf(),
            va + len <= USER_SPACE_SIZE,
        ensures
            r == self.range_mapped(va as int, len as int),
    {
        let mut i: usize = 0;
        while i < len
            invariant
                self.wf(),
                i <= len,
                va + len <= USER_SPACE_SIZE,
                forall|a: int| va <= a < va + i ==> #[trigger] self.addr_mapped(a),
            decreases len - i,
        {
            let a = va + i;
            proof {
                lemma_addr_vpn_in_window(a as int);
            }
            if self.pages[a / PAGE_SIZE].is_none() {
                proof {
                    assert(!self.addr_mapped(a as int));
                }
                return false;
            }
            i += 1;
        }
        true
    }

    /// Copies `data` into user memory at `va`, page by page; the record's
    /// bytes land in order even where the destination straddles page
    /// boundaries. Nothing outside the destination range changes.
    pub fn write_bytes(&mut self, va: usize, data: &Vec<u8>)
        requires
            old(self).wf(),
            va + data@.len() <= USER_SPACE_SIZE,
            old(self).range_mapped(va as int, data@.len() as int),
        ensures
            final(self).wf(),
            final(self).same_layout(*old(self)),
            forall|a: int|
                va <= a < va + data@.len() ==> #[trigger] final(self).byte_at(a) == data@[a - va],
            forall|a: int|
                0 <= a < USER_SPACE_SIZE && old(self).addr_mapped(a) && !(va <= a < va
                    + data@.len()) ==> #[trigger] final(self).byte_at(a) == old(self).byte_at(a),
    {
        let mut i: usize = 0;
        while i < data.len()
            invariant
                self.wf(),
                old(self).wf(),
                i <= data@.len(),
                va + data@.len() <= USER_SPACE_SIZE,
                self.same_layout(*old(self)),
                old(self).range_mapped(va as int, data@.len() as int),
                forall|a: int| va <= a < va + i ==> #[trigger] self.byte_at(a) == data@[a - va],
                forall|a: int|
                    0 <= a < USER_SPACE_SIZE && old(self).addr_mapped(a) && !(va <= a < va + i)
                        ==> #[trigger] self.byte_at(a) == old(self).byte_at(a),
            decreases data@.len() - i,
        {
            let addr = va + i;
            proof {
                lemma_addr_vpn_in_window(addr as int);
                assert(old(self).addr_mapped(addr as int));
                assert(self.addr_mapped(addr as int));
            }
            let ghost prev = *self;
            self.write_byte(addr, data[i]);
            proof {
                assert forall|a: int| 0 <= a < USER_SPACE_SIZE && a != addr implies self.byte_at(a)
                    == prev.byte_at(a) by {
                    lemma_addr_vpn_in_window(a);
                    let pv = a / (PAGE_SIZE as int);
                    if pv == addr as int / (PAGE_SIZE as int) {
                        vstd::arithmetic::div_mod::lemma_fundamental_div_mod(a, PAGE_SIZE as int);
                        vstd::arithmetic::div_mod::lemma_fundamental_div_mod(
                            addr as int,
                            PAGE_SIZE as int,
                        );
                        assert(a % (PAGE_SIZE as int) != addr as int % (PAGE_SIZE as int));
                    } else {
                        assert(self.pages@[pv] == prev.pages@[pv]);
                    }
                }
                assert(self.byte_at(addr as int) == data@[i as int]);
                assert forall|a: int| va <= a < va + (i + 1) implies #[trigger] self.byte_at(a)
                    == data@[a - va] by {
                    if a != addr {
                        assert(prev.byte_at(a) == data@[a - va]);
                        assert(self.byte_at(a) == prev.byte_at(a));
                    }
                }
                assert forall|a: int|
                    0 <= a < USER_SPACE_SIZE && old(self).addr_mapped(a) && !(va <= a < va + (i
                        + 1)) implies #[trigger] self.byte_at(a) == old(self).byte_at(a) by {
                    assert(self.byte_at(a) == prev.byte_at(a));
                    assert(prev.byte_at(a) == old(self).byte_at(a));
                }
            }
            i += 1;
        }
    }

    /// Reads `len` bytes of user memory at `va`: the bytes in address order
    /// when the whole range is mapped, nothing otherwise.
    pub fn read_bytes(&self, va: usize, len: usize) -> (r: Option<Vec<u8>>)
        requires
            self.wf(),
        ensures
            r is Some <==> (va + len <= USER_SPACE_SIZE && self.range_mapped(va as int, len as int)),
            r is Some ==> r.unwrap()@.len() == len,
            r is Some ==> forall|j: int|
                0 <= j < len ==> #[trigger] r.unwrap()@[j] == self.byte_at(va + j),
    {
        if va > USER_SPACE_SIZE || len > USER_SPACE_SIZE - va {
            proof {
                lemma_out_of_window_not_mapped(*self, va as int, len as int);
            }
            return None;
        }
        if !self.check_range_mapped(va, len) {
            return None;
        }
        let mut out: Vec<u8> = Vec::new();
        let mut i: usize = 0;
        while i < len
            invariant
                self.wf(),
                i <= len,
                va + len <= USER_SPACE_SIZE,
                self.range_mapped(va as int, len as int),
                out@.len() == i,
                forall|j: int| 0 <= j < i ==> #[trigger] out@[j] == self.byte_at(va + j),
            decreases len - i,
        {
            proof {
                assert(self.addr_mapped(va + i));
            }
            let b = self.read_byte(va + i);
            out.push(b);
            i += 1;
        }
        Some(out)
    }

    /// Moves the data-segment break by `size` bytes (negative shrinks).
    /// Succeeds, returning the previous break, exactly when the new break
    /// stays within the segment's bounds; fails without any change otherwise.
    pub fn change_brk(&mut self, size: i32) -> (r: Option<usize>)
        requires
            old(self).wf(),
        ensures
            final(self).wf(),
            final(self).pages@ == old(self).pages@,
            final(self).heap_base == old(self).heap_base,
            final(self).heap_limit == old(self).heap_limit,
            ({
                let new = old(self).brk + size as int;
                if old(self).heap_base <= new <= old(self).heap_limit {
                    r == Some(old(self).brk) && final(self).brk == new
                } else {
                    r is None && final(self).brk == old(self).brk
                }
            }),
    {
        let old_brk = self.brk;
        let new_brk: i64 = self.brk as i64 + size as i64;
        if new_brk < self.heap_base as i64 || new_brk > self.heap_limit as i64 {
            None
        } else {
            self.brk = new_brk as usize;
            Some(old_brk)
        }
    }
}

/// Relates an address space to the one it becomes when the pages `[vs, ve)`
/// are mapped fresh, zero-filled, with permission bits `perm`.
pub open spec fn mmap_post(
    pre: AddressSpace,
    post: AddressSpace,
    vs: int,
    ve: int,
    perm: u8,
) -> bool {
    &&& post.pages@.len() == pre.pages@.len()
    &&& forall|v: int| vs <= v < ve ==> #[trigger] post.page_mapped(v)
    &&& forall|v: int| vs <= v < ve ==> #[trigger] post.page_perm(v) == perm
    &&& forall|v: int| vs <= v < ve ==> #[trigger] post.page_data(v) == zero_page_seq()
    &&& forall|v: int|
        0 <= v < pre.pages@.len() && !(vs <= v < ve) ==> #[trigger] post.pages@[v] == pre.pages@[v]
    &&& post.heap_base == pre.heap_base
    &&& post.brk == pre.brk
    &&& post.heap_limit == pre.heap_limit
}

/// Relates an address space to the one it becomes when the pages `[vs, ve)`
/// are unmapped.
pub open spec fn unmap_post(pre: AddressSpace, post: AddressSpace, vs: int, ve: int) -> bool {
    &&& post.pages@.len() == pre.pages@.len()
    &&& forall|v: int| vs <= v < ve ==> !(#[trigger] post.page_mapped(v))
    &&& forall|v: int|
        0 <= v < pre.pages@.len() && !(vs <= v < ve) ==> #[trigger] post.pages@[v] == pre.pages@[v]
    &&& post.heap_base == pre.heap_base
    &&& post.brk == pre.brk
    &&& post.heap_limit == pre.heap_limit
}

/// The conditions under which an mmap request succeeds: aligned start, a
/// well-formed permission request, a range inside the user window, and no
/// page of the range already mapped.
pub open spec fn mmap_ok(s: AddressSpace, start: int, len: int, port: usize) -> bool {
    &&& start % (PAGE_SIZE as int) == 0
    &&& spec_port_valid(port)
    &&& 0 <= start
    &&& start + len <= USER_SPACE_SIZE
    &&& s.range_state(
        start / (PAGE_SIZE as int),
        (start + len + PAGE_SIZE - 1) / (PAGE_SIZE as int),
        false,
    )
}

/// The conditions under which a munmap request succeeds: aligned start, a
/// range inside the user window, every page of it currently mapped.
pub open spec fn munmap_ok(s: AddressSpace, start: int, len: int) -> bool {
    &&& start % (PAGE_SIZE as int) == 0
    &&& 0 <= start
    &&& start + len <= USER_SPACE_SIZE
    &&& s.range_state(
        start / (PAGE_SIZE as int),
        (start + len + PAGE_SIZE - 1) / (PAGE_SIZE as int),
        true,
    )
}

/// Round trip through user memory: a state whose bytes at `[va, va + n)` read
/// as `data` — as they do after `write_bytes` put them there — hands exactly
/// `data` back to a reader of that range, as `read_bytes` returns it.
pub proof fn lemma_write_read_round_trip(s: AddressSpace, va: int, data: Seq<u8>, out: Seq<u8>)
    requires
        forall|a: int| va <= a < va + data.len() ==> #[trigger] s.byte_at(a) == data[a - va],
        out.len() == data.len(),
        forall|j: int| 0 <= j < out.len() ==> #[trigger] out[j] == s.byte_at(va + j),
    ensures
        out == data,
{
    assert forall|j: int| 0 <= j < out.len() implies out[j] == data[j] by {
        assert(s.byte_at(va + j) == data[(va + j) - va]);
    }
    assert(out =~= data);
}

/// A permission request is rejected — whatever the address space, start and
/// length — whenever it sets a nonzero bit outside the read, write and
/// execute bits {0, 1, 3}, or sets none of those three.
pub proof fn lemma_invalid_port_rejected(s: AddressSpace, start: int, len: int, port: usize)
    requires
        (port & !0xb != 0) || (port & 0xb == 0),
    ensures
        !spec_port_valid(port),
        !mmap_ok(s, start, len, port),
{
}

/// An aligned, non-empty byte range covers at least its first page.
pub proof fn lemma_nonempty_range_has_a_page(start: int, len: int)
    requires
        start % (PAGE_SIZE as int) == 0,
        0 <= start,
        len > 0,
    ensures
        start / (PAGE_SIZE as int) < (start + len + PAGE_SIZE - 1) / (PAGE_SIZE as int),
{
    let ps = PAGE_SIZE as int;
    vstd::arithmetic::div_mod::lemma_fundamental_div_mod(start, ps);
    let q = start / ps;
    assert((ps * q + ps) / ps == q + 1) by (nonlinear_arith)
        requires
            ps == PAGE_SIZE as int,
    ;
    vstd::arithmetic::div_mod::lemma_div_is_ordered(start + ps, start + len + ps - 1, ps);
}

/// Mapping a range, then asking to map the same range again: the second
/// request is rejected as an overlap, whenever the range holds at least one
/// byte. (For an empty range both requests are no-op successes.)
pub proof fn lemma_mmap_then_mmap_rejected(
    pre: AddressSpace,
    post: AddressSpace,
    start: int,
    len: int,
    port: usize,
    perm: u8,
)
    requires
        len > 0,
        mmap_ok(pre, start, len, port),
        mmap_post(
            pre,
            post,
            start / (PAGE_SIZE as int),
            (start + len + PAGE_SIZE - 1) / (PAGE_SIZE as int),
            perm,
        ),
    ensures
        !mmap_ok(post, start, len, port),
{
    lemma_nonempty_range_has_a_page(start, len);
    let vs = start / (PAGE_SIZE as int);
    assert(post.page_mapped(vs));
}

/// Mapping a range and then unmapping it restores a state in which the same
/// mmap request succeeds again; the intervening munmap itself succeeds.
pub proof fn lemma_mmap_unmap_mmap_allowed(
    pre: AddressSpace,
    mid: AddressSpace,
    post: AddressSpace,
    start: int,
    len: int,
    port: usize,
    perm: u8,
)
    requires
        mmap_ok(pre, start, len, port),
        mmap_post(
            pre,
            mid,
            start / (PAGE_SIZE as int),
            (start + len + PAGE_SIZE - 1) / (PAGE_SIZE as int),
            perm,
        ),
        unmap_post(
            mid,
            post,
            start / (PAGE_SIZE as int),
            (start + len + PAGE_SIZE - 1) / (PAGE_SIZE as int),
        ),
    ensures
        munmap_ok(mid, start, len),
        mmap_ok(post, start, len, port),
{
}

/// Pages that back addresses up to `end` lie within the page table.
pub proof fn lemma_vpn_end_in_window(end: int)
    requires
        0 <= end <= USER_SPACE_SIZE,
    ensures
        (end + PAGE_SIZE - 1) / (PAGE_SIZE as int) <= NUM_PAGES,
        end / (PAGE_SIZE as int) <= NUM_PAGES,
{
    assert((end + PAGE_SIZE - 1) / (PAGE_SIZE as int) <= NUM_PAGES && end / (PAGE_SIZE as int)
        <= NUM_PAGES) by (nonlinear_arith)
        requires
            0 <= end <= USER_SPACE_SIZE,
    ;
}

/// A byte range that reaches past the user window always holds an unmapped
/// address, as long as it is not empty.
pub proof fn lemma_out_of_window_not_mapped(s: AddressSpace, va: int, len: int)
    requires
        s.wf(),
        0 <= va,
        0 <= len,
        va + len > USER_SPACE_SIZE,
    ensures
        !(va + len <= USER_SPACE_SIZE && s.range_mapped(va, len)),
{
    if len > 0 {
        let witness: int = if va >= USER_SPACE_SIZE {
            va
        } else {
            USER_SPACE_SIZE as int
        };
        assert(va <= witness < va + len);
        assert(witness / (PAGE_SIZE as int) >= NUM_PAGES) by (nonlinear_arith)
            requires
                witness >= USER_SPACE_SIZE,
        ;
        assert(!s.addr_mapped(witness));
    }
}

/// Every address inside the user window lies on a page of the table.
pub proof fn lemma_addr_vpn_in_window(a: int)
    requires
        0 <= a < USER_SPACE_SIZE,
    ensures
        0 <= a / (PAGE_SIZE as int) < NUM_PAGES,
        0 <= a % (PAGE_SIZE as int) < PAGE_SIZE,
{
    assert(0 <= a / (PAGE_SIZE as int) < NUM_PAGES && 0 <= a % (PAGE_SIZE as int) < PAGE_SIZE)
        by (nonlinear_arith)
        requires
            0 <= a < USER_SPACE_SIZE,
    ;
}

} // verus!
