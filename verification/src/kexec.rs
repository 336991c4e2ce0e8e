use vstd::prelude::*;

use crate::errno::SystemError;

verus! {

/// How many segments a kexec image may have.
pub const KEXEC_SEGMENT_MAX: usize = 16;

/// The size of a page.
pub const PAGE_SIZE: usize = 4096;

/// The bytes the segment table of an image takes: sixteen segments of four
/// machine words.
pub const SEGMENT_TABLE_BYTES: usize = 512;

/// One piece of the new kernel: `bufsz` bytes at address `buffer`, to be
/// placed in `memsz` bytes of memory at physical address `mem`.
#[derive(Clone, Copy, PartialEq, Eq, Structural, Debug)]
pub struct KexecSegment {
    pub buffer: usize,
    pub bufsz: usize,
    pub mem: usize,
    pub memsz: usize,
}

impl KexecSegment {
    /// A segment of nothing.
    pub fn empty() -> (r: KexecSegment)
        ensures
            r == (KexecSegment { buffer: 0, bufsz: 0, mem: 0, memsz: 0 }),
    {
        KexecSegment { buffer: 0, bufsz: 0, mem: 0, memsz: 0 }
    }
}

/// Every bit that a kexec flag uses.
pub const KEXEC_FLAGS_ALL_BITS: u64 = 0xffff0003;

/// The flags of a kexec load.
#[derive(Clone, Copy, PartialEq, Eq, Structural, Debug)]
pub struct KexecFlags {
    pub bits: u64,
}

impl KexecFlags {
    /// The flags made of the known bits of `bits`.
    pub fn from_bits_truncate(bits: u64) -> (r: KexecFlags)
        ensures
            r.bits == bits & KEXEC_FLAGS_ALL_BITS,
    {
        KexecFlags { bits: bits & KEXEC_FLAGS_ALL_BITS }
    }
}

/// An image of a kernel to start in place of the running one.
pub struct Kimage {
    pub head: usize,
    pub entry_ptr: usize,
    pub last_entry_ptr: usize,
    /// Where the new kernel starts.
    pub start: usize,
    /// The physical address of the page that holds the relocation code.
    pub control_code_page: Option<usize>,
    pub swap_page: Option<usize>,
    pub vmcoreinfo_data_copy: usize,
    /// How many of the segments are used.
    pub nr_segments: usize,
    pub segment: [KexecSegment; 16],
    /// The kernel's copies of the segments' contents.
    pub ksegments_vec: Vec<Vec<u8>>,
    pub pgd: usize,
    pub p4d: usize,
    pub pud: usize,
    pub pmd: usize,
    pub pte: usize,
}

/// Whether physical address `paddr` lies in the destination of one of the
/// first `nr_segments` segments, both ends included.
pub open spec fn spec_is_dst(segs: Seq<KexecSegment>, nr_segments: int, paddr: int) -> bool {
    exists|i: int| 0 <= i < nr_segments && (#[trigger] segs[i]).mem <= paddr <= segs[i].mem + segs[i].memsz
}

/// The used segments' destinations can be added up without overflow.
pub open spec fn segments_in_range(segs: Seq<KexecSegment>, nr_segments: int) -> bool {
    forall|i: int| 0 <= i < nr_segments ==> #[trigger] segs[i].mem + segs[i].memsz <= usize::MAX
}

/// Whether the page at physical address `paddr` lies in the destination of
/// a segment of `kimage`, and so cannot serve as the control page.
pub fn check_isdst(kimage: &Kimage, paddr: usize) -> (r: bool)
    requires
        kimage.nr_segments <= KEXEC_SEGMENT_MAX,
        segments_in_range(kimage.segment@, kimage.nr_segments as int),
    ensures
        r == spec_is_dst(kimage.segment@, kimage.nr_segments as int, paddr as int),
{
    let nr_segments = kimage.nr_segments;
    let mut i: usize = 0;
    while i < nr_segments
        invariant
            nr_segments == kimage.nr_segments,
            nr_segments <= KEXEC_SEGMENT_MAX,
            i <= nr_segments,
            segments_in_range(kimage.segment@, nr_segments as int),
            forall|j: int|
                0 <= j < i ==> !((#[trigger] kimage.segment@[j]).mem <= paddr <= kimage.segment@[j].mem
                    + kimage.segment@[j].memsz),
        decreases nr_segments - i,
    {
        let mem = kimage.segment[i].mem;
        let memend = mem + kimage.segment[i].memsz;
        if paddr >= mem && paddr <= memend {
            return true;
        }
        i += 1;
    }
    false
}

/// The segment table of a new image made from `ksegments`: those segments
/// first, then empty ones.
pub open spec fn spec_image_segments(ksegments: Seq<KexecSegment>) -> Seq<KexecSegment> {
    Seq::new(
        KEXEC_SEGMENT_MAX as nat,
        |i: int|
            if i < ksegments.len() {
                ksegments[i]
            } else {
                KexecSegment::empty_spec()
            },
    )
}

/// The index of the first page of `pages`, from index `i` on, that lies
/// outside the destinations of the first `nr` segments of `segs`, or
/// `pages.len()` when there is none.
pub open spec fn first_outside_index_from(segs: Seq<KexecSegment>, nr: int, pages: Seq<usize>, i: int) -> int
    decreases pages.len() - i,
{
    if i < 0 || i >= pages.len() {
        pages.len() as int
    } else if !spec_is_dst(segs, nr, pages[i] as int) {
        i
    } else {
        first_outside_index_from(segs, nr, pages, i + 1)
    }
}

/// The control page chosen from `pages`: the first that lies outside every
/// used segment's destination.
pub open spec fn spec_control_page(segs: Seq<KexecSegment>, nr: int, pages: Seq<usize>) -> Option<usize> {
    let k = first_outside_index_from(segs, nr, pages, 0);
    if k < pages.len() {
        Some(pages[k])
    } else {
        None
    }
}

/// The pages passed over while choosing the control page from `pages`:
/// those before the chosen one, or all of them when none is chosen.
pub open spec fn spec_passed_over(segs: Seq<KexecSegment>, nr: int, pages: Seq<usize>) -> Seq<usize> {
    pages.subrange(0, first_outside_index_from(segs, nr, pages, 0))
}

/// A new image that starts at `entry`, with `nr_segments` segments of which
/// those of `ksegments` come first, and its control page; with it, the
/// pages to give back.
///
/// `offered_pages` are the pages the page manager hands out, in order: the
/// control page is the first of them that lies outside every used
/// segment's destination, and the pages offered before it, each of which
/// lies in a destination, are handed back to be freed. When none of them
/// qualifies, the image has no control page yet and all of them are handed
/// back. Every other field of the image is zero or empty.
pub fn kimage_alloc_init(entry: usize, nr_segments: usize, ksegments: &[KexecSegment], flags: usize, offered_pages: &[usize]) -> (r: Result<(Kimage, Vec<usize>), SystemError>)
    requires
        ksegments@.len() <= KEXEC_SEGMENT_MAX,
        nr_segments <= KEXEC_SEGMENT_MAX,
        segments_in_range(spec_image_segments(ksegments@), nr_segments as int),
    ensures
        r matches Ok((k, passed)) && {
            &&& k.start == entry
            &&& k.nr_segments == nr_segments
            &&& k.segment@ == spec_image_segments(ksegments@)
            &&& k.control_code_page == spec_control_page(
                spec_image_segments(ksegments@),
                nr_segments as int,
                offered_pages@,
            )
            &&& passed@ == spec_passed_over(spec_image_segments(ksegments@), nr_segments as int, offered_pages@)
            &&& k.swap_page is None
            &&& k.head == 0 && k.entry_ptr == 0 && k.last_entry_ptr == 0
            &&& k.vmcoreinfo_data_copy == 0
            &&& k.ksegments_vec@.len() == 0
            &&& k.pgd == 0 && k.p4d == 0 && k.pud == 0 && k.pmd == 0 && k.pte == 0
        },
{
    let _flags = KexecFlags::from_bits_truncate(flags as u64);
    let e = KexecSegment::empty();
    let mut segment: [KexecSegment; 16] = [e, e, e, e, e, e, e, e, e, e, e, e, e, e, e, e];
    let mut i: usize = 0;
    while i < ksegments.len()
        invariant
            ksegments@.len() <= KEXEC_SEGMENT_MAX,
            i <= ksegments@.len(),
            segment@.len() == KEXEC_SEGMENT_MAX,
            forall|j: int| 0 <= j < i ==> segment@[j] == ksegments@[j],
            forall|j: int| i <= j < KEXEC_SEGMENT_MAX ==> segment@[j] == e,
        decreases ksegments@.len() - i,
    {
        segment[i] = ksegments[i];
        i += 1;
    }
    assert(segment@ =~= spec_image_segments(ksegments@));
    let mut image = Kimage {
        head: 0,
        entry_ptr: 0,
        last_entry_ptr: 0,
        start: entry,
        control_code_page: None,
        swap_page: None,
        vmcoreinfo_data_copy: 0,
        nr_segments,
        segment,
        ksegments_vec: Vec::new(),
        pgd: 0,
        p4d: 0,
        pud: 0,
        pmd: 0,
        pte: 0,
    };
    let ghost segs = image.segment@;
    let ghost nr = nr_segments as int;
    let mut search = ControlPageSearch::new();
    let mut k: usize = 0;
    while k < offered_pages.len()
        invariant
            image.segment@ == segs,
            segs == spec_image_segments(ksegments@),
            nr == nr_segments as int,
            image.start == entry,
            image.control_code_page is None,
            image.swap_page is None,
            image.head == 0 && image.entry_ptr == 0 && image.last_entry_ptr == 0,
            image.vmcoreinfo_data_copy == 0,
            image.ksegments_vec@.len() == 0,
            image.pgd == 0 && image.p4d == 0 && image.pud == 0 && image.pmd == 0 && image.pte == 0,
            image.nr_segments == nr_segments,
            nr_segments <= KEXEC_SEGMENT_MAX,
            segments_in_range(segs, nr),
            k <= offered_pages@.len(),
            search.spec_found() is None,
            search.spec_extra_pages() == offered_pages@.subrange(0, k as int),
            first_outside_index_from(segs, nr, offered_pages@, 0) == first_outside_index_from(
                segs,
                nr,
                offered_pages@,
                k as int,
            ),
        decreases offered_pages@.len() - k,
    {
        let p = offered_pages[k];
        match search.offer(&image, p) {
            ControlPageAction::Take(page) => {
                image.control_code_page = Some(page);
                let (_, passed) = search.finish();
                return Ok((image, passed));
            },
            ControlPageAction::SetAside(_) => {},
        }
        assert(search.spec_extra_pages() =~= offered_pages@.subrange(0, k as int + 1));
        k += 1;
    }
    let (_, passed) = search.finish();
    assert(offered_pages@.subrange(0, k as int) =~= offered_pages@);
    Ok((image, passed))
}

impl KexecSegment {
    pub open spec fn empty_spec() -> KexecSegment {
        KexecSegment { buffer: 0, bufsz: 0, mem: 0, memsz: 0 }
    }
}


/// The start of the page that holds `addr`.
pub open spec fn spec_round_down_to_page_size(addr: usize) -> usize {
    (addr - addr % PAGE_SIZE) as usize
}

/// The start of the page that holds `addr`.
pub fn round_down_to_page_size(addr: usize) -> (r: usize)
    ensures
        r == spec_round_down_to_page_size(addr),
        r <= addr,
        r % PAGE_SIZE == 0,
{
    addr - addr % PAGE_SIZE
}

/// The start addresses of the pages of `bytes` bytes from `start` on.
pub open spec fn page_run(start: usize, bytes: usize) -> Seq<usize> {
    Seq::new((bytes / PAGE_SIZE) as nat, |k: int| (start + k * PAGE_SIZE) as usize)
}

/// The pages of the buffers of the first `n` segments, in order.
pub open spec fn buffer_pages(segs: Seq<KexecSegment>, n: int) -> Seq<usize>
    decreases n,
{
    if n <= 0 {
        Seq::empty()
    } else {
        buffer_pages(segs, n - 1) + page_run(segs[n - 1].buffer, segs[n - 1].memsz)
    }
}

/// The pages of the destinations of the first `n` segments, in order.
pub open spec fn mem_pages(segs: Seq<KexecSegment>, n: int) -> Seq<usize>
    decreases n,
{
    if n <= 0 {
        Seq::empty()
    } else {
        mem_pages(segs, n - 1) + page_run(segs[n - 1].mem, segs[n - 1].memsz)
    }
}

/// A segment the page-table setup can map: its size is a positive number
/// of whole pages, and neither its buffer nor its destination runs past
/// the end of the address space.
pub open spec fn segment_mappable(seg: KexecSegment) -> bool {
    &&& seg.memsz > 0
    &&& seg.memsz % PAGE_SIZE == 0
    &&& seg.buffer + seg.memsz <= usize::MAX
    &&& seg.mem + seg.memsz <= usize::MAX
}

/// The pages the identity page table of an image maps, in order: the page
/// (or two) of the segment table at `table_addr`, the pages of each
/// segment's buffer, those of each segment's destination, and the control
/// page.
pub open spec fn spec_ident_map_plan(table_addr: usize, segs: Seq<KexecSegment>, n: int, control: usize) -> Seq<usize> {
    let b = spec_round_down_to_page_size(table_addr);
    let t = spec_round_down_to_page_size((table_addr + SEGMENT_TABLE_BYTES) as usize);
    let table_pages = if b == t {
        seq![b]
    } else {
        seq![b, t]
    };
    table_pages + buffer_pages(segs, n) + mem_pages(segs, n) + seq![control]
}

/// Appends the start of each page of `size` bytes from `start` on.
fn push_page_run(out: &mut Vec<usize>, start: usize, size: usize)
    requires
        size > 0,
        size % PAGE_SIZE == 0,
        start + size <= usize::MAX,
    ensures
        final(out)@ == old(out)@ + page_run(start, size),
{
    let mut addr = start;
    let mut left = size;
    let ghost mut k: int = 0;
    loop
        invariant_except_break
            left > 0,
            left % PAGE_SIZE == 0,
            k >= 0,
            addr == start + k * PAGE_SIZE,
            left == size - k * PAGE_SIZE,
            start + size <= usize::MAX,
            out@ == old(out)@ + page_run(start, (k * PAGE_SIZE) as usize),
        ensures
            out@ == old(out)@ + page_run(start, size),
        decreases left,
    {
        proof {
            assert(page_run(start, ((k + 1) * PAGE_SIZE) as usize) =~= page_run(start, (k * PAGE_SIZE) as usize).push(addr));
        }
        out.push(addr);
        addr = addr + PAGE_SIZE;
        left = left - PAGE_SIZE;
        proof {
            k = k + 1;
        }
        if left == 0 {
            break;
        }
    }
}

/// The pages to map one to one in the page table that the switch to the
/// new kernel runs on, in the order they are mapped: the page (or two) of
/// the segment table at `table_addr`, the pages of each used segment's
/// buffer, those of each used segment's destination, and the control page.
pub fn ident_map_plan(kimage: &Kimage, table_addr: usize) -> (r: Vec<usize>)
    requires
        kimage.nr_segments <= KEXEC_SEGMENT_MAX,
        forall|i: int| 0 <= i < kimage.nr_segments ==> segment_mappable(#[trigger] kimage.segment@[i]),
        table_addr + SEGMENT_TABLE_BYTES <= usize::MAX,
        kimage.control_code_page is Some,
    ensures
        r@ == spec_ident_map_plan(
            table_addr,
            kimage.segment@,
            kimage.nr_segments as int,
            kimage.control_code_page->0,
        ),
{
    let mut out: Vec<usize> = Vec::new();
    let addr_b = round_down_to_page_size(table_addr);
    let addr_t = round_down_to_page_size(table_addr + SEGMENT_TABLE_BYTES);
    out.push(addr_b);
    if addr_b != addr_t {
        out.push(addr_t);
    }
    let ghost head = out@;
    let nr_segments = kimage.nr_segments;
    let mut i: usize = 0;
    while i < nr_segments
        invariant
            nr_segments == kimage.nr_segments,
            nr_segments <= KEXEC_SEGMENT_MAX,
            i <= nr_segments,
            forall|j: int| 0 <= j < nr_segments ==> segment_mappable(#[trigger] kimage.segment@[j]),
            out@ == head + buffer_pages(kimage.segment@, i as int),
        decreases nr_segments - i,
    {
        let seg = kimage.segment[i];
        assert(segment_mappable(kimage.segment@[i as int]));
        push_page_run(&mut out, seg.buffer, seg.memsz);
        proof {
            assert(head + buffer_pages(kimage.segment@, i as int + 1) =~= head + buffer_pages(kimage.segment@, i as int) + page_run(seg.buffer, seg.memsz));
        }
        i += 1;
    }
    let ghost middle = out@;
    let mut i: usize = 0;
    while i < nr_segments
        invariant
            nr_segments == kimage.nr_segments,
            nr_segments <= KEXEC_SEGMENT_MAX,
            i <= nr_segments,
            forall|j: int| 0 <= j < nr_segments ==> segment_mappable(#[trigger] kimage.segment@[j]),
            out@ == middle + mem_pages(kimage.segment@, i as int),
        decreases nr_segments - i,
    {
        let seg = kimage.segment[i];
        assert(segment_mappable(kimage.segment@[i as int]));
        push_page_run(&mut out, seg.mem, seg.memsz);
        proof {
            assert(middle + mem_pages(kimage.segment@, i as int + 1) =~= middle + mem_pages(kimage.segment@, i as int) + page_run(seg.mem, seg.memsz));
        }
        i += 1;
    }
    let control = kimage.control_code_page.unwrap();
    out.push(control);
    proof {
        let plan = spec_ident_map_plan(table_addr, kimage.segment@, nr_segments as int, control);
        assert(out@ =~= plan);
    }
    out
}

/// The kernel's copy of a segment's contents, grown with zero bytes to the
/// size of the segment's destination when it is shorter.
pub fn pad_segment(data: Vec<u8>, memsz: usize) -> (r: Vec<u8>)
    ensures
        data@.len() < memsz ==> r@ == data@ + Seq::new((memsz - data@.len()) as nat, |k: int| 0u8),
        data@.len() >= memsz ==> r@ == data@,
{
    let mut v = data;
    let ghost orig = v@;
    if v.len() < memsz {
        while v.len() < memsz
            invariant
                orig.len() <= v@.len() <= memsz,
                v@ == orig + Seq::new((v@.len() - orig.len()) as nat, |k: int| 0u8),
            decreases memsz - v@.len(),
        {
            let ghost before = v@;
            v.push(0);
            proof {
                assert(v@ =~= orig + Seq::new((v@.len() - orig.len()) as nat, |k: int| 0u8));
            }
        }
    }
    v
}

/// What a kexec load does with its segment count: with no segment there is
/// nothing to load, and the load succeeds at once with 0; otherwise the
/// image is to be built.
pub fn kexec_load_nothing(nr_segments: usize) -> (r: Option<Result<usize, SystemError>>)
    ensures
        r == if nr_segments == 0 {
            Some(Ok::<usize, SystemError>(0))
        } else {
            None
        },
{
    if nr_segments == 0 {
        return Some(Ok(0));
    }
    None
}

/// A descriptor-table pointer: the limit and the base address of a GDT or
/// an IDT, as the `lgdt` and `lidt` instructions read them.
#[derive(Clone, Copy, PartialEq, Eq, Structural, Debug)]
pub struct DescPtr {
    pub size: u16,
    pub address: u64,
}

impl DescPtr {
    pub fn new(address: u64, size: u16) -> (r: Self)
        ensures
            r.size == size,
            r.address == address,
    {
        Self { size, address }
    }
}
/// What to do with a page offered as the control page of an image.
#[derive(Clone, Copy, PartialEq, Eq, Structural, Debug)]
pub enum ControlPageAction {
    /// The page lies outside every destination: it becomes the control page.
    Take(usize),
    /// The page lies in a destination: keep it allocated aside, so that it
    /// is not offered again, and allocate another.
    SetAside(usize),
}

/// The search for a control page: pages are allocated one after another
/// until one lies outside the image's destinations; the pages passed over
/// are given back at the end.
pub struct ControlPageSearch {
    extra_pages: Vec<usize>,
    found: Option<usize>,
}

impl ControlPageSearch {
    /// The pages passed over so far, in the order they were offered.
    pub closed spec fn spec_extra_pages(&self) -> Seq<usize> {
        self.extra_pages@
    }

    /// The page taken, once one is.
    pub closed spec fn spec_found(&self) -> Option<usize> {
        self.found
    }

    /// A search that has seen no page yet.
    pub fn new() -> (r: Self)
        ensures
            r.spec_extra_pages().len() == 0,
            r.spec_found() is None,
    {
        ControlPageSearch { extra_pages: Vec::new(), found: None }
    }

    /// Decides on the newly allocated page at `paddr`: it is taken when it
    /// lies outside the destinations of `kimage`'s segments, and set aside
    /// otherwise.
    pub fn offer(&mut self, kimage: &Kimage, paddr: usize) -> (r: ControlPageAction)
        requires
            old(self).spec_found() is None,
            kimage.nr_segments <= KEXEC_SEGMENT_MAX,
            segments_in_range(kimage.segment@, kimage.nr_segments as int),
        ensures
            spec_is_dst(kimage.segment@, kimage.nr_segments as int, paddr as int) ==> {
                &&& r == ControlPageAction::SetAside(paddr)
                &&& final(self).spec_extra_pages() == old(self).spec_extra_pages().push(paddr)
                &&& final(self).spec_found() is None
            },
            !spec_is_dst(kimage.segment@, kimage.nr_segments as int, paddr as int) ==> {
                &&& r == ControlPageAction::Take(paddr)
                &&& final(self).spec_extra_pages() == old(self).spec_extra_pages()
                &&& final(self).spec_found() == Some(paddr)
            },
    {
        if check_isdst(kimage, paddr) {
            self.extra_pages.push(paddr);
            ControlPageAction::SetAside(paddr)
        } else {
            self.found = Some(paddr);
            ControlPageAction::Take(paddr)
        }
    }

    /// Ends the search: the page taken, if any, and the pages to give back.
    pub fn finish(self) -> (r: (Option<usize>, Vec<usize>))
        ensures
            r.0 == self.spec_found(),
            r.1@ == self.spec_extra_pages(),
    {
        (self.found, self.extra_pages)
    }
}

impl Kimage {
    /// Sets the control page.
    pub fn set_control_code_page(&mut self, page: Option<usize>)
        ensures
            final(self).control_code_page == page,
            final(self).start == old(self).start,
            final(self).nr_segments == old(self).nr_segments,
            final(self).segment == old(self).segment,
            final(self).ksegments_vec@ == old(self).ksegments_vec@,
    {
        self.control_code_page = page;
    }

    /// Keeps the kernel's copy `data` of segment `i`, which lies at
    /// physical address `phys`: the segment's buffer now points there.
    pub fn install_segment_copy(&mut self, i: usize, data: Vec<u8>, phys: usize)
        requires
            i < KEXEC_SEGMENT_MAX,
        ensures
            final(self).segment@ == old(self).segment@.update(
                i as int,
                KexecSegment { buffer: phys, ..old(self).segment@[i as int] },
            ),
            final(self).ksegments_vec@ == old(self).ksegments_vec@.push(data),
            final(self).start == old(self).start,
            final(self).nr_segments == old(self).nr_segments,
            final(self).control_code_page == old(self).control_code_page,
    {
        let mut seg = self.segment[i];
        seg.buffer = phys;
        self.segment[i] = seg;
        self.ksegments_vec.push(data);
    }
}

/// The result of a kexec load once the image is built: the preparation of
/// the machine either succeeded, and the load gives 0, or it did not, and
/// the load fails with `EADV`.
pub fn kexec_load_result(prepared: bool) -> (r: Result<usize, SystemError>)
    ensures
        r == if prepared {
            Ok::<usize, SystemError>(0)
        } else {
            Err::<usize, SystemError>(SystemError::EADV)
        },
{
    if !prepared {
        return Err(SystemError::EADV);
    }
    Ok(0)
}


/// Whether the relocation code between addresses `start` and `end` fits in
/// the control page, where it is copied before the switch.
pub fn relocation_code_fits(start: usize, end: usize) -> (r: bool)
    requires
        start <= end,
    ensures
        r == (end - start <= PAGE_SIZE),
{
    end - start <= PAGE_SIZE
}

} // verus!
