//! The four-level page-table walk over an arena of tables keyed by the
//! physical frame that holds them: translation of virtual addresses and
//! installation of new 4 KiB mappings.
use crate::addr::{
    is_canonical, offset_of, p1_of, p2_of, p3_of, p4_of, spec_align_down, PhysAddr, VirtAddr,
    PHYS_LIMIT,
};
use crate::frame::PhysFrame;
use crate::page::{Page, PageSize, Size1GiB, Size2MiB, Size4KiB, SIZE_1GIB, SIZE_2MIB, SIZE_4KIB};
use crate::page_table::{
    entry_addr, entry_flags, entry_huge, entry_present, zero_table, FrameError, PageTable,
    PageTableEntry, PageTableFlags, ADDR_BITS, FLAG_BITS,
};
use vstd::hash_map::HashMapWithView;
use vstd::prelude::*;

verus! {

broadcast use vstd::std_specs::hash::group_hash_axioms;

/// The frame that a translated address falls in, with its size.
#[derive(Debug)]
pub enum MappedFrame {
    Size4KiB(PhysFrame<Size4KiB>),
    Size2MiB(PhysFrame<Size2MiB>),
    Size1GiB(PhysFrame<Size1GiB>),
}

impl MappedFrame {
    pub open spec fn spec_start(&self) -> u64 {
        match self {
            MappedFrame::Size4KiB(f) => f@,
            MappedFrame::Size2MiB(f) => f@,
            MappedFrame::Size1GiB(f) => f@,
        }
    }

    pub open spec fn spec_size(&self) -> u64 {
        match self {
            MappedFrame::Size4KiB(_) => SIZE_4KIB,
            MappedFrame::Size2MiB(_) => SIZE_2MIB,
            MappedFrame::Size1GiB(_) => SIZE_1GIB,
        }
    }

    pub fn start_address(&self) -> (r: PhysAddr)
        ensures
            r@ == self.spec_start(),
    {
        match self {
            MappedFrame::Size4KiB(frame) => frame.start_address(),
            MappedFrame::Size2MiB(frame) => frame.start_address(),
            MappedFrame::Size1GiB(frame) => frame.start_address(),
        }
    }
}

/// What a translation yields, as plain numbers.
pub enum Translation {
    Mapped { size: u64, frame: u64, offset: u64, flags: u64 },
    NotMapped,
    InvalidFrameAddress(u64),
}

/// Outcome of translating a virtual address.
#[derive(Debug)]
pub enum TranslateResult {
    /// The address lies in `frame`, `offset` bytes from its start.
    Mapped { frame: MappedFrame, offset: u64, flags: PageTableFlags },
    /// Some level of the walk has no entry for the address.
    NotMapped,
    /// The level-1 entry holds an address that is not 4 KiB aligned.
    InvalidFrameAddress(PhysAddr),
}

impl View for TranslateResult {
    type V = Translation;

    open spec fn view(&self) -> Translation {
        match self {
            TranslateResult::Mapped { frame, offset, flags } => Translation::Mapped {
                size: frame.spec_size(),
                frame: frame.spec_start(),
                offset: *offset,
                flags: flags@,
            },
            TranslateResult::NotMapped => Translation::NotMapped,
            TranslateResult::InvalidFrameAddress(a) => Translation::InvalidFrameAddress(a@),
        }
    }
}

/// The table held in frame `t`; a frame that holds no table reads as zeros.
pub open spec fn table_of(mem: Map<u64, Seq<u64>>, t: u64) -> Seq<u64> {
    if mem.contains_key(t) {
        mem[t]
    } else {
        zero_table()
    }
}

pub open spec fn read_entry(mem: Map<u64, Seq<u64>>, t: u64, i: u64) -> u64 {
    table_of(mem, t)[i as int]
}

pub open spec fn write_entry(mem: Map<u64, Seq<u64>>, t: u64, i: u64, e: u64) -> Map<
    u64,
    Seq<u64>,
> {
    mem.insert(t, table_of(mem, t).update(i as int, e))
}

/// Every table of the arena has 512 entries.
pub open spec fn tables_wf(mem: Map<u64, Seq<u64>>) -> bool {
    forall|t: u64| mem.contains_key(t) ==> (#[trigger] mem[t]).len() == 512
}

/// The level-4 entry for `va` is present with the huge-page bit set, which
/// the walk cannot handle.
pub open spec fn level_4_huge(mem: Map<u64, Seq<u64>>, l4: u64, va: u64) -> bool {
    let e4 = read_entry(mem, l4, p4_of(va));
    entry_present(e4) && entry_huge(e4)
}

/// The walk from the level-4 table `l4` for the virtual address `va`.
pub open spec fn spec_translate(mem: Map<u64, Seq<u64>>, l4: u64, va: u64) -> Translation {
    let e4 = read_entry(mem, l4, p4_of(va));
    if !entry_present(e4) {
        Translation::NotMapped
    } else {
        let e3 = read_entry(mem, entry_addr(e4), p3_of(va));
        if !entry_present(e3) {
            Translation::NotMapped
        } else if entry_huge(e3) {
            Translation::Mapped {
                size: SIZE_1GIB,
                frame: spec_align_down(entry_addr(e3), SIZE_1GIB),
                offset: va & 0x3fff_ffff,
                flags: entry_flags(e3),
            }
        } else {
            let e2 = read_entry(mem, entry_addr(e3), p2_of(va));
            if !entry_present(e2) {
                Translation::NotMapped
            } else if entry_huge(e2) {
                Translation::Mapped {
                    size: SIZE_2MIB,
                    frame: spec_align_down(entry_addr(e2), SIZE_2MIB),
                    offset: va & 0x1f_ffff,
                    flags: entry_flags(e2),
                }
            } else {
                let e1 = read_entry(mem, entry_addr(e2), p1_of(va));
                if e1 == 0 {
                    Translation::NotMapped
                } else if entry_addr(e1) % 4096 != 0 {
                    Translation::InvalidFrameAddress(entry_addr(e1))
                } else {
                    Translation::Mapped {
                        size: SIZE_4KIB,
                        frame: entry_addr(e1),
                        offset: offset_of(va),
                        flags: entry_flags(e1),
                    }
                }
            }
        }
    }
}

/// Why a table for the next level could not be had.
#[derive(Clone, Copy, Debug, PartialEq, Eq)]
pub enum PageTableCreateError {
    FrameAllocationFailed,
    MappedToHugePage,
}

/// The start address of the frame an allocator handed out, if any.
pub open spec fn frame_addr(frame: Option<PhysFrame<Size4KiB>>) -> Option<u64> {
    match frame {
        Some(f) => Some(f@),
        None => None,
    }
}

/// A frame handed out by an allocator: 4 KiB aligned and a physical address.
pub open spec fn alloc_valid(a: Option<u64>) -> bool {
    match a {
        Some(x) => x % 4096 == 0 && x < PHYS_LIMIT,
        None => true,
    }
}

/// One step of the walk that creates missing tables: entry `i` of table `t`
/// gets a new zeroed table from the allocator's frame `alloc` when unused
/// (no frame: allocation failed); a used entry that is a huge page blocks
/// the walk and stays as it is; another used entry has `insert` merged into
/// its flags. The result is the frame of the next table.
pub open spec fn spec_create_next(
    mem: Map<u64, Seq<u64>>,
    t: u64,
    i: u64,
    insert: u64,
    alloc: Option<u64>,
) -> (Map<u64, Seq<u64>>, Result<u64, PageTableCreateError>) {
    let e = read_entry(mem, t, i);
    if e == 0 {
        match alloc {
            None => (mem, Err(PageTableCreateError::FrameAllocationFailed)),
            Some(a) => {
                let m1 = write_entry(mem, t, i, a | insert);
                if entry_huge(a | insert) {
                    (m1, Err(PageTableCreateError::MappedToHugePage))
                } else {
                    (m1.insert(a, zero_table()), Ok(a))
                }
            },
        }
    } else if entry_huge(e) {
        (mem, Err(PageTableCreateError::MappedToHugePage))
    } else {
        let merge = insert != 0 && entry_flags(e) & insert != insert;
        let e2 = if merge {
            entry_addr(e) | (entry_flags(e) | insert)
        } else {
            e
        };
        let m1 = if merge {
            write_entry(mem, t, i, e2)
        } else {
            mem
        };
        if entry_huge(e2) {
            (m1, Err(PageTableCreateError::MappedToHugePage))
        } else {
            (m1, Ok(entry_addr(e2)))
        }
    }
}

/// A creation step at entry `i` of table `t` cannot be left without a
/// table to descend into: the flags it installs or merges make the entry
/// present, or the entry is present already.
pub open spec fn step_ok(mem: Map<u64, Seq<u64>>, t: u64, i: u64, pflags: u64) -> bool {
    entry_present(pflags) || entry_present(read_entry(mem, t, i))
}

/// Every creation step of mapping the page at `va` finds an entry to
/// descend through: the table flags are present, or each entry that the
/// walk reaches is present until one is a huge page (or the flags carry
/// the huge-page bit, which ends the walk at the first entry).
pub open spec fn map_walk_ok(mem: Map<u64, Seq<u64>>, l4: u64, va: u64, pflags: u64) -> bool {
    let e4 = read_entry(mem, l4, p4_of(va));
    let e3 = read_entry(mem, entry_addr(e4), p3_of(va));
    let e2 = read_entry(mem, entry_addr(e3), p2_of(va));
    entry_present(pflags) || (entry_present(e4) && (entry_huge(e4) || entry_huge(pflags) || (
    entry_present(e3) && (entry_huge(e3) || entry_present(e2)))))
}

/// Outcome of a mapping request, as plain numbers.
pub enum MapOutcome {
    Mapped,
    FrameAllocationFailed,
    ParentEntryHugePage,
    AlreadyMapped(u64),
}

pub open spec fn create_failure(e: PageTableCreateError) -> MapOutcome {
    match e {
        PageTableCreateError::FrameAllocationFailed => MapOutcome::FrameAllocationFailed,
        PageTableCreateError::MappedToHugePage => MapOutcome::ParentEntryHugePage,
    }
}

/// Mapping the 4 KiB page at `va` to `frame` with `flags`, creating missing
/// tables with `pflags` from the frames `a4`, `a3`, `a2` that the allocator
/// hands out at each level where one is needed.
pub open spec fn spec_map_to(
    mem: Map<u64, Seq<u64>>,
    l4: u64,
    va: u64,
    frame: u64,
    flags: u64,
    pflags: u64,
    a4: Option<u64>,
    a3: Option<u64>,
    a2: Option<u64>,
) -> (Map<u64, Seq<u64>>, MapOutcome) {
    let (m1, r1) = spec_create_next(mem, l4, p4_of(va), pflags, a4);
    match r1 {
        Err(e) => (m1, create_failure(e)),
        Ok(f3) => {
            let (m2, r2) = spec_create_next(m1, f3, p3_of(va), pflags, a3);
            match r2 {
                Err(e) => (m2, create_failure(e)),
                Ok(f2) => {
                    let (m3, r3) = spec_create_next(m2, f2, p2_of(va), pflags, a2);
                    match r3 {
                        Err(e) => (m3, create_failure(e)),
                        Ok(f1) => {
                            let e1 = read_entry(m3, f1, p1_of(va));
                            if e1 != 0 {
                                (m3, MapOutcome::AlreadyMapped(entry_addr(e1)))
                            } else {
                                (write_entry(m3, f1, p1_of(va), frame | flags), MapOutcome::Mapped)
                            }
                        },
                    }
                },
            }
        },
    }
}

/// Supplies physical frames for new page tables.
pub trait FrameAllocator<S: PageSize> {
    fn allocate_frame(&mut self) -> Option<PhysFrame<S>>;
}

/// Takes back frames that are no longer used.
pub trait FrameDeallocator<S: PageSize> {
    fn deallocate_frame(&mut self, frame: PhysFrame<S>);
}

/// A page whose new translation the caller must flush from the TLB.
#[derive(Debug)]
#[must_use]
pub struct MapperFlush<S: PageSize>(Page<S>);

impl<S: PageSize> View for MapperFlush<S> {
    type V = u64;

    closed spec fn view(&self) -> u64 {
        self.0@
    }
}

impl<S: PageSize> MapperFlush<S> {
    pub fn new(page: Page<S>) -> (r: MapperFlush<S>)
        ensures
            r@ == page@,
    {
        MapperFlush(page)
    }

    /// The address whose TLB entry must be invalidated.
    pub fn flush(&self) -> (r: VirtAddr)
        ensures
            r@ == self@,
    {
        self.0.start_address()
    }
}

/// Why a mapping could not be installed.
#[derive(Debug)]
pub enum MapToError<S: PageSize> {
    /// A missing table could not be created: the allocator had no frame.
    FrameAllocationFailed,
    /// An entry on the way is a huge page and cannot be descended into.
    ParentEntryHugePage,
    /// The page is mapped already, to this frame.
    PageAlreadyMapped(PhysFrame<S>),
}

pub open spec fn map_outcome<S: PageSize>(r: Result<MapperFlush<S>, MapToError<S>>) -> MapOutcome {
    match r {
        Ok(_) => MapOutcome::Mapped,
        Err(MapToError::FrameAllocationFailed) => MapOutcome::FrameAllocationFailed,
        Err(MapToError::ParentEntryHugePage) => MapOutcome::ParentEntryHugePage,
        Err(MapToError::PageAlreadyMapped(f)) => MapOutcome::AlreadyMapped(f@),
    }
}

/// Page tables reached from a level-4 table, held in an arena keyed by the
/// physical frame of each table.
pub struct MappedPageTable {
    level_4_frame: PhysFrame<Size4KiB>,
    tables: HashMapWithView<u64, PageTable>,
}

impl MappedPageTable {
    pub closed spec fn level_4(&self) -> u64 {
        self.level_4_frame@
    }

    pub closed spec fn memory(&self) -> Map<u64, Seq<u64>> {
        self.tables@.map_values(|t: PageTable| t@)
    }

    pub open spec fn wf(&self) -> bool {
        tables_wf(self.memory())
    }

    /// An arena that holds no table yet, walked from `level_4_frame`.
    pub fn new(level_4_frame: PhysFrame<Size4KiB>) -> (r: MappedPageTable)
        ensures
            r.wf(),
            r.level_4() == level_4_frame@,
            r.memory() == Map::<u64, Seq<u64>>::empty(),
    {
        let r = MappedPageTable { level_4_frame, tables: HashMapWithView::new() };
        assert(r.memory() =~= Map::<u64, Seq<u64>>::empty());
        r
    }

    /// Places `table` in `frame`.
    pub fn insert_table(&mut self, frame: PhysFrame<Size4KiB>, table: PageTable)
        requires
            old(self).wf(),
            table.wf(),
        ensures
            final(self).wf(),
            final(self).level_4() == old(self).level_4(),
            final(self).memory() == old(self).memory().insert(frame@, table@),
    {
        let key = frame.start_address().as_u64();
        self.tables.insert(key, table);
        assert(self.memory() =~= old(self).memory().insert(frame@, table@));
    }

    /// The entry `index` of the table in frame `table`.
    pub fn entry_at(&self, table: u64, index: usize) -> (r: PageTableEntry)
        requires
            self.wf(),
            index < 512,
        ensures
            r@ == read_entry(self.memory(), table, index as u64),
    {
        match self.tables.get(&table) {
            Some(t) => {
                assert(self.memory().contains_key(table));
                assert(self.memory()[table] == t@);
                *t.entry(index)
            },
            None => PageTableEntry::new(),
        }
    }

    fn set_entry_at(&mut self, table: u64, index: usize, e: PageTableEntry)
        requires
            old(self).wf(),
            index < 512,
        ensures
            final(self).wf(),
            final(self).level_4() == old(self).level_4(),
            final(self).memory() == write_entry(old(self).memory(), table, index as u64, e@),
    {
        let mut t = match self.tables.remove(&table) {
            Some(t) => {
                assert(old(self).memory().contains_key(table));
                assert(old(self).memory()[table] == t@);
                t
            },
            None => PageTable::new(),
        };
        assert(t.wf());
        t.set_entry(index, e);
        self.tables.insert(table, t);
        assert(self.memory() =~= write_entry(old(self).memory(), table, index as u64, e@));
    }

    fn zero_table_at(&mut self, table: u64)
        requires
            old(self).wf(),
        ensures
            final(self).wf(),
            final(self).level_4() == old(self).level_4(),
            final(self).memory() == old(self).memory().insert(table, zero_table()),
    {
        let mut t = match self.tables.remove(&table) {
            Some(t) => {
                assert(old(self).memory().contains_key(table));
                assert(old(self).memory()[table] == t@);
                t
            },
            None => PageTable::new(),
        };
        t.zero();
        self.tables.insert(table, t);
        assert(self.memory() =~= old(self).memory().insert(table, zero_table()));
    }

    /// Installs a table for the next level in the unused entry `index` of
    /// table `table`, in the frame `frame` that an allocator handed out:
    /// no frame means the allocation failed and nothing changes; otherwise
    /// the entry points at the frame with `insert_flags` and the new table
    /// is zeroed, unless the flags make the entry a huge page.
    pub fn install_next_table(
        &mut self,
        table: u64,
        index: usize,
        insert_flags: PageTableFlags,
        frame: Option<PhysFrame<Size4KiB>>,
    ) -> (r: Result<u64, PageTableCreateError>)
        requires
            old(self).wf(),
            index < 512,
            read_entry(old(self).memory(), table, index as u64) == 0,
            frame.is_some() ==> entry_present(insert_flags@),
        ensures
            final(self).wf(),
            final(self).level_4() == old(self).level_4(),
            (final(self).memory(), r) == spec_create_next(
                old(self).memory(),
                table,
                index as u64,
                insert_flags@,
                frame_addr(frame),
            ),
    {
        proof {
            use_type_invariant(&insert_flags);
        }
        match frame {
            None => Err(PageTableCreateError::FrameAllocationFailed),
            Some(frame) => {
                proof {
                    use_type_invariant(&frame);
                    lemma_entry_compose(frame@, insert_flags@);
                }
                let mut new_e = PageTableEntry::new();
                new_e.set_frame(frame, insert_flags);
                self.set_entry_at(table, index, new_e);
                match new_e.frame() {
                    Ok(f) => {
                        let next = f.start_address().as_u64();
                        self.zero_table_at(next);
                        Ok(next)
                    },
                    Err(FrameError::HugeFrame) => Err(PageTableCreateError::MappedToHugePage),
                    Err(FrameError::FrameNotPresent) => {
                        proof {
                            assert(false);
                        }
                        Err(PageTableCreateError::MappedToHugePage)
                    },
                }
            },
        }
    }

    /// Entry `index` of table `table` leads to a table for the next level:
    /// for an unused entry the allocator is asked for a frame, once, and
    /// `install_next_table` puts a new table there; a used entry that is a
    /// huge page blocks the walk; another used entry has `insert_flags`
    /// merged into its flags, without asking the allocator. The result is
    /// the frame of the next table, and (for proofs) the frame the allocator
    /// handed out, `None` when it was not asked.
    fn create_next_table<A: FrameAllocator<Size4KiB>>(
        &mut self,
        table: u64,
        index: usize,
        insert_flags: PageTableFlags,
        allocator: &mut A,
    ) -> (r: (Result<u64, PageTableCreateError>, Ghost<Option<u64>>))
        requires
            old(self).wf(),
            index < 512,
            step_ok(old(self).memory(), table, index as u64, insert_flags@),
        ensures
            final(self).wf(),
            final(self).level_4() == old(self).level_4(),
            alloc_valid(r.1@),
            read_entry(old(self).memory(), table, index as u64) != 0 ==> r.1@.is_none(),
            (final(self).memory(), r.0) == spec_create_next(
                old(self).memory(),
                table,
                index as u64,
                insert_flags@,
                r.1@,
            ),
    {
        proof {
            use_type_invariant(&insert_flags);
        }
        let e = self.entry_at(table, index);
        proof {
            lemma_entry_merge(e@, insert_flags@);
        }
        if e.is_unused() {
            let frame = allocator.allocate_frame();
            proof {
                if let Some(f) = frame {
                    use_type_invariant(&f);
                }
            }
            let r = self.install_next_table(table, index, insert_flags, frame);
            return (r, Ghost(frame_addr(frame)));
        }
        if e.flags().bits() & PageTableFlags::HUGE_PAGE != 0 {
            return (Err(PageTableCreateError::MappedToHugePage), Ghost(None));
        }
        let mut new_e = e;
        if !insert_flags.is_empty() && !e.flags().contains(insert_flags) {
            new_e.set_flags(e.flags().union(insert_flags));
            self.set_entry_at(table, index, new_e);
        }
        let next = match new_e.frame() {
            Ok(frame) => frame.start_address().as_u64(),
            Err(FrameError::HugeFrame) => {
                return (Err(PageTableCreateError::MappedToHugePage), Ghost(None));
            },
            Err(FrameError::FrameNotPresent) => {
                proof {
                    assert(false);
                }
                return (Err(PageTableCreateError::MappedToHugePage), Ghost(None));
            },
        };
        (Ok(next), Ghost(None))
    }

    /// Maps the 4 KiB `page` to `frame` with `flags`; a missing table on the
    /// way is created with `parent_table_flags`. On success the caller must
    /// flush the returned page from the TLB.
    pub fn map_to_with_table_flags<A: FrameAllocator<Size4KiB>>(
        &mut self,
        page: Page<Size4KiB>,
        frame: PhysFrame<Size4KiB>,
        flags: PageTableFlags,
        parent_table_flags: PageTableFlags,
        allocator: &mut A,
    ) -> (r: Result<MapperFlush<Size4KiB>, MapToError<Size4KiB>>)
        requires
            old(self).wf(),
            map_walk_ok(old(self).memory(), old(self).level_4(), page@, parent_table_flags@),
        ensures
            final(self).wf(),
            final(self).level_4() == old(self).level_4(),
            r.is_ok() ==> r.unwrap()@ == page@,
            exists|a4: Option<u64>, a3: Option<u64>, a2: Option<u64>|
                alloc_valid(a4) && alloc_valid(a3) && alloc_valid(a2) && allocations_only_where_unused(
                    old(self).memory(),
                    old(self).level_4(),
                    page@,
                    parent_table_flags@,
                    a4,
                    a3,
                    a2,
                ) && spec_map_to(
                    old(self).memory(),
                    old(self).level_4(),
                    page@,
                    frame@,
                    flags@,
                    parent_table_flags@,
                    a4,
                    a3,
                    a2,
                ) == (final(self).memory(), map_outcome(r)),
    {
        let ghost mem0 = self.memory();
        let ghost l4 = self.level_4();
        proof {
            crate::addr::lemma_index_bounds(page@);
        }
        let l4_frame = self.level_4_frame.start_address().as_u64();
        let (r1, Ghost(a4)) = self.create_next_table(
            l4_frame,
            page.p4_index().as_usize(),
            parent_table_flags,
            allocator,
        );
        let p3 = match r1 {
            Ok(p3) => p3,
            Err(e) => {
                let r = Err(map_create_error(e));
                assert(alloc_valid(a4) && alloc_valid(None) && alloc_valid(None) && allocations_only_where_unused(mem0, l4, page@, parent_table_flags@, a4, None, None) && spec_map_to(
                mem0, l4, page@, frame@, flags@, parent_table_flags@, a4, None, None,
            ) == (self.memory(), map_outcome(r)));
                return r;
            },
        };
        let ghost m1 = self.memory();
        proof {
            if !entry_present(parent_table_flags@) {
                use_type_invariant(&parent_table_flags);
                lemma_merge_step(mem0, l4, p4_of(page@), parent_table_flags@, a4);
                assert(m1 == spec_create_next(mem0, l4, p4_of(page@), parent_table_flags@, a4).0);
                assert(p3 == entry_addr(read_entry(mem0, l4, p4_of(page@))));
                assert(entry_present(read_entry(mem0, p3, p3_of(page@))));
                assert(entry_present(read_entry(m1, p3, p3_of(page@))));
            }
        }
        let (r2, Ghost(a3)) = self.create_next_table(
            p3,
            page.p3_index().as_usize(),
            parent_table_flags,
            allocator,
        );
        let p2 = match r2 {
            Ok(p2) => p2,
            Err(e) => {
                let r = Err(map_create_error(e));
                assert(alloc_valid(a4) && alloc_valid(a3) && alloc_valid(None) && allocations_only_where_unused(mem0, l4, page@, parent_table_flags@, a4, a3, None) && spec_map_to(
                mem0, l4, page@, frame@, flags@, parent_table_flags@, a4, a3, None,
            ) == (self.memory(), map_outcome(r)));
                return r;
            },
        };
        proof {
            if !entry_present(parent_table_flags@) {
                lemma_merge_step(m1, p3, p3_of(page@), parent_table_flags@, a3);
                let m2 = self.memory();
                assert(m2 == spec_create_next(m1, p3, p3_of(page@), parent_table_flags@, a3).0);
                assert(p2 == entry_addr(read_entry(m1, p3, p3_of(page@))));
                assert(entry_addr(read_entry(m1, p3, p3_of(page@))) == entry_addr(
                    read_entry(mem0, p3, p3_of(page@)),
                ));
                assert(entry_present(read_entry(mem0, p2, p2_of(page@))));
                assert(entry_present(read_entry(m1, p2, p2_of(page@))));
                assert(entry_present(read_entry(m2, p2, p2_of(page@))));
            }
        }
        let (r3, Ghost(a2)) = self.create_next_table(
            p2,
            page.p2_index().as_usize(),
            parent_table_flags,
            allocator,
        );
        let p1 = match r3 {
            Ok(p1) => p1,
            Err(e) => {
                let r = Err(map_create_error(e));
                assert(alloc_valid(a4) && alloc_valid(a3) && alloc_valid(a2) && allocations_only_where_unused(mem0, l4, page@, parent_table_flags@, a4, a3, a2) && spec_map_to(
                mem0, l4, page@, frame@, flags@, parent_table_flags@, a4, a3, a2,
            ) == (self.memory(), map_outcome(r)));
                return r;
            },
        };
        let i1 = page.p1_index().as_usize();
        let existing = self.entry_at(p1, i1);
        if !existing.is_unused() {
            let f = PhysFrame::containing_address(existing.addr());
            proof {
                let ev = existing@;
                let a = entry_addr(ev);
                assert(a & !0xfffu64 == a) by (bit_vector)
                    requires
                        a == ev & 0x000f_ffff_ffff_f000u64,
                ;
            }
            let r = Err(MapToError::PageAlreadyMapped(f));
            assert(alloc_valid(a4) && alloc_valid(a3) && alloc_valid(a2) && allocations_only_where_unused(mem0, l4, page@, parent_table_flags@, a4, a3, a2) && spec_map_to(
                mem0, l4, page@, frame@, flags@, parent_table_flags@, a4, a3, a2,
            ) == (self.memory(), map_outcome(r)));
            return r;
        }
        let mut leaf = existing;
        leaf.set_frame(frame, flags);
        self.set_entry_at(p1, i1, leaf);
        let r = Ok(MapperFlush::new(page));
        assert(alloc_valid(a4) && alloc_valid(a3) && alloc_valid(a2) && allocations_only_where_unused(mem0, l4, page@, parent_table_flags@, a4, a3, a2) && spec_map_to(
                mem0, l4, page@, frame@, flags@, parent_table_flags@, a4, a3, a2,
            ) == (self.memory(), map_outcome(r)));
        r
    }
}

impl MappedPageTable {
    /// Walks the tables for `addr`: a huge-page entry at level 3 or 2 ends
    /// the walk with a 1 GiB or 2 MiB frame, otherwise the level-1 entry
    /// gives a 4 KiB frame.
    pub fn translate(&self, addr: VirtAddr) -> (r: TranslateResult)
        requires
            self.wf(),
            !level_4_huge(self.memory(), self.level_4(), addr@),
        ensures
            r@ == spec_translate(self.memory(), self.level_4(), addr@),
    {
        proof {
            crate::addr::lemma_index_bounds(addr@);
        }
        let l4 = self.level_4_frame.start_address().as_u64();
        let e4 = self.entry_at(l4, addr.p4_index().as_usize());
        let p3 = match e4.frame() {
            Ok(frame) => frame.start_address().as_u64(),
            Err(FrameError::FrameNotPresent) => return TranslateResult::NotMapped,
            Err(FrameError::HugeFrame) => {
                proof {
                    assert(false);
                }
                return TranslateResult::NotMapped;
            },
        };
        let e3 = self.entry_at(p3, addr.p3_index().as_usize());
        let p2 = match e3.frame() {
            Ok(frame) => frame.start_address().as_u64(),
            Err(FrameError::FrameNotPresent) => return TranslateResult::NotMapped,
            Err(FrameError::HugeFrame) => {
                let frame = PhysFrame::<Size1GiB>::containing_address(e3.addr());
                let offset = addr.as_u64() & 0o_777_777_7777;
                let flags = e3.flags();
                return TranslateResult::Mapped { frame: MappedFrame::Size1GiB(frame), offset, flags };
            },
        };
        let e2 = self.entry_at(p2, addr.p2_index().as_usize());
        let p1 = match e2.frame() {
            Ok(frame) => frame.start_address().as_u64(),
            Err(FrameError::FrameNotPresent) => return TranslateResult::NotMapped,
            Err(FrameError::HugeFrame) => {
                let frame = PhysFrame::<Size2MiB>::containing_address(e2.addr());
                let offset = addr.as_u64() & 0o_777_7777;
                let flags = e2.flags();
                return TranslateResult::Mapped { frame: MappedFrame::Size2MiB(frame), offset, flags };
            },
        };
        let e1 = self.entry_at(p1, addr.p1_index().as_usize());
        if e1.is_unused() {
            return TranslateResult::NotMapped;
        }
        let frame = match PhysFrame::<Size4KiB>::from_start_address(e1.addr()) {
            Ok(frame) => frame,
            Err(_) => return TranslateResult::InvalidFrameAddress(e1.addr()),
        };
        let offset = addr.page_offset().as_u64();
        let flags = e1.flags();
        TranslateResult::Mapped { frame: MappedFrame::Size4KiB(frame), offset, flags }
    }

    /// The physical address that `addr` translates to, if the walk ends in
    /// a frame.
    pub fn translate_addr(&self, addr: VirtAddr) -> (r: Option<PhysAddr>)
        requires
            self.wf(),
            !level_4_huge(self.memory(), self.level_4(), addr@),
        ensures
            r.is_some() == spec_translate_addr(self.memory(), self.level_4(), addr@).is_some(),
            r.is_some() ==> r.unwrap()@ == spec_translate_addr(
                self.memory(),
                self.level_4(),
                addr@,
            ).unwrap(),
    {
        match self.translate(addr) {
            TranslateResult::NotMapped | TranslateResult::InvalidFrameAddress(_) => None,
            TranslateResult::Mapped { frame, offset, .. } => {
                let start = match &frame {
                    MappedFrame::Size4KiB(f) => {
                        proof {
                            use_type_invariant(f);
                        }
                        f.start_address().as_u64()
                    },
                    MappedFrame::Size2MiB(f) => {
                        proof {
                            use_type_invariant(f);
                        }
                        f.start_address().as_u64()
                    },
                    MappedFrame::Size1GiB(f) => {
                        proof {
                            use_type_invariant(f);
                        }
                        f.start_address().as_u64()
                    },
                };
                proof {
                    lemma_frame_plus_offset(start, frame.spec_size(), offset, addr@);
                }
                Some(PhysAddr::new(start + offset))
            },
        }
    }

    /// Maps the 4 KiB `page` to `frame` with `flags`; a missing table on the
    /// way is created with the present, writable and user-accessible bits of
    /// `flags`. On success the caller must flush the returned page from the
    /// TLB.
    pub fn map_to<A: FrameAllocator<Size4KiB>>(
        &mut self,
        page: Page<Size4KiB>,
        frame: PhysFrame<Size4KiB>,
        flags: PageTableFlags,
        frame_allocator: &mut A,
    ) -> (r: Result<MapperFlush<Size4KiB>, MapToError<Size4KiB>>)
        requires
            old(self).wf(),
            map_walk_ok(old(self).memory(), old(self).level_4(), page@, parent_flags(flags@)),
        ensures
            final(self).wf(),
            final(self).level_4() == old(self).level_4(),
            r.is_ok() ==> r.unwrap()@ == page@,
            exists|a4: Option<u64>, a3: Option<u64>, a2: Option<u64>|
                alloc_valid(a4) && alloc_valid(a3) && alloc_valid(a2) && allocations_only_where_unused(
                    old(self).memory(),
                    old(self).level_4(),
                    page@,
                    parent_flags(flags@),
                    a4,
                    a3,
                    a2,
                ) && spec_map_to(
                    old(self).memory(),
                    old(self).level_4(),
                    page@,
                    frame@,
                    flags@,
                    parent_flags(flags@),
                    a4,
                    a3,
                    a2,
                ) == (final(self).memory(), map_outcome(r)),
    {
        let parent_table_flags = flags.intersection(
            PageTableFlags::from_bits_truncate(
                PageTableFlags::PRESENT | PageTableFlags::WRITABLE | PageTableFlags::USER_ACCESSIBLE,
            ),
        );
        proof {
            let f = flags@;
            assert(1u64 | 2u64 | 4u64 == 7u64) by (bit_vector);
            assert(f & (7u64 & 0xfff0_0000_0000_0fffu64) == f & 7) by (bit_vector);
            assert(f & 1 != 0 ==> (f & 7) & 1 != 0) by (bit_vector);
        }
        let ghost mem0 = self.memory();
        let r = self.map_to_with_table_flags(
            page,
            frame,
            flags,
            parent_table_flags,
            frame_allocator,
        );
        proof {
            assert(parent_table_flags@ == parent_flags(flags@));
            let (a4, a3, a2) = choose|a4: Option<u64>, a3: Option<u64>, a2: Option<u64>|
                alloc_valid(a4) && alloc_valid(a3) && alloc_valid(a2)
                    && allocations_only_where_unused(
                    mem0,
                    self.level_4(),
                    page@,
                    parent_table_flags@,
                    a4,
                    a3,
                    a2,
                ) && spec_map_to(
                    mem0,
                    self.level_4(),
                    page@,
                    frame@,
                    flags@,
                    parent_table_flags@,
                    a4,
                    a3,
                    a2,
                ) == (self.memory(), map_outcome(r));
            assert(alloc_valid(a4) && alloc_valid(a3) && alloc_valid(a2)
                && allocations_only_where_unused(
                mem0,
                self.level_4(),
                page@,
                parent_flags(flags@),
                a4,
                a3,
                a2,
            ) && spec_map_to(
                mem0,
                self.level_4(),
                page@,
                frame@,
                flags@,
                parent_flags(flags@),
                a4,
                a3,
                a2,
            ) == (self.memory(), map_outcome(r)));
        }
        r
    }
}

/// Flags given to the tables that a mapping creates: the present, writable
/// and user-accessible bits of the leaf flags.
pub open spec fn parent_flags(flags: u64) -> u64 {
    flags & 7
}

/// The physical address of a translation that ends in a frame.
pub open spec fn spec_translate_addr(mem: Map<u64, Seq<u64>>, l4: u64, va: u64) -> Option<u64> {
    match spec_translate(mem, l4, va) {
        Translation::Mapped { frame, offset, .. } => Some((frame + offset) as u64),
        _ => None,
    }
}

proof fn lemma_frame_plus_offset(start: u64, size: u64, offset: u64, va: u64)
    requires
        start % size == 0,
        start < PHYS_LIMIT,
        size == SIZE_4KIB && offset == va & 0xfff || size == SIZE_2MIB && offset == va & 0x1f_ffff
            || size == SIZE_1GIB && offset == va & 0x3fff_ffff,
    ensures
        start + offset < PHYS_LIMIT,
{
    assert(start + offset < 0x0010_0000_0000_0000u64) by (bit_vector)
        requires
            start < 0x0010_0000_0000_0000u64,
            start % 0x1000 == 0 && offset == va & 0xfff || start % 0x20_0000 == 0 && offset == va
                & 0x1f_ffff || start % 0x4000_0000 == 0 && offset == va & 0x3fff_ffff,
    ;
}

fn map_create_error(e: PageTableCreateError) -> (r: MapToError<Size4KiB>)
    ensures
        map_outcome::<Size4KiB>(Err(r)) == create_failure(e),
{
    match e {
        PageTableCreateError::MappedToHugePage => MapToError::ParentEntryHugePage,
        PageTableCreateError::FrameAllocationFailed => MapToError::FrameAllocationFailed,
    }
}

/// An entry made of a 4 KiB aligned frame address and flag bits gives both
/// back, and its present and huge bits are those of the flags.
pub proof fn lemma_entry_compose(a: u64, f: u64)
    requires
        a % 4096 == 0,
        a < PHYS_LIMIT,
        f & !FLAG_BITS == 0,
    ensures
        entry_addr(a | f) == a,
        entry_flags(a | f) == f,
        entry_present(a | f) == entry_present(f),
        entry_huge(a | f) == entry_huge(f),
        a | f != 0 <== entry_present(f),
{
    assert((a % 4096 == 0 && a < 0x0010_0000_0000_0000u64 && f & !0xfff0_0000_0000_0fffu64 == 0)
        ==> ((a | f) & 0x000f_ffff_ffff_f000u64 == a && (a | f) & 0xfff0_0000_0000_0fffu64 == f
        && (((a | f) & 1 != 0) == (f & 1 != 0)) && (((a | f) & 0x80 != 0) == (f & 0x80 != 0)) && (f
        & 1 != 0 ==> a | f != 0))) by (bit_vector);
}

/// Merging flag bits into an entry keeps its frame address, and the merged
/// entry is present when the flags or the entry were.
pub proof fn lemma_entry_merge(e: u64, f: u64)
    requires
        f & !FLAG_BITS == 0,
    ensures
        entry_addr(entry_addr(e) | (entry_flags(e) | f)) == entry_addr(e),
        entry_present(entry_addr(e) | (entry_flags(e) | f)) == (entry_present(e) || entry_present(
            f,
        )),
        entry_huge(entry_addr(e) | (entry_flags(e) | f)) == (entry_huge(e) || entry_huge(f)),
        entry_flags(entry_addr(e) | (entry_flags(e) | f)) == entry_flags(e) | f,
        entry_flags(e) & f == f && entry_present(f) ==> entry_present(e),
        entry_present(f) ==> f != 0,
        !entry_present(0),
        entry_flags(e) & f == f && entry_huge(f) ==> entry_huge(e),
        entry_flags(e) & 0 == 0,
        (entry_flags(e) & PageTableFlags::HUGE_PAGE != 0) == entry_huge(e),
        !entry_huge(parent_flags(f)),
        parent_flags(f) & !FLAG_BITS == 0,
{
    assert(f & !0xfff0_0000_0000_0fffu64 == 0 ==> {
        let m = (e & 0x000f_ffff_ffff_f000u64) | ((e & 0xfff0_0000_0000_0fffu64) | f);
        &&& m & 0x000f_ffff_ffff_f000u64 == e & 0x000f_ffff_ffff_f000u64
        &&& (m & 1 != 0) == (e & 1 != 0 || f & 1 != 0)
        &&& (m & 0x80 != 0) == (e & 0x80 != 0 || f & 0x80 != 0)
        &&& m & 0xfff0_0000_0000_0fffu64 == (e & 0xfff0_0000_0000_0fffu64) | f
        &&& ((e & 0xfff0_0000_0000_0fffu64) & f == f && f & 1 != 0) ==> e & 1 != 0
        &&& f & 1 != 0 ==> f != 0
        &&& 0u64 & 1 == 0
        &&& (e & 0xfff0_0000_0000_0fffu64) & 0 == 0
        &&& (((e & 0xfff0_0000_0000_0fffu64) & 0x80u64 != 0) == (e & 0x80 != 0))
        &&& (f & 7) & 0x80 == 0
        &&& (f & 7) & !0xfff0_0000_0000_0fffu64 == 0
        &&& ((e & 0xfff0_0000_0000_0fffu64) & f == f && f & 0x80 != 0) ==> e & 0x80 != 0
    }) by (bit_vector);
}

} // verus!

verus! {

proof fn lemma_read_write(mem: Map<u64, Seq<u64>>, t: u64, i: u64, e: u64)
    requires
        tables_wf(mem),
        i < 512,
    ensures
        tables_wf(write_entry(mem, t, i, e)),
        forall|t2: u64, i2: u64|
            i2 < 512 ==> #[trigger] read_entry(write_entry(mem, t, i, e), t2, i2) == if t2 == t
                && i2 == i {
                e
            } else {
                read_entry(mem, t2, i2)
            },
{
    let m = write_entry(mem, t, i, e);
    assert forall|t2: u64| m.contains_key(t2) implies (#[trigger] m[t2]).len() == 512 by {
        if t2 != t {
            assert(mem.contains_key(t2));
        }
    }
}

proof fn lemma_read_zero(mem: Map<u64, Seq<u64>>, t: u64)
    requires
        tables_wf(mem),
    ensures
        tables_wf(mem.insert(t, zero_table())),
        forall|t2: u64, i2: u64|
            i2 < 512 ==> #[trigger] read_entry(mem.insert(t, zero_table()), t2, i2) == if t2
                == t {
                0
            } else {
                read_entry(mem, t2, i2)
            },
{
    let m = mem.insert(t, zero_table());
    assert forall|t2: u64| m.contains_key(t2) implies (#[trigger] m[t2]).len() == 512 by {
        if t2 != t {
            assert(mem.contains_key(t2));
        }
    }
}

/// What a creation step that succeeds leaves behind: the entry leads to the
/// returned table, present and not huge; an entry that was used keeps its
/// frame and nothing else changes; otherwise only the stepped table and the
/// new table change.
proof fn lemma_create_next_ok(
    mem: Map<u64, Seq<u64>>,
    t: u64,
    i: u64,
    pf: u64,
    a: Option<u64>,
)
    requires
        tables_wf(mem),
        i < 512,
        pf & !FLAG_BITS == 0,
        entry_present(pf) || entry_present(read_entry(mem, t, i)),
        alloc_valid(a),
        spec_create_next(mem, t, i, pf, a).1.is_ok(),
        spec_create_next(mem, t, i, pf, a).1.unwrap() != t,
    ensures
        tables_wf(spec_create_next(mem, t, i, pf, a).0),
        entry_present(read_entry(spec_create_next(mem, t, i, pf, a).0, t, i)),
        !entry_huge(read_entry(spec_create_next(mem, t, i, pf, a).0, t, i)),
        entry_addr(read_entry(spec_create_next(mem, t, i, pf, a).0, t, i)) == spec_create_next(
            mem,
            t,
            i,
            pf,
            a,
        ).1.unwrap(),
        forall|t2: u64, i2: u64|
            i2 < 512 && t2 != t && t2 != spec_create_next(mem, t, i, pf, a).1.unwrap()
                ==> #[trigger] read_entry(spec_create_next(mem, t, i, pf, a).0, t2, i2)
                == read_entry(mem, t2, i2),
        read_entry(mem, t, i) != 0 ==> spec_create_next(mem, t, i, pf, a).1.unwrap()
            == entry_addr(read_entry(mem, t, i)),
        read_entry(mem, t, i) != 0 ==> forall|t2: u64, i2: u64|
            i2 < 512 && !(t2 == t && i2 == i) ==> #[trigger] read_entry(
                spec_create_next(mem, t, i, pf, a).0,
                t2,
                i2,
            ) == read_entry(mem, t2, i2),
        read_entry(mem, t, i) != 0 ==> entry_flags(
            read_entry(spec_create_next(mem, t, i, pf, a).0, t, i),
        ) == entry_flags(read_entry(mem, t, i)) | pf,
{
    let e = read_entry(mem, t, i);
    if e == 0 {
        assert(0u64 & 1 == 0) by (bit_vector);
        let x = a.unwrap();
        lemma_entry_compose(x, pf);
        lemma_read_write(mem, t, i, x | pf);
        let m1 = write_entry(mem, t, i, x | pf);
        lemma_read_zero(m1, x);
        let m2 = m1.insert(x, zero_table());
        assert(read_entry(m2, t, i) == x | pf);
        assert(tables_wf(m2));
    } else {
        lemma_entry_merge(e, pf);
        let ef = entry_flags(e);
        let merge = pf != 0 && ef & pf != pf;
        if merge {
            lemma_read_write(mem, t, i, entry_addr(e) | (entry_flags(e) | pf));
        } else {
            assert(ef | pf == ef) by (bit_vector)
                requires
                    !(pf != 0 && ef & pf != pf),
            ;
        }
    }
}

/// A creation step with table flags that are not present, at a present
/// entry, only merges flags into that entry: every entry keeps its present
/// bit and frame address, and its huge-page bit unless the flags add one.
proof fn lemma_merge_step(mem: Map<u64, Seq<u64>>, t: u64, i: u64, pf: u64, a: Option<u64>)
    requires
        tables_wf(mem),
        i < 512,
        pf & !FLAG_BITS == 0,
        !entry_present(pf),
        entry_present(read_entry(mem, t, i)),
    ensures
        spec_create_next(mem, t, i, pf, a).1.is_ok() ==> !entry_huge(pf) && !entry_huge(
            read_entry(mem, t, i),
        ) && spec_create_next(mem, t, i, pf, a).1.unwrap() == entry_addr(read_entry(mem, t, i)),
        forall|t2: u64, i2: u64|
            i2 < 512 ==> {
                let x = #[trigger] read_entry(spec_create_next(mem, t, i, pf, a).0, t2, i2);
                let y = read_entry(mem, t2, i2);
                &&& entry_present(x) == entry_present(y)
                &&& entry_addr(x) == entry_addr(y)
                &&& !entry_huge(pf) ==> entry_huge(x) == entry_huge(y)
            },
{
    let e = read_entry(mem, t, i);
    lemma_entry_merge(e, pf);
    let ef = entry_flags(e);
    let merge = pf != 0 && ef & pf != pf;
    if merge {
        lemma_read_write(mem, t, i, entry_addr(e) | (entry_flags(e) | pf));
    }
}

/// A used, present, non-huge entry is walked through whatever the allocator
/// would hand out, when the merged flags hold no huge-page bit.
proof fn lemma_create_next_used(
    mem: Map<u64, Seq<u64>>,
    t: u64,
    i: u64,
    pf: u64,
    a: Option<u64>,
)
    requires
        tables_wf(mem),
        i < 512,
        pf & !FLAG_BITS == 0,
        !entry_huge(pf),
        entry_present(read_entry(mem, t, i)),
        !entry_huge(read_entry(mem, t, i)),
    ensures
        read_entry(mem, t, i) != 0,
        spec_create_next(mem, t, i, pf, a).1 == Ok::<u64, PageTableCreateError>(
            entry_addr(read_entry(mem, t, i)),
        ),
{
    let e = read_entry(mem, t, i);
    lemma_entry_merge(e, pf);
    assert(entry_present(e) ==> e != 0) by (bit_vector);
}

/// The allocator is asked for a frame only at a level whose entry is
/// unused when the walk reaches it: at every other level no frame is taken.
pub open spec fn allocations_only_where_unused(
    mem: Map<u64, Seq<u64>>,
    l4: u64,
    va: u64,
    pflags: u64,
    a4: Option<u64>,
    a3: Option<u64>,
    a2: Option<u64>,
) -> bool {
    let (m1, r1) = spec_create_next(mem, l4, p4_of(va), pflags, a4);
    let (m2, r2) = spec_create_next(m1, r1.unwrap(), p3_of(va), pflags, a3);
    &&& read_entry(mem, l4, p4_of(va)) != 0 ==> a4.is_none()
    &&& (r1.is_err() || read_entry(m1, r1.unwrap(), p3_of(va)) != 0) ==> a3.is_none()
    &&& (r1.is_err() || r2.is_err() || read_entry(m2, r2.unwrap(), p2_of(va)) != 0) ==> a2.is_none()
}

/// The tables that a mapping walks through: the level-4 table, then the
/// table each creation step leads to.
pub open spec fn map_tables(
    mem: Map<u64, Seq<u64>>,
    l4: u64,
    va: u64,
    pflags: u64,
    a4: Option<u64>,
    a3: Option<u64>,
    a2: Option<u64>,
) -> Seq<u64> {
    let (m1, r1) = spec_create_next(mem, l4, p4_of(va), pflags, a4);
    let (m2, r2) = spec_create_next(m1, r1.unwrap(), p3_of(va), pflags, a3);
    let (m3, r3) = spec_create_next(m2, r2.unwrap(), p2_of(va), pflags, a2);
    seq![l4, r1.unwrap(), r2.unwrap(), r3.unwrap()]
}

/// The four tables of a walk are four different frames: no table is
/// reached twice, and the allocator hands out no frame that is already one
/// of them.
pub open spec fn tables_distinct(s: Seq<u64>) -> bool {
    forall|j: int, k: int| 0 <= j < k < s.len() ==> s[j] != s[k]
}

/// After a mapping succeeds, translating the start of the page yields the
/// mapped 4 KiB frame at offset zero with the leaf flags, provided the walk
/// went through four different tables.
pub proof fn lemma_map_to_then_translate(
    mem: Map<u64, Seq<u64>>,
    l4: u64,
    va: u64,
    frame: u64,
    flags: u64,
    pflags: u64,
    a4: Option<u64>,
    a3: Option<u64>,
    a2: Option<u64>,
)
    requires
        tables_wf(mem),
        va % 4096 == 0,
        frame % 4096 == 0,
        frame < PHYS_LIMIT,
        flags & !FLAG_BITS == 0,
        frame | flags != 0,
        pflags & !FLAG_BITS == 0,
        map_walk_ok(mem, l4, va, pflags),
        alloc_valid(a4),
        alloc_valid(a3),
        alloc_valid(a2),
        spec_map_to(mem, l4, va, frame, flags, pflags, a4, a3, a2).1 == MapOutcome::Mapped,
        tables_distinct(map_tables(mem, l4, va, pflags, a4, a3, a2)),
    ensures
        spec_translate(spec_map_to(mem, l4, va, frame, flags, pflags, a4, a3, a2).0, l4, va)
            == (Translation::Mapped { size: SIZE_4KIB, frame, offset: 0, flags }),
{
    crate::addr::lemma_index_bounds(va);
    let (i4, i3, i2, i1) = (p4_of(va), p3_of(va), p2_of(va), p1_of(va));
    let (m1, r1) = spec_create_next(mem, l4, i4, pflags, a4);
    let f3 = r1.unwrap();
    let (m2, r2) = spec_create_next(m1, f3, i3, pflags, a3);
    let f2 = r2.unwrap();
    let (m3, r3) = spec_create_next(m2, f2, i2, pflags, a2);
    let f1 = r3.unwrap();
    let s = map_tables(mem, l4, va, pflags, a4, a3, a2);
    assert(s[0] == l4 && s[1] == f3 && s[2] == f2 && s[3] == f1);
    assert(l4 != f3 && l4 != f2 && l4 != f1 && f3 != f2 && f3 != f1 && f2 != f1);
    if !entry_present(pflags) {
        lemma_merge_step(mem, l4, i4, pflags, a4);
        assert(entry_present(read_entry(m1, f3, i3)));
        lemma_merge_step(m1, f3, i3, pflags, a3);
        assert(entry_present(read_entry(m2, f2, i2)));
    }
    lemma_create_next_ok(mem, l4, i4, pflags, a4);
    lemma_create_next_ok(m1, f3, i3, pflags, a3);
    lemma_create_next_ok(m2, f2, i2, pflags, a2);
    lemma_read_write(m3, f1, i1, frame | flags);
    lemma_entry_compose(frame, flags);
    let m4 = write_entry(m3, f1, i1, frame | flags);
    assert(read_entry(m4, l4, i4) == read_entry(m1, l4, i4));
    assert(read_entry(m4, f3, i3) == read_entry(m2, f3, i3));
    assert(read_entry(m4, f2, i2) == read_entry(m3, f2, i2));
    assert(read_entry(m4, f1, i1) == frame | flags);
    assert(offset_of(va) == 0) by (bit_vector)
        requires
            va % 4096 == 0,
    ;
}

/// Mapping, as `map_to` does, a page that is mapped already fails with the
/// frame it is mapped to and leaves its translation as it was.
pub proof fn lemma_map_twice_keeps_first(
    mem: Map<u64, Seq<u64>>,
    l4: u64,
    va: u64,
    frame: u64,
    flags: u64,
    pflags: u64,
    a4: Option<u64>,
    a3: Option<u64>,
    a2: Option<u64>,
    frame2: u64,
    flags2: u64,
    b4: Option<u64>,
    b3: Option<u64>,
    b2: Option<u64>,
)
    requires
        tables_wf(mem),
        va % 4096 == 0,
        frame % 4096 == 0,
        frame < PHYS_LIMIT,
        flags & !FLAG_BITS == 0,
        frame | flags != 0,
        pflags & !FLAG_BITS == 0,
        map_walk_ok(mem, l4, va, pflags),
        alloc_valid(a4),
        alloc_valid(a3),
        alloc_valid(a2),
        spec_map_to(mem, l4, va, frame, flags, pflags, a4, a3, a2).1 == MapOutcome::Mapped,
        tables_distinct(map_tables(mem, l4, va, pflags, a4, a3, a2)),
        flags2 & !FLAG_BITS == 0,
        alloc_valid(b4),
        alloc_valid(b3),
        alloc_valid(b2),
    ensures
        ({
            let m1 = spec_map_to(mem, l4, va, frame, flags, pflags, a4, a3, a2).0;
            let (m2, out) = spec_map_to(m1, l4, va, frame2, flags2, parent_flags(flags2), b4, b3, b2);
            &&& out == MapOutcome::AlreadyMapped(frame)
            &&& spec_translate(m2, l4, va) == spec_translate(m1, l4, va)
        }),
{
    crate::addr::lemma_index_bounds(va);
    let pflags2 = parent_flags(flags2);
    lemma_entry_merge(0, flags2);
    lemma_map_to_then_translate(mem, l4, va, frame, flags, pflags, a4, a3, a2);
    let (i4, i3, i2, i1) = (p4_of(va), p3_of(va), p2_of(va), p1_of(va));
    let (m1, r1) = spec_create_next(mem, l4, i4, pflags, a4);
    let f3 = r1.unwrap();
    let (m2, r2) = spec_create_next(m1, f3, i3, pflags, a3);
    let f2 = r2.unwrap();
    let (m3, r3) = spec_create_next(m2, f2, i2, pflags, a2);
    let f1 = r3.unwrap();
    let s = map_tables(mem, l4, va, pflags, a4, a3, a2);
    assert(s[0] == l4 && s[1] == f3 && s[2] == f2 && s[3] == f1);
    if !entry_present(pflags) {
        lemma_merge_step(mem, l4, i4, pflags, a4);
        assert(entry_present(read_entry(m1, f3, i3)));
        lemma_merge_step(m1, f3, i3, pflags, a3);
        assert(entry_present(read_entry(m2, f2, i2)));
    }
    lemma_create_next_ok(mem, l4, i4, pflags, a4);
    lemma_create_next_ok(m1, f3, i3, pflags, a3);
    lemma_create_next_ok(m2, f2, i2, pflags, a2);
    lemma_read_write(m3, f1, i1, frame | flags);
    lemma_entry_compose(frame, flags);
    let n0 = write_entry(m3, f1, i1, frame | flags);
    assert(read_entry(n0, l4, i4) == read_entry(m1, l4, i4));
    assert(read_entry(n0, f3, i3) == read_entry(m2, f3, i3));
    assert(read_entry(n0, f2, i2) == read_entry(m3, f2, i2));
    assert(read_entry(n0, f1, i1) == frame | flags);
    lemma_create_next_used(n0, l4, i4, pflags2, b4);
    lemma_create_next_ok(n0, l4, i4, pflags2, b4);
    let (n1, q1) = spec_create_next(n0, l4, i4, pflags2, b4);
    assert(q1.unwrap() == f3);
    assert(read_entry(n1, f3, i3) == read_entry(n0, f3, i3));
    assert(read_entry(n1, f2, i2) == read_entry(n0, f2, i2));
    assert(read_entry(n1, f1, i1) == read_entry(n0, f1, i1));
    lemma_create_next_used(n1, f3, i3, pflags2, b3);
    lemma_create_next_ok(n1, f3, i3, pflags2, b3);
    let (n2, q2) = spec_create_next(n1, f3, i3, pflags2, b3);
    assert(q2.unwrap() == f2);
    assert(read_entry(n2, l4, i4) == read_entry(n1, l4, i4));
    assert(read_entry(n2, f2, i2) == read_entry(n1, f2, i2));
    assert(read_entry(n2, f1, i1) == read_entry(n1, f1, i1));
    lemma_create_next_used(n2, f2, i2, pflags2, b2);
    lemma_create_next_ok(n2, f2, i2, pflags2, b2);
    let (n3, q3) = spec_create_next(n2, f2, i2, pflags2, b2);
    assert(q3.unwrap() == f1);
    assert(read_entry(n3, f1, i1) == frame | flags);
    assert(read_entry(n3, l4, i4) == read_entry(n1, l4, i4));
    assert(read_entry(n3, f3, i3) == read_entry(n2, f3, i3));
}

/// A present level-2 entry with the huge-page bit set that points at the
/// 2 MiB frame `F` translates every address of its 2 MiB span to `F` plus
/// the address's distance from the span's start.
pub proof fn lemma_huge_2mib_translation(mem: Map<u64, Seq<u64>>, l4: u64, base: u64, va: u64)
    requires
        base % SIZE_2MIB == 0,
        base <= va < base + SIZE_2MIB,
        entry_present(read_entry(mem, l4, p4_of(base))),
        !entry_huge(read_entry(mem, l4, p4_of(base))),
        entry_present(read_entry(mem, entry_addr(read_entry(mem, l4, p4_of(base))), p3_of(base))),
        !entry_huge(read_entry(mem, entry_addr(read_entry(mem, l4, p4_of(base))), p3_of(base))),
        entry_present(
            read_entry(
                mem,
                entry_addr(
                    read_entry(mem, entry_addr(read_entry(mem, l4, p4_of(base))), p3_of(base)),
                ),
                p2_of(base),
            ),
        ),
        entry_huge(
            read_entry(
                mem,
                entry_addr(
                    read_entry(mem, entry_addr(read_entry(mem, l4, p4_of(base))), p3_of(base)),
                ),
                p2_of(base),
            ),
        ),
        entry_addr(
            read_entry(
                mem,
                entry_addr(
                    read_entry(mem, entry_addr(read_entry(mem, l4, p4_of(base))), p3_of(base)),
                ),
                p2_of(base),
            ),
        ) % SIZE_2MIB == 0,
    ensures
        ({
            let e2 = read_entry(
                mem,
                entry_addr(
                    read_entry(mem, entry_addr(read_entry(mem, l4, p4_of(base))), p3_of(base)),
                ),
                p2_of(base),
            );
            &&& spec_translate(mem, l4, va) == Translation::Mapped {
                size: SIZE_2MIB,
                frame: entry_addr(e2),
                offset: (va - base) as u64,
                flags: entry_flags(e2),
            }
            &&& spec_translate_addr(mem, l4, va) == Some((entry_addr(e2) + (va - base)) as u64)
        }),
{
    let d = (va - base) as u64;
    assert(p4_of(va) == p4_of(base) && p3_of(va) == p3_of(base) && p2_of(va) == p2_of(base) && va
        & 0x1f_ffff == d) by (bit_vector)
        requires
            d == (va - base) as u64,
            base % 0x20_0000 == 0,
            base <= va,
            va < base + 0x20_0000,
    ;
    let e2 = read_entry(
        mem,
        entry_addr(read_entry(mem, entry_addr(read_entry(mem, l4, p4_of(base))), p3_of(base))),
        p2_of(base),
    );
    crate::page::lemma_size_alignment(SIZE_2MIB, entry_addr(e2));
}

} // verus!

verus! {

/// Page tables of a system that maps all physical memory at a fixed
/// virtual offset: the table in frame `f` is read at `phys_offset + f`.
pub struct OffsetPageTable {
    inner: MappedPageTable,
    phys_offset: VirtAddr,
}

impl OffsetPageTable {
    pub closed spec fn spec_inner(&self) -> MappedPageTable {
        self.inner
    }

    pub closed spec fn spec_phys_offset(&self) -> u64 {
        self.phys_offset@
    }

    /// The tables in `inner`, with physical memory mapped at `phys_offset`.
    pub fn new(inner: MappedPageTable, phys_offset: VirtAddr) -> (r: OffsetPageTable)
        ensures
            r.spec_inner() == inner,
            r.spec_phys_offset() == phys_offset@,
    {
        OffsetPageTable { inner, phys_offset }
    }

    /// The tables.
    pub fn inner(&self) -> (r: &MappedPageTable)
        ensures
            *r == self.spec_inner(),
    {
        &self.inner
    }

    /// The virtual address at which the table in `frame` is visible.
    pub fn frame_to_virt(&self, frame: PhysFrame<Size4KiB>) -> (r: VirtAddr)
        requires
            self.spec_phys_offset() + frame@ <= u64::MAX,
            is_canonical((self.spec_phys_offset() + frame@) as u64),
        ensures
            r@ == self.spec_phys_offset() + frame@,
    {
        VirtAddr::new(self.phys_offset.as_u64() + frame.start_address().as_u64())
    }

    /// See `MappedPageTable::translate`.
    pub fn translate(&self, addr: VirtAddr) -> (r: TranslateResult)
        requires
            self.spec_inner().wf(),
            !level_4_huge(self.spec_inner().memory(), self.spec_inner().level_4(), addr@),
        ensures
            r@ == spec_translate(self.spec_inner().memory(), self.spec_inner().level_4(), addr@),
    {
        self.inner.translate(addr)
    }

    /// See `MappedPageTable::translate_addr`.
    pub fn translate_addr(&self, addr: VirtAddr) -> (r: Option<PhysAddr>)
        requires
            self.spec_inner().wf(),
            !level_4_huge(self.spec_inner().memory(), self.spec_inner().level_4(), addr@),
        ensures
            r.is_some() == spec_translate_addr(
                self.spec_inner().memory(),
                self.spec_inner().level_4(),
                addr@,
            ).is_some(),
            r.is_some() ==> r.unwrap()@ == spec_translate_addr(
                self.spec_inner().memory(),
                self.spec_inner().level_4(),
                addr@,
            ).unwrap(),
    {
        self.inner.translate_addr(addr)
    }

    /// See `MappedPageTable::map_to`.
    pub fn map_to<A: FrameAllocator<Size4KiB>>(
        &mut self,
        page: Page<Size4KiB>,
        frame: PhysFrame<Size4KiB>,
        flags: PageTableFlags,
        frame_allocator: &mut A,
    ) -> (r: Result<MapperFlush<Size4KiB>, MapToError<Size4KiB>>)
        requires
            old(self).spec_inner().wf(),
            map_walk_ok(
                old(self).spec_inner().memory(),
                old(self).spec_inner().level_4(),
                page@,
                parent_flags(flags@),
            ),
        ensures
            final(self).spec_inner().wf(),
            final(self).spec_phys_offset() == old(self).spec_phys_offset(),
            final(self).spec_inner().level_4() == old(self).spec_inner().level_4(),
            r.is_ok() ==> r.unwrap()@ == page@,
            exists|a4: Option<u64>, a3: Option<u64>, a2: Option<u64>|
                alloc_valid(a4) && alloc_valid(a3) && alloc_valid(a2) && allocations_only_where_unused(
                    old(self).spec_inner().memory(),
                    old(self).spec_inner().level_4(),
                    page@,
                    parent_flags(flags@),
                    a4,
                    a3,
                    a2,
                ) && spec_map_to(
                    old(self).spec_inner().memory(),
                    old(self).spec_inner().level_4(),
                    page@,
                    frame@,
                    flags@,
                    parent_flags(flags@),
                    a4,
                    a3,
                    a2,
                ) == (final(self).spec_inner().memory(), map_outcome(r)),
    {
        self.inner.map_to(page, frame, flags, frame_allocator)
    }

    /// See `MappedPageTable::map_to_with_table_flags`.
    pub fn map_to_with_table_flags<A: FrameAllocator<Size4KiB>>(
        &mut self,
        page: Page<Size4KiB>,
        frame: PhysFrame<Size4KiB>,
        flags: PageTableFlags,
        parent_table_flags: PageTableFlags,
        allocator: &mut A,
    ) -> (r: Result<MapperFlush<Size4KiB>, MapToError<Size4KiB>>)
        requires
            old(self).spec_inner().wf(),
            map_walk_ok(
                old(self).spec_inner().memory(),
                old(self).spec_inner().level_4(),
                page@,
                parent_table_flags@,
            ),
        ensures
            final(self).spec_inner().wf(),
            final(self).spec_phys_offset() == old(self).spec_phys_offset(),
            final(self).spec_inner().level_4() == old(self).spec_inner().level_4(),
            r.is_ok() ==> r.unwrap()@ == page@,
            exists|a4: Option<u64>, a3: Option<u64>, a2: Option<u64>|
                alloc_valid(a4) && alloc_valid(a3) && alloc_valid(a2) && allocations_only_where_unused(
                    old(self).spec_inner().memory(),
                    old(self).spec_inner().level_4(),
                    page@,
                    parent_table_flags@,
                    a4,
                    a3,
                    a2,
                ) && spec_map_to(
                    old(self).spec_inner().memory(),
                    old(self).spec_inner().level_4(),
                    page@,
                    frame@,
                    flags@,
                    parent_table_flags@,
                    a4,
                    a3,
                    a2,
                ) == (final(self).spec_inner().memory(), map_outcome(r)),
    {
        self.inner.map_to_with_table_flags(page, frame, flags, parent_table_flags, allocator)
    }
}

} // verus!
