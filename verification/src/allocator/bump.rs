use vstd::prelude::*;
use vstd::arithmetic::power2::is_pow2;
use crate::allocator::util::{align_up, is_aligned, is_power_of_two, lemma_align_up, spec_align_up};

verus! {

/// The size and alignment of a block of memory. The alignment is a power of
/// two.
#[derive(Debug, Copy, Clone, PartialEq, Eq)]
pub struct Layout {
    size: usize,
    align: usize,
}

impl Layout {
    #[verifier::type_invariant]
    spec fn inv(self) -> bool {
        self.wf()
    }

    /// The alignment is a power of two.
    pub open spec fn wf(self) -> bool {
        is_pow2(self.align() as int)
    }

    /// The number of bytes.
    pub closed spec fn spec_size(&self) -> usize {
        self.size
    }

    /// The alignment in bytes.
    pub closed spec fn spec_align(&self) -> usize {
        self.align
    }

    /// The layout of a block of `size` bytes aligned to `align`, if `align`
    /// is a power of two.
    pub fn from_size_align(size: usize, align: usize) -> (layout: Option<Layout>)
        ensures
            layout is Some <==> is_pow2(align as int),
            layout matches Some(l) ==> l.size() == size && l.align() == align && l.wf(),
    {
        if is_power_of_two(align) {
            Some(Layout { size, align })
        } else {
            None
        }
    }

    /// The number of bytes.
    #[verifier::when_used_as_spec(spec_size)]
    pub fn size(&self) -> (size: usize)
        ensures
            size == self.spec_size(),
    {
        self.size
    }

    /// The alignment in bytes.
    #[verifier::when_used_as_spec(spec_align)]
    pub fn align(&self) -> (align: usize)
        ensures
            align == self.spec_align(),
    {
        self.align
    }
}

/// Why an allocation failed.
#[derive(Debug, Copy, Clone, PartialEq, Eq)]
pub enum AllocErr {
    /// The region has no room left for `request`.
    Exhausted { request: Layout },
    /// The allocator does not serve requests of this kind.
    Unsupported { details: &'static str },
}

/// A "bump" allocator: allocates memory by bumping a pointer; never frees.
#[derive(Debug)]
pub struct Allocator {
    current: usize,
    end: usize,
}

/// What a bump allocator is: the first address not handed out, and the end
/// of its region.
pub struct Region {
    pub current: usize,
    pub end: usize,
}

impl Region {
    /// The address at which a block aligned to `align` would be placed: the
    /// first multiple of `align` at or above `current`.
    pub open spec fn placed(self, align: usize) -> int {
        spec_align_up(self.current as int, align as int)
    }

    /// A block of `size` bytes aligned to `align` has room in what is left of
    /// the region.
    pub open spec fn fits(self, size: usize, align: usize) -> bool {
        self.placed(align) + size <= self.end
    }

    /// The region once a block of `size` bytes aligned to `align` has been
    /// taken from it: `current` is the end of the block.
    pub open spec fn taken(self, size: usize, align: usize) -> Region {
        Region { current: (self.placed(align) + size) as usize, end: self.end }
    }

    /// The answer to a request for `layout`.
    pub open spec fn outcome(self, layout: Layout) -> Result<usize, AllocErr> {
        if layout.size() == 0 {
            Err(AllocErr::Unsupported { details: "zero sized allocation" })
        } else if self.fits(layout.size(), layout.align()) {
            Ok(self.placed(layout.align()) as usize)
        } else {
            Err(AllocErr::Exhausted { request: layout })
        }
    }

    /// The region after a request for `layout`: a block that is handed out is
    /// taken from it, a refusal changes nothing.
    pub open spec fn after(self, layout: Layout) -> Region {
        if layout.size() != 0 && self.fits(layout.size(), layout.align()) {
            self.taken(layout.size(), layout.align())
        } else {
            self
        }
    }

    /// The region after the requests `layouts`, served in order.
    pub open spec fn after_all(self, layouts: Seq<Layout>) -> Region
        decreases layouts.len(),
    {
        if layouts.len() == 0 {
            self
        } else {
            self.after_all(layouts.drop_last()).after(layouts.last())
        }
    }

    /// The answer to request `i` of `layouts`, after those before it.
    pub open spec fn answer(self, layouts: Seq<Layout>, i: int) -> Result<usize, AllocErr> {
        self.after_all(layouts.take(i)).outcome(layouts[i])
    }
}

impl View for Allocator {
    type V = Region;

    closed spec fn view(&self) -> Region {
        Region { current: self.current, end: self.end }
    }
}

impl Allocator {
    /// Creates a new bump allocator that will allocate memory from the region
    /// starting at address `start` and ending at address `end`.
    pub fn new(start: usize, end: usize) -> (allocator: Allocator)
        ensures
            allocator@ == (Region { current: start, end }),
    {
        Allocator { current: start, end }
    }

    /// Allocates memory. Returns the address of a block of `layout.size()`
    /// bytes that is a multiple of `layout.align()`.
    ///
    /// # Errors
    ///
    /// `AllocErr::Unsupported` for a request of size zero, and
    /// `AllocErr::Exhausted` when the block does not fit below the end of the
    /// region. Neither changes the allocator.
    pub fn allocate(&mut self, layout: Layout) -> (result: Result<usize, AllocErr>)
        ensures
            result == old(self)@.outcome(layout),
            final(self)@ == old(self)@.after(layout),
    {
        proof {
            use_type_invariant(&layout);
            reveal(is_pow2);
        }
        if layout.size() == 0 {
            return Err(AllocErr::Unsupported { details: "zero sized allocation" });
        }
        proof {
            lemma_align_up(self.current as int, layout.align() as int);
        }
        let start: usize = match align_up(self.current, layout.align()) {
            Some(start) => start,
            None => {
                return Err(AllocErr::Exhausted { request: layout });
            },
        };
        let end: usize = match start.checked_add(layout.size()) {
            Some(end) => end,
            None => {
                return Err(AllocErr::Exhausted { request: layout });
            },
        };
        if end > self.end {
            return Err(AllocErr::Exhausted { request: layout });
        }
        self.current = end;
        Ok(start)
    }

    /// Deallocates the memory at `_ptr`. A bump allocator never frees: this
    /// does nothing.
    pub fn dealloc(&mut self, _ptr: usize, _layout: Layout)
        ensures
            final(self)@ == old(self)@,
    {
    }
}

/// A block that is handed out is aligned as asked, lies between `current` and
/// `end`, and the next search starts at its end.
pub proof fn lemma_block(region: Region, layout: Layout)
    requires
        layout.wf(),
        region.outcome(layout) is Ok,
    ensures
        is_aligned(region.outcome(layout)->Ok_0 as int, layout.align() as int),
        region.current <= region.outcome(layout)->Ok_0,
        region.outcome(layout)->Ok_0 + layout.size() == region.after(layout).current,
        region.after(layout).current <= region.end,
        region.after(layout).end == region.end,
{
    reveal(is_pow2);
    lemma_align_up(region.current as int, layout.align() as int);
}

/// A request never moves `current` down and never moves `end`. One that is
/// refused changes nothing.
pub proof fn lemma_after(region: Region, layout: Layout)
    requires
        layout.wf(),
    ensures
        region.current <= region.after(layout).current,
        region.after(layout).end == region.end,
        region.outcome(layout) is Err ==> region.after(layout) == region,
{
    reveal(is_pow2);
    lemma_align_up(region.current as int, layout.align() as int);
}

/// Over a run of requests `current` never moves down and `end` stays.
pub proof fn lemma_after_all(region: Region, layouts: Seq<Layout>, i: int, j: int)
    requires
        forall|k: int| 0 <= k < layouts.len() ==> (#[trigger] layouts[k]).wf(),
        0 <= i <= j <= layouts.len(),
    ensures
        region.after_all(layouts.take(i)).current <= region.after_all(layouts.take(j)).current,
        region.after_all(layouts.take(j)).end == region.end,
        j < layouts.len() ==> region.after_all(layouts.take(j + 1)) == region.after_all(
            layouts.take(j),
        ).after(layouts[j]),
    decreases j,
{
    if j < layouts.len() {
        assert(layouts.take(j + 1).drop_last() =~= layouts.take(j));
        assert(layouts.take(j + 1).last() == layouts[j]);
    }
    if j > 0 {
        lemma_after_all(region, layouts, if i < j { i } else { j - 1 }, j - 1);
        assert(layouts.take(j).drop_last() =~= layouts.take(j - 1));
        assert(layouts.take(j).last() == layouts[j - 1]);
        lemma_after(region.after_all(layouts.take(j - 1)), layouts[j - 1]);
    }
}

/// Blocks come out in order and do not overlap: of two requests that are
/// served, the earlier block ends at or below the start of the later one, and
/// each block is aligned as asked.
pub proof fn lemma_blocks_in_order(region: Region, layouts: Seq<Layout>, i: int, j: int)
    requires
        forall|k: int| 0 <= k < layouts.len() ==> (#[trigger] layouts[k]).wf(),
        0 <= i < j < layouts.len(),
        region.answer(layouts, i) is Ok,
        region.answer(layouts, j) is Ok,
    ensures
        region.answer(layouts, i)->Ok_0 + layouts[i].size() <= region.answer(layouts, j)->Ok_0,
        is_aligned(region.answer(layouts, i)->Ok_0 as int, layouts[i].align() as int),
        is_aligned(region.answer(layouts, j)->Ok_0 as int, layouts[j].align() as int),
{
    lemma_block(region.after_all(layouts.take(i)), layouts[i]);
    lemma_block(region.after_all(layouts.take(j)), layouts[j]);
    lemma_after_all(region, layouts, i, i);
    lemma_after_all(region, layouts, i + 1, j);
}

/// A refusal for want of room changes nothing, so each later request is
/// judged on the room that is then left: one of positive size is served if it
/// fits and refused for want of room if it does not. The request that was
/// refused is refused again whenever it is repeated.
pub proof fn lemma_exhausted(region: Region, layouts: Seq<Layout>, i: int, j: int)
    requires
        forall|k: int| 0 <= k < layouts.len() ==> (#[trigger] layouts[k]).wf(),
        0 <= i < j < layouts.len(),
        region.answer(layouts, i) is Err,
        region.answer(layouts, i)->Err_0 is Exhausted,
    ensures
        region.after_all(layouts.take(i + 1)) == region.after_all(layouts.take(i)),
        layouts[j].size() > 0 && !region.after_all(layouts.take(j)).fits(
            layouts[j].size(),
            layouts[j].align(),
        )
            ==> region.answer(layouts, j) == Err::<usize, AllocErr>(
            AllocErr::Exhausted { request: layouts[j] },
        ),
        layouts[j].size() > 0 && region.after_all(layouts.take(j)).fits(
            layouts[j].size(),
            layouts[j].align(),
        )
            ==> region.answer(layouts, j) == Ok::<usize, AllocErr>(
            region.after_all(layouts.take(j)).placed(layouts[j].align()) as usize,
        ),
        layouts[j] == layouts[i] ==> region.answer(layouts, j) == region.answer(layouts, i),
{
    let before = region.after_all(layouts.take(i));
    let later = region.after_all(layouts.take(j));
    lemma_after_all(region, layouts, i, i);
    lemma_after(before, layouts[i]);
    lemma_after_all(region, layouts, i, j);
    lemma_after_all(region, layouts, i, i);
    if layouts[j] == layouts[i] {
        let align = layouts[i].align() as int;
        reveal(is_pow2);
        lemma_align_up(before.current as int, align);
        lemma_align_up(later.current as int, align);
        assert(is_aligned(spec_align_up(later.current as int, align), align));
        assert(before.placed(layouts[i].align()) <= later.placed(layouts[i].align()));
    }
}

} // verus!
