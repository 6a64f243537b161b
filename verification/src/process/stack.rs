use vstd::prelude::*;
use vstd::arithmetic::power2::is_pow2;
use crate::allocator::bump::{Allocator, Layout, Region};
use crate::allocator::util::{is_aligned, lemma_align_up};

verus! {

/// The number of bytes of a process's stack.
pub const STACK_SIZE: usize = 0x10_0000;

/// The alignment of a process's stack, at both ends.
pub const STACK_ALIGN: usize = 16;

/// The stack of a process: `STACK_SIZE` bytes of the kernel heap that belong
/// to it alone.
#[derive(Debug)]
pub struct Stack {
    base: usize,
}

impl Stack {
    #[verifier::type_invariant]
    spec fn inv(self) -> bool {
        self.wf()
    }

    /// Both ends of the stack are addresses and multiples of `STACK_ALIGN`.
    pub open spec fn wf(self) -> bool {
        &&& is_aligned(self.bottom() as int, STACK_ALIGN as int)
        &&& is_aligned(self.top() as int, STACK_ALIGN as int)
        &&& self.top() == self.bottom() + STACK_SIZE
    }

    /// The address of the lowest byte of the stack.
    pub closed spec fn spec_bottom(&self) -> usize {
        self.base
    }

    /// The address one past the highest byte of the stack.
    pub closed spec fn spec_top(&self) -> usize {
        (self.base + STACK_SIZE) as usize
    }

    /// Takes a stack from `heap`. `None` when the heap has no room for one;
    /// the heap is then as it was.
    pub fn new(heap: &mut Allocator) -> (stack: Option<Stack>)
        ensures
            stack is Some <==> old(heap)@.fits(STACK_SIZE, STACK_ALIGN),
            stack matches Some(s) ==> {
                &&& s.wf()
                &&& s.bottom() == old(heap)@.placed(STACK_ALIGN)
                &&& final(heap)@ == old(heap)@.taken(STACK_SIZE, STACK_ALIGN)
            },
            stack is None ==> final(heap)@ == old(heap)@,
    {
        proof {
            lemma_sixteen();
            lemma_align_up(heap@.current as int, STACK_ALIGN as int);
        }
        match Layout::from_size_align(STACK_SIZE, STACK_ALIGN) {
            Some(layout) => match heap.allocate(layout) {
                Ok(base) => Some(Stack { base }),
                Err(_) => None,
            },
            None => None,
        }
    }

    /// The address one past the highest byte of the stack: where the stack
    /// pointer starts.
    #[verifier::when_used_as_spec(spec_top)]
    pub fn top(&self) -> (top: usize)
        ensures
            top == self.spec_top(),
    {
        proof {
            use_type_invariant(self);
        }
        self.base + STACK_SIZE
    }

    /// The address of the lowest byte of the stack.
    #[verifier::when_used_as_spec(spec_bottom)]
    pub fn bottom(&self) -> (bottom: usize)
        ensures
            bottom == self.spec_bottom(),
    {
        self.base
    }
}

/// Stacks that are taken from one heap do not overlap: the one taken second
/// starts at or above the top of the one taken first, and both lie below the
/// end of the heap.
pub proof fn lemma_stacks_apart(heap: Region)
    requires
        heap.fits(STACK_SIZE, STACK_ALIGN),
        heap.taken(STACK_SIZE, STACK_ALIGN).fits(STACK_SIZE, STACK_ALIGN),
    ensures
        heap.placed(STACK_ALIGN) + STACK_SIZE <= heap.taken(STACK_SIZE, STACK_ALIGN).placed(
            STACK_ALIGN,
        ),
        heap.taken(STACK_SIZE, STACK_ALIGN).placed(STACK_ALIGN) + STACK_SIZE <= heap.end,
{
    lemma_align_up(heap.current as int, STACK_ALIGN as int);
    lemma_align_up(heap.taken(STACK_SIZE, STACK_ALIGN).current as int, STACK_ALIGN as int);
}

proof fn lemma_sixteen()
    ensures
        is_pow2(STACK_ALIGN as int),
{
    reveal_with_fuel(is_pow2, 5);
}

} // verus!
