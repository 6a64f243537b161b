use vstd::prelude::*;
use vstd::arithmetic::power2::is_pow2;

verus! {

/// `addr` is a multiple of `align`.
pub open spec fn is_aligned(addr: int, align: int) -> bool {
    addr % align == 0
}

/// The least multiple of `align` that is not below `addr`.
pub open spec fn spec_align_up(addr: int, align: int) -> int {
    if addr % align == 0 {
        addr
    } else {
        addr + align - addr % align
    }
}

/// `spec_align_up` is a multiple of `align`, lies less than `align` above
/// `addr`, and no multiple of `align` lies between the two.
pub proof fn lemma_align_up(addr: int, align: int)
    requires
        0 <= addr,
        0 < align,
    ensures
        is_aligned(spec_align_up(addr, align), align),
        addr <= spec_align_up(addr, align) < addr + align,
        forall|m: int| addr <= m && #[trigger] is_aligned(m, align) ==> spec_align_up(addr, align) <= m,
{
    let up = spec_align_up(addr, align);
    let r = addr % align;
    assert(addr == align * (addr / align) + r && 0 <= r < align) by (nonlinear_arith)
        requires
            0 <= addr,
            0 < align,
            r == addr % align,
    ;
    if r != 0 {
        assert(up == align * (addr / align + 1)) by (nonlinear_arith)
            requires
                up == addr + align - r,
                addr == align * (addr / align) + r,
        ;
        assert((align * (addr / align + 1)) % align == 0) by (nonlinear_arith)
            requires
                0 < align,
        ;
    }
    assert forall|m: int| addr <= m && #[trigger] is_aligned(m, align) implies up <= m by {
        if m < up {
            // Both are multiples of `align`, less than `align` apart.
            assert(m == align * (m / align)) by (nonlinear_arith)
                requires
                    0 < align,
                    m % align == 0,
            ;
            assert(up == align * (up / align)) by (nonlinear_arith)
                requires
                    0 < align,
                    up % align == 0,
            ;
            assert(false) by (nonlinear_arith)
                requires
                    m == align * (m / align),
                    up == align * (up / align),
                    0 < align,
                    0 < up - m < align,
            ;
        }
    }
}

/// Rounds `addr` up to a multiple of `align`. `None` when that multiple is not
/// an address.
pub fn align_up(addr: usize, align: usize) -> (aligned: Option<usize>)
    requires
        align > 0,
    ensures
        aligned == if spec_align_up(addr as int, align as int) <= usize::MAX {
            Some(spec_align_up(addr as int, align as int) as usize)
        } else {
            None
        },
{
    let rest: usize = addr % align;
    if rest == 0 {
        Some(addr)
    } else {
        addr.checked_add(align - rest)
    }
}

/// Whether `n` is a power of two.
pub fn is_power_of_two(n: usize) -> (yes: bool)
    ensures
        yes == is_pow2(n as int),
{
    if n == 0 {
        proof {
            reveal(is_pow2);
        }
        return false;
    }
    let mut m: usize = n;
    while m % 2 == 0
        invariant
            m > 0,
            is_pow2(m as int) == is_pow2(n as int),
        decreases m,
    {
        proof {
            reveal(is_pow2);
        }
        m = m / 2;
    }
    proof {
        reveal(is_pow2);
    }
    m == 1
}

} // verus!
