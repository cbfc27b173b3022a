//! Size/alignment descriptors for allocation requests, and the padding
//! arithmetic that lets a facility with fixed placement behaviour honour
//! arbitrary power-of-two alignment requests.
use vstd::prelude::*;
use vstd::arithmetic::power2::is_pow2;

verus! {

/// The least multiple of `align` that is at least `size`.
///
/// Rounding a requested size up to the next multiple of the requested
/// alignment is what permits the secure-memory facility, which places each
/// allocation at the end of a page, to satisfy arbitrary power-of-two
/// alignment requests without taking an alignment parameter.
pub open spec fn round_up(size: int, align: int) -> int
    recommends
        align >= 1,
{
    if size % align == 0 {
        size
    } else {
        size + align - size % align
    }
}

/// `round_up(size, align)` is a multiple of `align` and lies in
/// `[size, size + align)`.
pub proof fn lemma_round_up_properties(size: int, align: int)
    requires
        size >= 0,
        align >= 1,
    ensures
        round_up(size, align) % align == 0,
        size <= round_up(size, align) < size + align,
{
    let r = size % align;
    vstd::arithmetic::div_mod::lemma_fundamental_div_mod(size, align);
    vstd::arithmetic::div_mod::lemma_mod_division_less_than_divisor(size, align);
    let q = size / align;
    if r == 0 {
        assert(size == q * align) by (nonlinear_arith)
            requires
                size == align * q + r,
                r == 0,
        ;
        vstd::arithmetic::div_mod::lemma_mod_multiples_basic(q, align);
    } else {
        assert(round_up(size, align) == (q + 1) * align) by (nonlinear_arith)
            requires
                size == align * q + r,
                round_up(size, align) == size + align - r,
        ;
        vstd::arithmetic::div_mod::lemma_mod_multiples_basic(q + 1, align);
    }
}

/// `round_up(size, align)` is the least multiple of `align` that is at least
/// `size`: any multiple of `align` no smaller than `size` is no smaller than
/// the rounded size.
pub proof fn lemma_round_up_is_least(size: int, align: int, m: int)
    requires
        size >= 0,
        align >= 1,
        m >= size,
        m % align == 0,
    ensures
        m >= round_up(size, align),
{
    let r = size % align;
    if r != 0 {
        vstd::arithmetic::div_mod::lemma_fundamental_div_mod(size, align);
        vstd::arithmetic::div_mod::lemma_fundamental_div_mod(m, align);
        let q = size / align;
        let k = m / align;
        assert(m % align == 0);
        assert(m == align * k);
        assert(size == align * q + r);
        assert(k > q) by (nonlinear_arith)
            requires
                align >= 1,
                align * k >= align * q + r,
                r > 0,
        ;
        assert(align * k >= align * (q + 1)) by (nonlinear_arith)
            requires
                align >= 1,
                k >= q + 1,
        ;
        assert(align * (q + 1) == round_up(size, align)) by (nonlinear_arith)
            requires
                size == align * q + r,
                round_up(size, align) == size + align - r,
        ;
    }
}

/// With the trivial alignment of one byte, rounding changes nothing: the
/// facility is asked for exactly the requested number of bytes.
pub proof fn lemma_round_up_align_one(size: int)
    requires
        size >= 0,
    ensures
        round_up(size, 1) == size,
{
    vstd::arithmetic::div_mod::lemma_mod_multiples_basic(size, 1);
}

/// A zero-byte request stays a zero-byte request under any alignment.
pub proof fn lemma_round_up_zero(align: int)
    requires
        align >= 1,
    ensures
        round_up(0, align) == 0,
{
    vstd::arithmetic::div_mod::lemma_small_mod(0, align as nat);
}

/// The alignment guarantee of end-of-page placement: if a region of `size`
/// bytes ends exactly at a page boundary, `size` is a multiple of `align`,
/// and `align` divides the page size, then the region's base address is
/// aligned to `align`.
///
/// This is why padding the requested size to a multiple of the alignment is
/// enough for a facility that places each allocation immediately before a
/// guard page: the facility never takes an alignment parameter, yet the
/// address it returns is aligned.
pub proof fn lemma_end_of_page_alignment(base: int, size: int, align: int, page: int)
    requires
        base >= 0,
        size >= 0,
        align >= 1,
        page >= 1,
        page % align == 0,
        size % align == 0,
        (base + size) % page == 0,
    ensures
        base % align == 0,
{
    let t = base + size;
    vstd::arithmetic::div_mod::lemma_fundamental_div_mod(t, page);
    vstd::arithmetic::div_mod::lemma_fundamental_div_mod(page, align);
    let u = t / page;
    let v = page / align;
    assert(t == (u * v) * align) by (nonlinear_arith)
        requires
            t == page * u,
            page == align * v,
    ;
    vstd::arithmetic::div_mod::lemma_mod_multiples_basic(u * v, align);
    vstd::arithmetic::div_mod::lemma_sub_mod_noop(t, size, align);
    vstd::arithmetic::div_mod::lemma_small_mod(0, align as nat);
    assert(base == t - size);
}

/// The error returned when a size/alignment pair does not describe a valid
/// layout: the alignment is zero or not a power of two, or the padded size
/// would exceed the largest supported allocation.
#[derive(Clone, Copy, Debug, PartialEq, Eq, Structural)]
pub struct LayoutError;

/// A validated allocation request: a size in bytes and a power-of-two
/// alignment.
///
/// Every value of this type satisfies the layout invariant: the alignment is
/// a positive power of two and the size, once padded to a multiple of the
/// alignment, still fits in `isize::MAX` bytes. The only way to obtain one is
/// through [`MemLayout::from_size_align`], which rejects anything else.
#[derive(Clone, Copy, Debug)]
pub struct MemLayout {
    size: usize,
    align: usize,
}

/// Decides whether `n` is a power of two, by repeated halving.
fn is_power_of_two(n: usize) -> (r: bool)
    ensures
        r == is_pow2(n as int),
{
    if n == 0 {
        proof {
            reveal(vstd::arithmetic::power2::is_pow2);
        }
        return false;
    }
    let mut a: usize = n;
    while a > 1
        invariant
            a >= 1,
            is_pow2(n as int) == is_pow2(a as int),
        decreases a,
    {
        if a % 2 != 0 {
            proof {
                reveal(vstd::arithmetic::power2::is_pow2);
            }
            return false;
        }
        proof {
            reveal(vstd::arithmetic::power2::is_pow2);
            assert(is_pow2(a as int) == is_pow2(a as int / 2));
        }
        a = a / 2;
    }
    proof {
        reveal(vstd::arithmetic::power2::is_pow2);
    }
    true
}

impl MemLayout {
    /// The layout invariant: positive power-of-two alignment, and the padded
    /// size fits in `isize::MAX` bytes. Every reachable `MemLayout` value
    /// satisfies it; [`MemLayout::lemma_valid`] hands its consequences out.
    #[verifier::type_invariant]
    pub closed spec fn wf(self) -> bool {
        &&& self.align >= 1
        &&& is_pow2(self.align as int)
        &&& round_up(self.size as int, self.align as int) <= isize::MAX as int
    }

    /// The requested size in bytes, before padding.
    pub closed spec fn spec_size(self) -> usize {
        self.size
    }

    /// The requested alignment in bytes.
    pub closed spec fn spec_align(self) -> usize {
        self.align
    }

    /// The requested size in bytes, before padding.
    #[verifier::when_used_as_spec(spec_size)]
    pub fn size(self) -> (n: usize)
        ensures
            n == self.spec_size(),
    {
        self.size
    }

    /// The requested alignment in bytes.
    #[verifier::when_used_as_spec(spec_align)]
    pub fn align(self) -> (n: usize)
        ensures
            n == self.spec_align(),
    {
        self.align
    }

    /// What the layout invariant gives every reachable layout value: the
    /// alignment is a positive power of two and the padded size fits in
    /// `isize::MAX` bytes. Obtain `wf` itself with `use_type_invariant`.
    pub proof fn lemma_valid(self)
        requires
            self.wf(),
        ensures
            self.spec_align() >= 1,
            is_pow2(self.spec_align() as int),
            self.spec_size() <= round_up(self.spec_size() as int, self.spec_align() as int)
                <= isize::MAX as int,
    {
        lemma_round_up_properties(self.spec_size() as int, self.spec_align() as int);
    }

    /// Builds a layout from a size and an alignment, rejecting any pair that
    /// breaks the layout invariant: a zero or non-power-of-two alignment, or
    /// a size whose padded form would exceed `isize::MAX` bytes.
    pub fn from_size_align(size: usize, align: usize) -> (r: Result<MemLayout, LayoutError>)
        ensures
            r is Ok <==> {
                &&& align >= 1
                &&& is_pow2(align as int)
                &&& round_up(size as int, align as int) <= isize::MAX as int
            },
            r is Ok ==> r.unwrap().spec_size() == size && r.unwrap().spec_align() == align,
    {
        if !is_power_of_two(align) {
            proof {
                reveal(vstd::arithmetic::power2::is_pow2);
            }
            return Err(LayoutError);
        }
        proof {
            reveal(vstd::arithmetic::power2::is_pow2);
            lemma_round_up_properties(size as int, align as int);
        }
        let rem = size % align;
        if rem == 0 {
            if size <= isize::MAX as usize {
                Ok(MemLayout { size, align })
            } else {
                Err(LayoutError)
            }
        } else {
            match size.checked_add(align - rem) {
                Some(padded) => {
                    if padded <= isize::MAX as usize {
                        Ok(MemLayout { size, align })
                    } else {
                        Err(LayoutError)
                    }
                },
                None => Err(LayoutError),
            }
        }
    }

    /// Rounds the size up to the next multiple of the alignment, leaving the
    /// alignment unchanged. The padded layout is what is actually requested
    /// from the secure-memory facility.
    pub fn pad_to_align(&self) -> (r: MemLayout)
        ensures
            r.spec_align() == self.spec_align(),
            r.spec_size() as int == round_up(self.spec_size() as int, self.spec_align() as int),
    {
        proof {
            use_type_invariant(*self);
            lemma_round_up_properties(self.size as int, self.align as int);
        }
        let rem = self.size % self.align;
        if rem == 0 {
            *self
        } else {
            let padded = self.size + (self.align - rem);
            MemLayout { size: padded, align: self.align }
        }
    }
}

} // verus!
