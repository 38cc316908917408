use vstd::prelude::*;

verus! {

/// Rounds `val` up with a low-bits mask: the result is `val + mask` with
/// the mask's bits cleared. With a mask of the form `2^k - 1` this is the
/// smallest multiple of `2^k` that is at least `val`.
pub open spec fn spec_mask_up(val: usize, mask: usize) -> usize {
    ((val + mask) as usize) & !mask
}

/// Rounds `val` up according to `mask`, which must have its one bits
/// contiguous at the low end.
pub fn mask(val: usize, mask_bits: usize) -> (r: usize)
    requires
        val + mask_bits <= usize::MAX,
    ensures
        r == spec_mask_up(val, mask_bits),
{
    (val + mask_bits) & !(mask_bits)
}

/// Rounds `val` up to a multiple of `alignment`, which must be a power of
/// two.
pub fn align(val: usize, alignment: usize) -> (r: usize)
    requires
        alignment >= 1,
        val + (alignment - 1) <= usize::MAX,
    ensures
        r == spec_mask_up(val, (alignment - 1) as usize),
{
    let mask_val: usize = alignment - 1;
    mask(val, mask_val)
}

/// Rounds `val` down to a multiple of `alignment`, which must be a power
/// of two.
pub fn align_down(val: usize, alignment: usize) -> (r: usize)
    requires
        alignment >= 1,
        val >= alignment - 1,
    ensures
        r == spec_mask_up((val - (alignment - 1)) as usize, (alignment - 1) as usize),
{
    let val: usize = val - (alignment - 1);
    align(val, alignment)
}

/// Tests if `val` is `alignment` bytes aligned, for `alignment` a power of
/// two.
pub fn is_aligned(val: usize, alignment: usize) -> (r: bool)
    requires
        alignment >= 1,
    ensures
        r == (val & ((alignment - 1) as usize) == 0),
{
    (val & (alignment - 1)) == 0
}

/// With a power-of-two alignment `2^k`, rounding up with the mask
/// `2^k - 1` clears the low `k` bits and lands at or above `val`, less
/// than one alignment step away.
#[verifier::rlimit(60)]
pub proof fn lemma_mask_up_rounds(val: usize, k: usize)
    by (bit_vector)
    requires
        k < 32,
        val + ((1usize << k) - 1) <= !0usize,
    ensures
        spec_mask_up(val, ((1usize << k) - 1) as usize) & (((1usize << k) - 1) as usize) == 0,
        val <= spec_mask_up(val, ((1usize << k) - 1) as usize),
        spec_mask_up(val, ((1usize << k) - 1) as usize) < val + (1usize << k),
{
}

/// An interface for dealing with alignment, for every primitive integer
/// width. Additions and subtractions wrap, as the bit patterns these
/// helpers work on do.
pub trait Align: Sized {
    /// The type of alignment values.
    type Alignment;

    /// The result of alignment by mask, for contracts.
    spec fn spec_mask(&self, mask_bits: Self::Alignment) -> Self;

    /// The result of alignment by bytes, for contracts.
    spec fn spec_align(&self, alignment: Self::Alignment) -> Self;

    /// The result of downward alignment by bytes, for contracts.
    spec fn spec_align_down(&self, alignment: Self::Alignment) -> Self;

    /// Whether the value is aligned, for contracts.
    spec fn spec_is_aligned(&self, alignment: Self::Alignment) -> bool;

    /// Alignment by mask.
    fn mask(&self, mask_bits: Self::Alignment) -> (r: Self)
        ensures
            r == self.spec_mask(mask_bits),
    ;

    /// Alignment by bytes.
    fn align(&self, alignment: Self::Alignment) -> (r: Self)
        ensures
            r == self.spec_align(alignment),
    ;

    /// Alignment downward by bytes.
    fn align_down(&self, alignment: Self::Alignment) -> (r: Self)
        ensures
            r == self.spec_align_down(alignment),
    ;

    /// Test if aligned.
    fn is_aligned(&self, alignment: Self::Alignment) -> (r: bool)
        ensures
            r == self.spec_is_aligned(alignment),
    ;
}

impl Align for u8 {
    type Alignment = u8;

    open spec fn spec_mask(&self, mask_bits: u8) -> u8 {
        vstd::wrapping::u8_specs::wrapping_add(*self, mask_bits) & !mask_bits
    }

    open spec fn spec_align(&self, alignment: u8) -> u8 {
        self.spec_mask(vstd::wrapping::u8_specs::wrapping_sub(alignment, 1))
    }

    open spec fn spec_align_down(&self, alignment: u8) -> u8 {
        let m = vstd::wrapping::u8_specs::wrapping_sub(alignment, 1);
        vstd::wrapping::u8_specs::wrapping_sub(*self, m).spec_mask(m)
    }

    open spec fn spec_is_aligned(&self, alignment: u8) -> bool {
        *self & vstd::wrapping::u8_specs::wrapping_sub(alignment, 1) == 0
    }

    fn mask(&self, mask_bits: u8) -> (r: u8) {
        self.wrapping_add(mask_bits) & !mask_bits
    }

    fn align(&self, alignment: u8) -> (r: u8) {
        let m: u8 = alignment.wrapping_sub(1);
        Align::mask(self, m)
    }

    fn align_down(&self, alignment: u8) -> (r: u8) {
        let m: u8 = alignment.wrapping_sub(1);
        let val: u8 = self.wrapping_sub(m);
        Align::mask(&val, m)
    }

    fn is_aligned(&self, alignment: u8) -> (r: bool) {
        (*self & alignment.wrapping_sub(1)) == 0
    }
}

impl Align for u16 {
    type Alignment = u16;

    open spec fn spec_mask(&self, mask_bits: u16) -> u16 {
        vstd::wrapping::u16_specs::wrapping_add(*self, mask_bits) & !mask_bits
    }

    open spec fn spec_align(&self, alignment: u16) -> u16 {
        self.spec_mask(vstd::wrapping::u16_specs::wrapping_sub(alignment, 1))
    }

    open spec fn spec_align_down(&self, alignment: u16) -> u16 {
        let m = vstd::wrapping::u16_specs::wrapping_sub(alignment, 1);
        vstd::wrapping::u16_specs::wrapping_sub(*self, m).spec_mask(m)
    }

    open spec fn spec_is_aligned(&self, alignment: u16) -> bool {
        *self & vstd::wrapping::u16_specs::wrapping_sub(alignment, 1) == 0
    }

    fn mask(&self, mask_bits: u16) -> (r: u16) {
        self.wrapping_add(mask_bits) & !mask_bits
    }

    fn align(&self, alignment: u16) -> (r: u16) {
        let m: u16 = alignment.wrapping_sub(1);
        Align::mask(self, m)
    }

    fn align_down(&self, alignment: u16) -> (r: u16) {
        let m: u16 = alignment.wrapping_sub(1);
        let val: u16 = self.wrapping_sub(m);
        Align::mask(&val, m)
    }

    fn is_aligned(&self, alignment: u16) -> (r: bool) {
        (*self & alignment.wrapping_sub(1)) == 0
    }
}

impl Align for u32 {
    type Alignment = u32;

    open spec fn spec_mask(&self, mask_bits: u32) -> u32 {
        vstd::wrapping::u32_specs::wrapping_add(*self, mask_bits) & !mask_bits
    }

    open spec fn spec_align(&self, alignment: u32) -> u32 {
        self.spec_mask(vstd::wrapping::u32_specs::wrapping_sub(alignment, 1))
    }

    open spec fn spec_align_down(&self, alignment: u32) -> u32 {
        let m = vstd::wrapping::u32_specs::wrapping_sub(alignment, 1);
        vstd::wrapping::u32_specs::wrapping_sub(*self, m).spec_mask(m)
    }

    open spec fn spec_is_aligned(&self, alignment: u32) -> bool {
        *self & vstd::wrapping::u32_specs::wrapping_sub(alignment, 1) == 0
    }

    fn mask(&self, mask_bits: u32) -> (r: u32) {
        self.wrapping_add(mask_bits) & !mask_bits
    }

    fn align(&self, alignment: u32) -> (r: u32) {
        let m: u32 = alignment.wrapping_sub(1);
        Align::mask(self, m)
    }

    fn align_down(&self, alignment: u32) -> (r: u32) {
        let m: u32 = alignment.wrapping_sub(1);
        let val: u32 = self.wrapping_sub(m);
        Align::mask(&val, m)
    }

    fn is_aligned(&self, alignment: u32) -> (r: bool) {
        (*self & alignment.wrapping_sub(1)) == 0
    }
}

impl Align for u64 {
    type Alignment = u64;

    open spec fn spec_mask(&self, mask_bits: u64) -> u64 {
        vstd::wrapping::u64_specs::wrapping_add(*self, mask_bits) & !mask_bits
    }

    open spec fn spec_align(&self, alignment: u64) -> u64 {
        self.spec_mask(vstd::wrapping::u64_specs::wrapping_sub(alignment, 1))
    }

    open spec fn spec_align_down(&self, alignment: u64) -> u64 {
        let m = vstd::wrapping::u64_specs::wrapping_sub(alignment, 1);
        vstd::wrapping::u64_specs::wrapping_sub(*self, m).spec_mask(m)
    }

    open spec fn spec_is_aligned(&self, alignment: u64) -> bool {
        *self & vstd::wrapping::u64_specs::wrapping_sub(alignment, 1) == 0
    }

    fn mask(&self, mask_bits: u64) -> (r: u64) {
        self.wrapping_add(mask_bits) & !mask_bits
    }

    fn align(&self, alignment: u64) -> (r: u64) {
        let m: u64 = alignment.wrapping_sub(1);
        Align::mask(self, m)
    }

    fn align_down(&self, alignment: u64) -> (r: u64) {
        let m: u64 = alignment.wrapping_sub(1);
        let val: u64 = self.wrapping_sub(m);
        Align::mask(&val, m)
    }

    fn is_aligned(&self, alignment: u64) -> (r: bool) {
        (*self & alignment.wrapping_sub(1)) == 0
    }
}

impl Align for usize {
    type Alignment = usize;

    open spec fn spec_mask(&self, mask_bits: usize) -> usize {
        vstd::wrapping::usize_specs::wrapping_add(*self, mask_bits) & !mask_bits
    }

    open spec fn spec_align(&self, alignment: usize) -> usize {
        self.spec_mask(vstd::wrapping::usize_specs::wrapping_sub(alignment, 1))
    }

    open spec fn spec_align_down(&self, alignment: usize) -> usize {
        let m = vstd::wrapping::usize_specs::wrapping_sub(alignment, 1);
        vstd::wrapping::usize_specs::wrapping_sub(*self, m).spec_mask(m)
    }

    open spec fn spec_is_aligned(&self, alignment: usize) -> bool {
        *self & vstd::wrapping::usize_specs::wrapping_sub(alignment, 1) == 0
    }

    fn mask(&self, mask_bits: usize) -> (r: usize) {
        self.wrapping_add(mask_bits) & !mask_bits
    }

    fn align(&self, alignment: usize) -> (r: usize) {
        let m: usize = alignment.wrapping_sub(1);
        Align::mask(self, m)
    }

    fn align_down(&self, alignment: usize) -> (r: usize) {
        let m: usize = alignment.wrapping_sub(1);
        let val: usize = self.wrapping_sub(m);
        Align::mask(&val, m)
    }

    fn is_aligned(&self, alignment: usize) -> (r: bool) {
        (*self & alignment.wrapping_sub(1)) == 0
    }
}

impl Align for i8 {
    type Alignment = i8;

    open spec fn spec_mask(&self, mask_bits: i8) -> i8 {
        (vstd::wrapping::u8_specs::wrapping_add(*self as u8, mask_bits as u8) & !(mask_bits as u8)) as i8
    }

    open spec fn spec_align(&self, alignment: i8) -> i8 {
        self.spec_mask(vstd::wrapping::i8_specs::wrapping_sub(alignment, 1))
    }

    open spec fn spec_align_down(&self, alignment: i8) -> i8 {
        let m = vstd::wrapping::i8_specs::wrapping_sub(alignment, 1);
        (vstd::wrapping::u8_specs::wrapping_sub(*self as u8, m as u8) as i8).spec_mask(m)
    }

    open spec fn spec_is_aligned(&self, alignment: i8) -> bool {
        (*self as u8) & (vstd::wrapping::i8_specs::wrapping_sub(alignment, 1) as u8) == 0
    }

    fn mask(&self, mask_bits: i8) -> (r: i8) {
        (((*self as u8).wrapping_add(mask_bits as u8) & !(mask_bits as u8))) as i8
    }

    fn align(&self, alignment: i8) -> (r: i8) {
        let m: i8 = alignment.wrapping_sub(1);
        Align::mask(self, m)
    }

    fn align_down(&self, alignment: i8) -> (r: i8) {
        let m: i8 = alignment.wrapping_sub(1);
        let val: i8 = ((*self as u8).wrapping_sub(m as u8)) as i8;
        Align::mask(&val, m)
    }

    fn is_aligned(&self, alignment: i8) -> (r: bool) {
        ((*self as u8) & ((alignment.wrapping_sub(1)) as u8)) == 0
    }
}

impl Align for i16 {
    type Alignment = i16;

    open spec fn spec_mask(&self, mask_bits: i16) -> i16 {
        (vstd::wrapping::u16_specs::wrapping_add(*self as u16, mask_bits as u16) & !(mask_bits as u16)) as i16
    }

    open spec fn spec_align(&self, alignment: i16) -> i16 {
        self.spec_mask(vstd::wrapping::i16_specs::wrapping_sub(alignment, 1))
    }

    open spec fn spec_align_down(&self, alignment: i16) -> i16 {
        let m = vstd::wrapping::i16_specs::wrapping_sub(alignment, 1);
        (vstd::wrapping::u16_specs::wrapping_sub(*self as u16, m as u16) as i16).spec_mask(m)
    }

    open spec fn spec_is_aligned(&self, alignment: i16) -> bool {
        (*self as u16) & (vstd::wrapping::i16_specs::wrapping_sub(alignment, 1) as u16) == 0
    }

    fn mask(&self, mask_bits: i16) -> (r: i16) {
        (((*self as u16).wrapping_add(mask_bits as u16) & !(mask_bits as u16))) as i16
    }

    fn align(&self, alignment: i16) -> (r: i16) {
        let m: i16 = alignment.wrapping_sub(1);
        Align::mask(self, m)
    }

    fn align_down(&self, alignment: i16) -> (r: i16) {
        let m: i16 = alignment.wrapping_sub(1);
        let val: i16 = ((*self as u16).wrapping_sub(m as u16)) as i16;
        Align::mask(&val, m)
    }

    fn is_aligned(&self, alignment: i16) -> (r: bool) {
        ((*self as u16) & ((alignment.wrapping_sub(1)) as u16)) == 0
    }
}

impl Align for i32 {
    type Alignment = i32;

    open spec fn spec_mask(&self, mask_bits: i32) -> i32 {
        (vstd::wrapping::u32_specs::wrapping_add(*self as u32, mask_bits as u32) & !(mask_bits as u32)) as i32
    }

    open spec fn spec_align(&self, alignment: i32) -> i32 {
        self.spec_mask(vstd::wrapping::i32_specs::wrapping_sub(alignment, 1))
    }

    open spec fn spec_align_down(&self, alignment: i32) -> i32 {
        let m = vstd::wrapping::i32_specs::wrapping_sub(alignment, 1);
        (vstd::wrapping::u32_specs::wrapping_sub(*self as u32, m as u32) as i32).spec_mask(m)
    }

    open spec fn spec_is_aligned(&self, alignment: i32) -> bool {
        (*self as u32) & (vstd::wrapping::i32_specs::wrapping_sub(alignment, 1) as u32) == 0
    }

    fn mask(&self, mask_bits: i32) -> (r: i32) {
        (((*self as u32).wrapping_add(mask_bits as u32) & !(mask_bits as u32))) as i32
    }

    fn align(&self, alignment: i32) -> (r: i32) {
        let m: i32 = alignment.wrapping_sub(1);
        Align::mask(self, m)
    }

    fn align_down(&self, alignment: i32) -> (r: i32) {
        let m: i32 = alignment.wrapping_sub(1);
        let val: i32 = ((*self as u32).wrapping_sub(m as u32)) as i32;
        Align::mask(&val, m)
    }

    fn is_aligned(&self, alignment: i32) -> (r: bool) {
        ((*self as u32) & ((alignment.wrapping_sub(1)) as u32)) == 0
    }
}

impl Align for i64 {
    type Alignment = i64;

    open spec fn spec_mask(&self, mask_bits: i64) -> i64 {
        (vstd::wrapping::u64_specs::wrapping_add(*self as u64, mask_bits as u64) & !(mask_bits as u64)) as i64
    }

    open spec fn spec_align(&self, alignment: i64) -> i64 {
        self.spec_mask(vstd::wrapping::i64_specs::wrapping_sub(alignment, 1))
    }

    open spec fn spec_align_down(&self, alignment: i64) -> i64 {
        let m = vstd::wrapping::i64_specs::wrapping_sub(alignment, 1);
        (vstd::wrapping::u64_specs::wrapping_sub(*self as u64, m as u64) as i64).spec_mask(m)
    }

    open spec fn spec_is_aligned(&self, alignment: i64) -> bool {
        (*self as u64) & (vstd::wrapping::i64_specs::wrapping_sub(alignment, 1) as u64) == 0
    }

    fn mask(&self, mask_bits: i64) -> (r: i64) {
        (((*self as u64).wrapping_add(mask_bits as u64) & !(mask_bits as u64))) as i64
    }

    fn align(&self, alignment: i64) -> (r: i64) {
        let m: i64 = alignment.wrapping_sub(1);
        Align::mask(self, m)
    }

    fn align_down(&self, alignment: i64) -> (r: i64) {
        let m: i64 = alignment.wrapping_sub(1);
        let val: i64 = ((*self as u64).wrapping_sub(m as u64)) as i64;
        Align::mask(&val, m)
    }

    fn is_aligned(&self, alignment: i64) -> (r: bool) {
        ((*self as u64) & ((alignment.wrapping_sub(1)) as u64)) == 0
    }
}

impl Align for isize {
    type Alignment = isize;

    open spec fn spec_mask(&self, mask_bits: isize) -> isize {
        (vstd::wrapping::usize_specs::wrapping_add(*self as usize, mask_bits as usize) & !(mask_bits as usize)) as isize
    }

    open spec fn spec_align(&self, alignment: isize) -> isize {
        self.spec_mask(vstd::wrapping::isize_specs::wrapping_sub(alignment, 1))
    }

    open spec fn spec_align_down(&self, alignment: isize) -> isize {
        let m = vstd::wrapping::isize_specs::wrapping_sub(alignment, 1);
        (vstd::wrapping::usize_specs::wrapping_sub(*self as usize, m as usize) as isize).spec_mask(m)
    }

    open spec fn spec_is_aligned(&self, alignment: isize) -> bool {
        (*self as usize) & (vstd::wrapping::isize_specs::wrapping_sub(alignment, 1) as usize) == 0
    }

    fn mask(&self, mask_bits: isize) -> (r: isize) {
        (((*self as usize).wrapping_add(mask_bits as usize) & !(mask_bits as usize))) as isize
    }

    fn align(&self, alignment: isize) -> (r: isize) {
        let m: isize = alignment.wrapping_sub(1);
        Align::mask(self, m)
    }

    fn align_down(&self, alignment: isize) -> (r: isize) {
        let m: isize = alignment.wrapping_sub(1);
        let val: isize = ((*self as usize).wrapping_sub(m as usize)) as isize;
        Align::mask(&val, m)
    }

    fn is_aligned(&self, alignment: isize) -> (r: bool) {
        ((*self as usize) & ((alignment.wrapping_sub(1)) as usize)) == 0
    }
}

} // verus!
