use vstd::prelude::*;

verus! {

use vstd::arithmetic::power2::pow2;

/// The 64-entry lookup table of scaled cube-root estimates: entry `i` is
/// an approximation of `2^6 * (i / 2^6)^(1/3)` rounded to fit one byte.
/// The exact byte values are part of the algorithm: the congestion window
/// produced downstream depends on them bit for bit.
pub open spec fn root_table(i: u8) -> u8 {
    if i == 0 { 0 }
    else if i == 1 { 54 }
    else if i == 2 { 54 }
    else if i == 3 { 54 }
    else if i == 4 { 118 }
    else if i == 5 { 118 }
    else if i == 6 { 118 }
    else if i == 7 { 118 }
    else if i == 8 { 123 }
    else if i == 9 { 129 }
    else if i == 10 { 134 }
    else if i == 11 { 138 }
    else if i == 12 { 143 }
    else if i == 13 { 147 }
    else if i == 14 { 151 }
    else if i == 15 { 156 }
    else if i == 16 { 157 }
    else if i == 17 { 161 }
    else if i == 18 { 164 }
    else if i == 19 { 168 }
    else if i == 20 { 170 }
    else if i == 21 { 173 }
    else if i == 22 { 176 }
    else if i == 23 { 179 }
    else if i == 24 { 181 }
    else if i == 25 { 185 }
    else if i == 26 { 187 }
    else if i == 27 { 190 }
    else if i == 28 { 192 }
    else if i == 29 { 194 }
    else if i == 30 { 197 }
    else if i == 31 { 199 }
    else if i == 32 { 200 }
    else if i == 33 { 202 }
    else if i == 34 { 204 }
    else if i == 35 { 206 }
    else if i == 36 { 209 }
    else if i == 37 { 211 }
    else if i == 38 { 213 }
    else if i == 39 { 215 }
    else if i == 40 { 217 }
    else if i == 41 { 219 }
    else if i == 42 { 221 }
    else if i == 43 { 222 }
    else if i == 44 { 224 }
    else if i == 45 { 225 }
    else if i == 46 { 227 }
    else if i == 47 { 229 }
    else if i == 48 { 231 }
    else if i == 49 { 232 }
    else if i == 50 { 234 }
    else if i == 51 { 236 }
    else if i == 52 { 237 }
    else if i == 53 { 239 }
    else if i == 54 { 240 }
    else if i == 55 { 242 }
    else if i == 56 { 244 }
    else if i == 57 { 245 }
    else if i == 58 { 246 }
    else if i == 59 { 248 }
    else if i == 60 { 250 }
    else if i == 61 { 251 }
    else if i == 62 { 252 }
    else { 254 }
}

/// Table lookup for [`root_table`].
pub fn root_table_at(i: u8) -> (r: u8)
    requires
        i < 64,
    ensures
        r == root_table(i),
{
    match i {
        0 => 0,
        1 => 54,
        2 => 54,
        3 => 54,
        4 => 118,
        5 => 118,
        6 => 118,
        7 => 118,
        8 => 123,
        9 => 129,
        10 => 134,
        11 => 138,
        12 => 143,
        13 => 147,
        14 => 151,
        15 => 156,
        16 => 157,
        17 => 161,
        18 => 164,
        19 => 168,
        20 => 170,
        21 => 173,
        22 => 176,
        23 => 179,
        24 => 181,
        25 => 185,
        26 => 187,
        27 => 190,
        28 => 192,
        29 => 194,
        30 => 197,
        31 => 199,
        32 => 200,
        33 => 202,
        34 => 204,
        35 => 206,
        36 => 209,
        37 => 211,
        38 => 213,
        39 => 215,
        40 => 217,
        41 => 219,
        42 => 221,
        43 => 222,
        44 => 224,
        45 => 225,
        46 => 227,
        47 => 229,
        48 => 231,
        49 => 232,
        50 => 234,
        51 => 236,
        52 => 237,
        53 => 239,
        54 => 240,
        55 => 242,
        56 => 244,
        57 => 245,
        58 => 246,
        59 => 248,
        60 => 250,
        61 => 251,
        62 => 252,
        _ => 254,
    }
}

/// Adjacent entries of the lookup table never decrease.
pub proof fn lemma_root_table_sorted()
    ensures
        forall|i: u8, j: u8| i <= j < 64 ==> root_table(i) <= root_table(j),
{
    assert forall|i: u8, j: u8| i <= j < 64 implies root_table(i) <= root_table(j) by {
        lemma_root_table_mono(i, j);
    }
}

proof fn lemma_root_table_mono(i: u8, j: u8)
    requires
        i <= j < 64,
    ensures
        root_table(i) <= root_table(j),
    decreases j - i,
{
    if i < j {
        lemma_root_table_mono(i, (j - 1) as u8);
        assert(root_table((j - 1) as u8) <= root_table(j));
    }
}

/// Bit length of `x`: the position of the highest set bit, counting from 1,
/// and 0 exactly for `x == 0`.
pub open spec fn spec_fls64(x: u64) -> int
    decreases x,
{
    if x == 0 {
        0
    } else {
        1 + spec_fls64((x / 2) as u64)
    }
}

/// The bit length locates `x` between two adjacent powers of two.
pub proof fn lemma_fls64_bounds(x: u64)
    ensures
        0 <= spec_fls64(x) <= 64,
        (x == 0) <==> (spec_fls64(x) == 0),
        x > 0 ==> pow2((spec_fls64(x) - 1) as nat) <= x,
        x > 0 ==> x < pow2(spec_fls64(x) as nat),
    decreases x,
{
    vstd::arithmetic::power2::lemma2_to64();
    if x > 0 {
        let f: int = spec_fls64(x);
        let y: u64 = (x / 2) as u64;
        lemma_fls64_bounds(y);
        if y == 0 {
            assert(x == 1);
            assert(pow2(0) == 1 && pow2(1) == 2);
        } else {
            let g: int = spec_fls64(y);
            assert(f == g + 1);
            vstd::arithmetic::power2::lemma_pow2_adds((g - 1) as nat, 1);
            vstd::arithmetic::power2::lemma_pow2_adds(g as nat, 1);
            assert(pow2(1) == 2);
            // lower bound: x >= 2 * (x / 2) >= 2 * pow2(g - 1) == pow2(g)
            assert(x >= 2 * (x / 2));
            assert(pow2((f - 1) as nat) == 2 * pow2((g - 1) as nat));
            // upper bound: x <= 2 * (x / 2) + 1 < 2 * pow2(g) == pow2(f)
            assert(x <= 2 * (x / 2) + 1);
            assert(pow2(f as nat) == 2 * pow2(g as nat));
            if f > 64 {
                vstd::arithmetic::power2::lemma_pow2_strictly_increases(64, (f - 1) as nat);
                assert(pow2((f - 1) as nat) >= pow2(64));
                assert(x < pow2(64)) by {
                    vstd::arithmetic::power2::lemma2_to64_rest();
                }
            }
        }
    }
}

/// Position of the highest set bit of `x`, counting from 1; 0 for `x == 0`.
pub fn fls64(x: u64) -> (r: u8)
    ensures
        r == spec_fls64(x),
        r <= 64,
{
    proof {
        lemma_fls64_bounds(x);
    }
    let mut r: u8 = 0;
    let mut y: u64 = x;
    while y > 0
        invariant
            spec_fls64(x) == r + spec_fls64(y),
            0 <= spec_fls64(y),
            r <= 64,
            spec_fls64(x) <= 64,
        decreases y,
    {
        proof {
            lemma_fls64_bounds(y);
            lemma_fls64_bounds((y / 2) as u64);
        }
        y = y / 2;
        r = r + 1;
    }
    r
}

/// Mathematical model of [`cubic_root`]: a table lookup for inputs of fewer
/// than 7 bits, otherwise a table-seeded estimate refined by one
/// Newton-Raphson step `x = 2*x + a / (x*(x-1))`, scaled by `341 / 1024`
/// (about one third) at the end.
pub open spec fn spec_cubic_root(a: u64) -> int {
    let b: int = spec_fls64(a);
    if b < 7 {
        (root_table(a as u8) + 35) / 64
    } else {
        let e: int = (b * 84) / 256 - 1;
        let s: int = a as int / pow2((3 * e) as nat) as int;
        let x0: int = ((root_table(s as u8) + 10) * pow2(e as nat)) / 64;
        let x1: int = 2 * x0 + a as int / (x0 * (x0 - 1));
        (x1 * 341) / 1024
    }
}

/// For bit lengths that select the lookup-and-refine path, the derived
/// shift exponent keeps the table index within the table and at least 8.
proof fn lemma_shift_exponent_range(b: u64)
    by (bit_vector)
    requires
        7 <= b <= 64,
    ensures
        2 <= (b * 84) / 256 <= 21,
        3 * ((b * 84) / 256) <= b + 2,
        b <= 3 * ((b * 84) / 256) + 3,
{
}

/// Integer cube root scaled for the cubic window computation: returns an
/// approximation of the cube root of `a`, exact on the lookup table's own
/// cube values and within a few percent elsewhere.
#[verifier::rlimit(100)]
pub fn cubic_root(a: u64) -> (r: u32)
    ensures
        r == spec_cubic_root(a),
{
    let b = fls64(a);
    proof {
        lemma_fls64_bounds(a);
        vstd::arithmetic::power2::lemma2_to64();
    }
    if b < 7 {
        proof {
            if a >= 64 {
                // a >= 2^6 would force a bit length of at least 7
                assert(pow2(spec_fls64(a) as nat) <= pow2(6)) by {
                    if spec_fls64(a) < 6 {
                        vstd::arithmetic::power2::lemma_pow2_strictly_increases(
                            spec_fls64(a) as nat,
                            6,
                        );
                    }
                }
            }
        }
        let v = root_table_at(a as u8);
        let r = ((v as u32) + 35) >> 6;
        proof {
            vstd::bits::lemma_u32_shr_is_div((v + 35) as u32, 6);
        }
        return r;
    }
    // b is the bit length of a, so 2^(b-1) <= a < 2^b
    let bb: u32 = (b as u32) * 84;
    proof {
        vstd::bits::lemma_u32_shr_is_div(bb, 8);
        lemma_shift_exponent_range(b as u64);
        vstd::arithmetic::power2::lemma2_to64();
        assert(bb >> 8 == (b * 84) / 256);
    }
    let e: u8 = ((bb >> 8) - 1) as u8;
    proof {
        assert(e == (b * 84) / 256 - 1);
        assert(1 <= e <= 20);
    }
    let ghost ei: int = e as int;
    let ghost pe: int = pow2(e as nat) as int;
    let ghost p3e: int = pow2((3 * e) as nat) as int;
    let s: u64 = a >> ((3 * e) as u64);
    proof {
        vstd::bits::lemma_u64_shr_is_div(a, (3 * e) as u64);
        vstd::arithmetic::power2::lemma_pow2_pos((3 * e) as nat);
        // lower bound: s >= 2^(b-1) / 2^(3e) = 2^(b-1-3e) >= 2^3
        assert(3 * ei <= b - 4);
        vstd::arithmetic::power2::lemma_pow2_subtracts((3 * e) as nat, (b - 1) as nat);
        vstd::arithmetic::div_mod::lemma_div_is_ordered(
            pow2((b - 1) as nat) as int,
            a as int,
            p3e,
        );
        vstd::arithmetic::div_mod::lemma_div_by_multiple(
            pow2((b - 1 - 3 * ei) as nat) as int,
            p3e,
        );
        assert(pow2((b - 1) as nat) as int / p3e == pow2((b - 1 - 3 * ei) as nat));
        if b - 1 - 3 * ei > 3 {
            vstd::arithmetic::power2::lemma_pow2_strictly_increases(
                3,
                (b - 1 - 3 * ei) as nat,
            );
        }
        assert(s >= 8);
        // upper bound: a < 2^b <= 2^(3e+3+3) = 64 * 2^(3e), so s < 64
        assert(b <= 3 * ei + 6);
        if b < 3 * ei + 6 {
            vstd::arithmetic::power2::lemma_pow2_strictly_increases(b as nat, (3 * ei + 6) as nat);
        }
        vstd::arithmetic::power2::lemma_pow2_adds((3 * e) as nat, 6);
        assert(a < 64 * p3e);
        vstd::arithmetic::div_mod::lemma_div_by_multiple_is_strongly_ordered(
            a as int,
            64 * p3e,
            64,
            p3e,
        );
        vstd::arithmetic::div_mod::lemma_div_by_multiple(64, p3e);
        assert(s < 64);
        lemma_root_table_sorted();
        assert(root_table(8) == 123);
        assert(root_table(s as u8) >= 123);
        assert(root_table(s as u8) <= 254);
    }
    let t: u32 = root_table_at(s as u8) as u32 + 10;
    let x0: u32 = (t << (e as u32)) >> 6;
    proof {
        vstd::arithmetic::power2::lemma_pow2_pos(e as nat);
        assert(133 <= t <= 264);
        assert(pe <= pow2(20)) by {
            if ei < 20 {
                vstd::arithmetic::power2::lemma_pow2_strictly_increases(e as nat, 20);
            }
        }
        vstd::arithmetic::power2::lemma2_to64_rest();
        assert((t as int) * pe <= 264 * pow2(20)) by (nonlinear_arith)
            requires
                133 <= t <= 264,
                0 < pe <= pow2(20),
        ;
        vstd::bits::lemma_u32_shl_is_mul(t, e as u32);
        vstd::bits::lemma_u32_shr_is_div((t << (e as u32)) as u32, 6);
        // bound x0 between 2 * 2^e and 5 * 2^e
        assert(128 * pe <= (t as int) * pe) by (nonlinear_arith)
            requires
                133 <= t,
                0 < pe,
        ;
        vstd::arithmetic::div_mod::lemma_div_is_ordered(128 * pe, (t as int) * pe, 64);
        vstd::arithmetic::div_mod::lemma_div_by_multiple(2 * pe, 64);
        assert((128 * pe) / 64 == 2 * pe);
        assert((t as int) * pe < 320 * pe) by (nonlinear_arith)
            requires
                133 <= t <= 264,
                0 < pe,
        ;
        vstd::arithmetic::div_mod::lemma_div_by_multiple_is_strongly_ordered(
            (t as int) * pe,
            320 * pe,
            5 * pe,
            64,
        );
        vstd::arithmetic::div_mod::lemma_div_by_multiple(5 * pe, 64);
        assert(2 * pe <= x0 < 5 * pe);
    }
    // One Newton-Raphson refinement step, in 64-bit arithmetic throughout.
    proof {
        vstd::arithmetic::power2::lemma2_to64();
        assert(pe <= pow2(20)) by {
            if ei < 20 {
                vstd::arithmetic::power2::lemma_pow2_strictly_increases(e as nat, 20);
            }
        }
        assert((x0 as int) * (x0 as int - 1) <= (5 * pow2(20)) * (5 * pow2(20)))
            by (nonlinear_arith)
            requires
                0 < x0,
                (x0 as int) < 5 * pe,
                0 < pe,
                pe <= pow2(20),
        ;
    }
    let d: u64 = (x0 as u64) * ((x0 - 1) as u64);
    proof {
        assert((x0 as int) * (x0 as int - 1) >= (2 * pe) * (2 * pe - 1)) by (nonlinear_arith)
            requires
                2 * pe <= x0 as int,
                1 <= pe,
        ;
        assert((2 * pe) * (2 * pe - 1) >= 2 * (pe * pe)) by (nonlinear_arith)
            requires
                1 <= pe,
        ;
        vstd::arithmetic::power2::lemma_pow2_adds(e as nat, e as nat);
        vstd::arithmetic::power2::lemma_pow2_adds((2 * e) as nat, e as nat);
        assert(pe * pe == pow2((2 * e) as nat));
        assert((x0 as int) * (x0 as int - 1) <= (5 * pe) * (5 * pe)) by (nonlinear_arith)
            requires
                2 * pe <= x0 as int <= 5 * pe,
                1 <= pe,
        ;
        assert((5 * pe) * (5 * pe) <= 25 * (pe * pe)) by (nonlinear_arith);
        assert(25 * pow2((2 * e) as nat) <= 25 * pow2(40)) by {
            if 2 * ei < 40 {
                vstd::arithmetic::power2::lemma_pow2_strictly_increases((2 * e) as nat, 40);
            }
        }
        assert(d == (x0 as int) * (x0 as int - 1));
        assert(d >= 2 * (pe * pe) >= 2);
    }
    let q: u64 = a / d;
    proof {
        // q < 2^(3e+6) / (2 * 2^(2e)) = 32 * 2^e
        vstd::arithmetic::div_mod::lemma_div_is_ordered_by_denominator(
            a as int,
            2 * pow2((2 * e) as nat) as int,
            d as int,
        );
        assert(a < (32 * pe) * (2 * pow2((2 * e) as nat))) by (nonlinear_arith)
            requires
                a < 64 * p3e,
                p3e == pow2((2 * e) as nat) * pe,
                0 < pe,
                0 < pow2((2 * e) as nat),
        ;
        vstd::arithmetic::div_mod::lemma_div_by_multiple_is_strongly_ordered(
            a as int,
            (32 * pe) * (2 * pow2((2 * e) as nat)),
            32 * pe,
            2 * pow2((2 * e) as nat) as int,
        );
        vstd::arithmetic::div_mod::lemma_div_by_multiple(
            32 * pe,
            2 * (pow2((2 * e) as nat) as int),
        );
        assert(q <= a as int / (2 * (pow2((2 * e) as nat) as int)) < 32 * pe);
    }
    let x1: u64 = 2 * (x0 as u64) + q;
    proof {
        assert(x1 < 42 * pe);
        assert(42 * pe <= 42 * (pow2(20) as int));
        assert(x1 as int * 341 < 42 * (pow2(20) as int) * 341);
    }
    let prod: u64 = x1 * 341;
    let r: u64 = prod >> 10;
    proof {
        vstd::bits::lemma_u64_shr_is_div(prod, 10);
        vstd::arithmetic::div_mod::lemma_div_is_ordered(
            prod as int,
            42 * (pow2(20) as int) * 341,
            1024,
        );
        assert(r <= (42 * (pow2(20) as int) * 341) / 1024);
    }
    r as u32
}

/// The cube root of zero is zero.
pub proof fn lemma_cubic_root_zero()
    ensures
        spec_cubic_root(0) == 0,
{
    assert(spec_fls64(0) == 0);
    assert(root_table(0) == 0);
}

/// On the pure table-lookup region (inputs of fewer than 7 bits) the cube
/// root approximation never decreases. Beyond that region the
/// approximation is not monotone everywhere: the Newton-Raphson step can
/// dip by one at a few small inputs.
pub proof fn lemma_cubic_root_monotone_small(a1: u64, a2: u64)
    requires
        a1 <= a2 < 64,
    ensures
        spec_cubic_root(a1) <= spec_cubic_root(a2),
{
    vstd::arithmetic::power2::lemma2_to64();
    lemma_small_input_bit_length(a1);
    lemma_small_input_bit_length(a2);
    lemma_root_table_sorted();
    assert(root_table(a1 as u8) <= root_table(a2 as u8));
    vstd::arithmetic::div_mod::lemma_div_is_ordered(
        root_table(a1 as u8) + 35,
        root_table(a2 as u8) + 35,
        64,
    );
}

/// On the lookup-and-refine path, inputs of the same bit length whose
/// shifted slices select the same table entry are ordered by the
/// approximation as they are ordered themselves.
pub proof fn lemma_cubic_root_monotone_segment(a1: u64, a2: u64)
    requires
        a1 <= a2,
        spec_fls64(a1) >= 7,
        spec_fls64(a1) == spec_fls64(a2),
        a1 as int / pow2((3 * ((spec_fls64(a1) * 84) / 256 - 1)) as nat) as int == a2 as int
            / pow2((3 * ((spec_fls64(a2) * 84) / 256 - 1)) as nat) as int,
    ensures
        spec_cubic_root(a1) <= spec_cubic_root(a2),
{
    let b: int = spec_fls64(a1);
    let e: int = (b * 84) / 256 - 1;
    let pe: int = pow2(e as nat) as int;
    let p3e: int = pow2((3 * e) as nat) as int;
    let s: int = a1 as int / p3e;
    lemma_fls64_bounds(a1);
    lemma_fls64_bounds(a2);
    lemma_shift_exponent_range(b as u64);
    vstd::arithmetic::power2::lemma2_to64();
    vstd::arithmetic::power2::lemma_pow2_pos(e as nat);
    vstd::arithmetic::power2::lemma_pow2_pos((3 * e) as nat);
    // the shared table index lies inside the table, at 8 or above
    assert(3 * e <= b - 4);
    vstd::arithmetic::power2::lemma_pow2_subtracts((3 * e) as nat, (b - 1) as nat);
    vstd::arithmetic::div_mod::lemma_div_is_ordered(
        pow2((b - 1) as nat) as int,
        a1 as int,
        p3e,
    );
    vstd::arithmetic::div_mod::lemma_div_by_multiple(pow2((b - 1 - 3 * e) as nat) as int, p3e);
    if b - 1 - 3 * e > 3 {
        vstd::arithmetic::power2::lemma_pow2_strictly_increases(3, (b - 1 - 3 * e) as nat);
    }
    assert(s >= 8);
    if b < 3 * e + 6 {
        vstd::arithmetic::power2::lemma_pow2_strictly_increases(b as nat, (3 * e + 6) as nat);
    }
    vstd::arithmetic::power2::lemma_pow2_adds((3 * e) as nat, 6);
    vstd::arithmetic::div_mod::lemma_div_by_multiple_is_strongly_ordered(
        a1 as int,
        64 * p3e,
        64,
        p3e,
    );
    vstd::arithmetic::div_mod::lemma_div_by_multiple(64, p3e);
    assert(s < 64);
    lemma_root_table_sorted();
    assert(root_table(8) == 123);
    let t: int = root_table(s as u8) + 10;
    assert(133 <= t <= 264);
    // both inputs share the same refinement seed, which is at least 2
    let x0: int = (t * pe) / 64;
    assert(128 * pe <= t * pe) by (nonlinear_arith)
        requires
            133 <= t,
            0 < pe,
    ;
    vstd::arithmetic::div_mod::lemma_div_is_ordered(128 * pe, t * pe, 64);
    vstd::arithmetic::div_mod::lemma_div_by_multiple(2 * pe, 64);
    assert(x0 >= 2 * pe >= 2);
    let d: int = x0 * (x0 - 1);
    assert(d >= 2) by (nonlinear_arith)
        requires
            x0 >= 2,
            d == x0 * (x0 - 1),
    ;
    // the refinement step and the final scaling preserve the order
    vstd::arithmetic::div_mod::lemma_div_is_ordered(a1 as int, a2 as int, d);
    let x11: int = 2 * x0 + a1 as int / d;
    let x12: int = 2 * x0 + a2 as int / d;
    assert(x11 <= x12);
    vstd::arithmetic::div_mod::lemma_div_is_ordered(x11 * 341, x12 * 341, 1024);
}

proof fn lemma_small_input_bit_length(a: u64)
    requires
        a < 64,
    ensures
        spec_fls64(a) < 7,
{
    vstd::arithmetic::power2::lemma2_to64();
    lemma_fls64_bounds(a);
    if a > 0 && spec_fls64(a) >= 7 {
        assert(pow2((spec_fls64(a) - 1) as nat) >= pow2(6)) by {
            if spec_fls64(a) - 1 > 6 {
                vstd::arithmetic::power2::lemma_pow2_strictly_increases(
                    6,
                    (spec_fls64(a) - 1) as nat,
                );
            }
        }
    }
}

} // verus!
