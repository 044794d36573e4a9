//! Angles in degrees and the unit vectors along them.
//!
//! Sine and cosine are taken by their power series, up to the seventeenth
//! and the sixteenth power of the angle, in the arithmetic of scalars. The
//! angle is not reduced to a first turn: the series is meant for the angles
//! of a throw, within a quarter turn of zero. What is proved of the result
//! is its value at 30 degrees; its distance from the true sine and cosine
//! is not bounded here.

use crate::scalar::{lemma_div_value, lemma_from_int_value, lemma_mul_value, Scalar, SCALE};
use crate::vector::NVec2;
use vstd::prelude::*;

verus! {

/// The raw value of pi.
pub const PI_RAW: i64 = 3_141_592_653_590;

/// The number of nested factors of each series.
pub const SERIES_TERMS: u8 = 8;

/// The angle of `degrees` degrees in radians: times pi, by 180.
pub open spec fn spec_radians(degrees: Scalar) -> Scalar {
    degrees.spec_mul(Scalar { raw: PI_RAW }).spec_div(Scalar::spec_from_int(180))
}

/// The nested factor `1 - x2 / (first·(first + 1)) · (1 - x2 / ((first +
/// 2)·(first + 3)) · (...))` with `count` divisions, where `x2` is the square
/// of the angle.
pub open spec fn spec_nested(x2: Scalar, first: int, count: nat) -> Scalar
    decreases count,
{
    if count == 0 {
        Scalar::spec_from_int(1)
    } else {
        Scalar::spec_from_int(1).spec_sub(
            x2.spec_div(Scalar::spec_from_int(first * (first + 1))).spec_mul(
                spec_nested(x2, first + 2, (count - 1) as nat),
            ),
        )
    }
}

/// The sine of the angle `x` in radians: `x - x³/3! + x⁵/5! - ...`, in
/// nested form.
pub open spec fn spec_sin(x: Scalar) -> Scalar {
    x.spec_mul(spec_nested(x.spec_mul(x), 2, SERIES_TERMS as nat))
}

/// The cosine of the angle `x` in radians: `1 - x²/2! + x⁴/4! - ...`, in
/// nested form.
pub open spec fn spec_cos(x: Scalar) -> Scalar {
    spec_nested(x.spec_mul(x), 1, SERIES_TERMS as nat)
}

/// The unit vector at `degrees` degrees from the first axis: the cosine and
/// the sine of the angle.
pub open spec fn spec_unit_direction(degrees: Scalar) -> NVec2 {
    NVec2 { x: spec_cos(spec_radians(degrees)), y: spec_sin(spec_radians(degrees)) }
}

fn nested(x2: Scalar, first: i64, count: u8) -> (r: Scalar)
    requires
        0 < first,
        first + 2 * count <= 100,
    ensures
        r == spec_nested(x2, first as int, count as nat),
    decreases count,
{
    if count == 0 {
        Scalar::from_int(1)
    } else {
        assert(0 < first * (first + 1) <= 10_100) by (nonlinear_arith)
            requires
                0 < first <= 100,
        ;
        let inner = nested(x2, first + 2, count - 1);
        Scalar::from_int(1).sub(x2.div(Scalar::from_int(first * (first + 1))).mul(inner))
    }
}

/// The angle of `degrees` degrees in radians.
pub fn radians(degrees: Scalar) -> (r: Scalar)
    ensures
        r == spec_radians(degrees),
{
    degrees.mul(Scalar::from_raw(PI_RAW)).div(Scalar::from_int(180))
}

/// The sine of the angle `x` in radians.
pub fn sin(x: Scalar) -> (r: Scalar)
    ensures
        r == spec_sin(x),
{
    x.mul(nested(x.mul(x), 2, SERIES_TERMS))
}

/// The cosine of the angle `x` in radians.
pub fn cos(x: Scalar) -> (r: Scalar)
    ensures
        r == spec_cos(x),
{
    nested(x.mul(x), 1, SERIES_TERMS)
}

/// The unit vector at `degrees` degrees from the first axis.
pub fn unit_direction(degrees: Scalar) -> (r: NVec2)
    ensures
        r == spec_unit_direction(degrees),
{
    let x = radians(degrees);
    NVec2 { x: cos(x), y: sin(x) }
}

/// At 30 degrees the unit vector is the cosine 0.866025403786 and the sine
/// one half.
pub proof fn lemma_direction_at_thirty_degrees()
    ensures
        spec_unit_direction(Scalar::spec_from_int(30)) == (NVec2 {
            x: Scalar { raw: 866_025_403_786 },
            y: Scalar { raw: 500_000_000_000 },
        }),
{
    let one = Scalar::spec_from_int(1);
    lemma_from_int_value(1);
    let degrees = Scalar::spec_from_int(30);
    lemma_from_int_value(30);
    let pi = Scalar { raw: PI_RAW };
    let half_turn = Scalar::spec_from_int(180);
    lemma_from_int_value(180);
    let scaled = degrees.spec_mul(pi);
    assert(0 <= degrees.raw * pi.raw - 94_247_779_607_700 * SCALE < SCALE) by (nonlinear_arith)
        requires
            degrees.raw == 30_000_000_000_000,
            pi.raw == 3_141_592_653_590,
            SCALE == 1_000_000_000_000,
    ;
    lemma_mul_value(degrees, pi, 94_247_779_607_700);
    let x = scaled.spec_div(half_turn);
    assert(0 <= scaled.raw * SCALE - 523_598_775_598 * half_turn.raw < half_turn.raw) by (nonlinear_arith)
        requires
            scaled.raw == 94_247_779_607_700,
            half_turn.raw == 180_000_000_000_000,
            SCALE == 1_000_000_000_000,
    ;
    lemma_div_value(scaled, half_turn, 523_598_775_598);
    assert(x == spec_radians(degrees));
    assert(x.raw == 523_598_775_598);
    let x2 = x.spec_mul(x);
    assert(0 <= x.raw * x.raw - 274_155_677_807 * SCALE < SCALE) by (nonlinear_arith)
        requires
            x.raw == 523_598_775_598,
            x.raw == 523_598_775_598,
            SCALE == 1_000_000_000_000,
    ;
    lemma_mul_value(x, x, 274_155_677_807);
    let c0 = spec_nested(x2, 17, 0);
    assert(c0 == one);
    let cd1 = Scalar::spec_from_int(240);
    lemma_from_int_value(240);
    let cq1 = x2.spec_div(cd1);
    assert(0 <= x2.raw * SCALE - 1_142_315_324 * cd1.raw < cd1.raw) by (nonlinear_arith)
        requires
            x2.raw == 274_155_677_807,
            cd1.raw == 240_000_000_000_000,
            SCALE == 1_000_000_000_000,
    ;
    lemma_div_value(x2, cd1, 1_142_315_324);
    let ct1 = cq1.spec_mul(c0);
    assert(0 <= cq1.raw * c0.raw - 1_142_315_324 * SCALE < SCALE) by (nonlinear_arith)
        requires
            cq1.raw == 1_142_315_324,
            c0.raw == 1_000_000_000_000,
            SCALE == 1_000_000_000_000,
    ;
    lemma_mul_value(cq1, c0, 1_142_315_324);
    let c1 = spec_nested(x2, 15, 1);
    assert(15 * (15 + 1) == 240);
    assert(c1 == one.spec_sub(ct1));
    assert(c1.raw == 998_857_684_676);
    let cd2 = Scalar::spec_from_int(182);
    lemma_from_int_value(182);
    let cq2 = x2.spec_div(cd2);
    assert(0 <= x2.raw * SCALE - 1_506_349_878 * cd2.raw < cd2.raw) by (nonlinear_arith)
        requires
            x2.raw == 274_155_677_807,
            cd2.raw == 182_000_000_000_000,
            SCALE == 1_000_000_000_000,
    ;
    lemma_div_value(x2, cd2, 1_506_349_878);
    let ct2 = cq2.spec_mul(c1);
    assert(0 <= cq2.raw * c1.raw - 1_504_629_151 * SCALE < SCALE) by (nonlinear_arith)
        requires
            cq2.raw == 1_506_349_878,
            c1.raw == 998_857_684_676,
            SCALE == 1_000_000_000_000,
    ;
    lemma_mul_value(cq2, c1, 1_504_629_151);
    let c2 = spec_nested(x2, 13, 2);
    assert(13 * (13 + 1) == 182);
    assert(c2 == one.spec_sub(ct2));
    assert(c2.raw == 998_495_370_849);
    let cd3 = Scalar::spec_from_int(132);
    lemma_from_int_value(132);
    let cq3 = x2.spec_div(cd3);
    assert(0 <= x2.raw * SCALE - 2_076_936_953 * cd3.raw < cd3.raw) by (nonlinear_arith)
        requires
            x2.raw == 274_155_677_807,
            cd3.raw == 132_000_000_000_000,
            SCALE == 1_000_000_000_000,
    ;
    lemma_div_value(x2, cd3, 2_076_936_953);
    let ct3 = cq3.spec_mul(c2);
    assert(0 <= cq3.raw * c2.raw - 2_073_811_933 * SCALE < SCALE) by (nonlinear_arith)
        requires
            cq3.raw == 2_076_936_953,
            c2.raw == 998_495_370_849,
            SCALE == 1_000_000_000_000,
    ;
    lemma_mul_value(cq3, c2, 2_073_811_933);
    let c3 = spec_nested(x2, 11, 3);
    assert(11 * (11 + 1) == 132);
    assert(c3 == one.spec_sub(ct3));
    assert(c3.raw == 997_926_188_067);
    let cd4 = Scalar::spec_from_int(90);
    lemma_from_int_value(90);
    let cq4 = x2.spec_div(cd4);
    assert(0 <= x2.raw * SCALE - 3_046_174_197 * cd4.raw < cd4.raw) by (nonlinear_arith)
        requires
            x2.raw == 274_155_677_807,
            cd4.raw == 90_000_000_000_000,
            SCALE == 1_000_000_000_000,
    ;
    lemma_div_value(x2, cd4, 3_046_174_197);
    let ct4 = cq4.spec_mul(c3);
    assert(0 <= cq4.raw * c3.raw - 3_039_857_004 * SCALE < SCALE) by (nonlinear_arith)
        requires
            cq4.raw == 3_046_174_197,
            c3.raw == 997_926_188_067,
            SCALE == 1_000_000_000_000,
    ;
    lemma_mul_value(cq4, c3, 3_039_857_004);
    let c4 = spec_nested(x2, 9, 4);
    assert(9 * (9 + 1) == 90);
    assert(c4 == one.spec_sub(ct4));
    assert(c4.raw == 996_960_142_996);
    let cd5 = Scalar::spec_from_int(56);
    lemma_from_int_value(56);
    let cq5 = x2.spec_div(cd5);
    assert(0 <= x2.raw * SCALE - 4_895_637_103 * cd5.raw < cd5.raw) by (nonlinear_arith)
        requires
            x2.raw == 274_155_677_807,
            cd5.raw == 56_000_000_000_000,
            SCALE == 1_000_000_000_000,
    ;
    lemma_div_value(x2, cd5, 4_895_637_103);
    let ct5 = cq5.spec_mul(c4);
    assert(0 <= cq5.raw * c4.raw - 4_880_755_066 * SCALE < SCALE) by (nonlinear_arith)
        requires
            cq5.raw == 4_895_637_103,
            c4.raw == 996_960_142_996,
            SCALE == 1_000_000_000_000,
    ;
    lemma_mul_value(cq5, c4, 4_880_755_066);
    let c5 = spec_nested(x2, 7, 5);
    assert(7 * (7 + 1) == 56);
    assert(c5 == one.spec_sub(ct5));
    assert(c5.raw == 995_119_244_934);
    let cd6 = Scalar::spec_from_int(30);
    lemma_from_int_value(30);
    let cq6 = x2.spec_div(cd6);
    assert(0 <= x2.raw * SCALE - 9_138_522_593 * cd6.raw < cd6.raw) by (nonlinear_arith)
        requires
            x2.raw == 274_155_677_807,
            cd6.raw == 30_000_000_000_000,
            SCALE == 1_000_000_000_000,
    ;
    lemma_div_value(x2, cd6, 9_138_522_593);
    let ct6 = cq6.spec_mul(c5);
    assert(0 <= cq6.raw * c5.raw - 9_093_919_702 * SCALE < SCALE) by (nonlinear_arith)
        requires
            cq6.raw == 9_138_522_593,
            c5.raw == 995_119_244_934,
            SCALE == 1_000_000_000_000,
    ;
    lemma_mul_value(cq6, c5, 9_093_919_702);
    let c6 = spec_nested(x2, 5, 6);
    assert(5 * (5 + 1) == 30);
    assert(c6 == one.spec_sub(ct6));
    assert(c6.raw == 990_906_080_298);
    let cd7 = Scalar::spec_from_int(12);
    lemma_from_int_value(12);
    let cq7 = x2.spec_div(cd7);
    assert(0 <= x2.raw * SCALE - 22_846_306_483 * cd7.raw < cd7.raw) by (nonlinear_arith)
        requires
            x2.raw == 274_155_677_807,
            cd7.raw == 12_000_000_000_000,
            SCALE == 1_000_000_000_000,
    ;
    lemma_div_value(x2, cd7, 22_846_306_483);
    let ct7 = cq7.spec_mul(c6);
    assert(0 <= cq7.raw * c6.raw - 22_638_544_006 * SCALE < SCALE) by (nonlinear_arith)
        requires
            cq7.raw == 22_846_306_483,
            c6.raw == 990_906_080_298,
            SCALE == 1_000_000_000_000,
    ;
    lemma_mul_value(cq7, c6, 22_638_544_006);
    let c7 = spec_nested(x2, 3, 7);
    assert(3 * (3 + 1) == 12);
    assert(c7 == one.spec_sub(ct7));
    assert(c7.raw == 977_361_455_994);
    let cd8 = Scalar::spec_from_int(2);
    lemma_from_int_value(2);
    let cq8 = x2.spec_div(cd8);
    assert(0 <= x2.raw * SCALE - 137_077_838_903 * cd8.raw < cd8.raw) by (nonlinear_arith)
        requires
            x2.raw == 274_155_677_807,
            cd8.raw == 2_000_000_000_000,
            SCALE == 1_000_000_000_000,
    ;
    lemma_div_value(x2, cd8, 137_077_838_903);
    let ct8 = cq8.spec_mul(c7);
    assert(0 <= cq8.raw * c7.raw - 133_974_596_214 * SCALE < SCALE) by (nonlinear_arith)
        requires
            cq8.raw == 137_077_838_903,
            c7.raw == 977_361_455_994,
            SCALE == 1_000_000_000_000,
    ;
    lemma_mul_value(cq8, c7, 133_974_596_214);
    let c8 = spec_nested(x2, 1, 8);
    assert(1 * (1 + 1) == 2);
    assert(c8 == one.spec_sub(ct8));
    assert(c8.raw == 866_025_403_786);
    let s0 = spec_nested(x2, 18, 0);
    assert(s0 == one);
    let sd1 = Scalar::spec_from_int(272);
    lemma_from_int_value(272);
    let sq1 = x2.spec_div(sd1);
    assert(0 <= x2.raw * SCALE - 1_007_925_286 * sd1.raw < sd1.raw) by (nonlinear_arith)
        requires
            x2.raw == 274_155_677_807,
            sd1.raw == 272_000_000_000_000,
            SCALE == 1_000_000_000_000,
    ;
    lemma_div_value(x2, sd1, 1_007_925_286);
    let st1 = sq1.spec_mul(s0);
    assert(0 <= sq1.raw * s0.raw - 1_007_925_286 * SCALE < SCALE) by (nonlinear_arith)
        requires
            sq1.raw == 1_007_925_286,
            s0.raw == 1_000_000_000_000,
            SCALE == 1_000_000_000_000,
    ;
    lemma_mul_value(sq1, s0, 1_007_925_286);
    let s1 = spec_nested(x2, 16, 1);
    assert(16 * (16 + 1) == 272);
    assert(s1 == one.spec_sub(st1));
    assert(s1.raw == 998_992_074_714);
    let sd2 = Scalar::spec_from_int(210);
    lemma_from_int_value(210);
    let sq2 = x2.spec_div(sd2);
    assert(0 <= x2.raw * SCALE - 1_305_503_227 * sd2.raw < sd2.raw) by (nonlinear_arith)
        requires
            x2.raw == 274_155_677_807,
            sd2.raw == 210_000_000_000_000,
            SCALE == 1_000_000_000_000,
    ;
    lemma_div_value(x2, sd2, 1_305_503_227);
    let st2 = sq2.spec_mul(s1);
    assert(0 <= sq2.raw * s1.raw - 1_304_187_377 * SCALE < SCALE) by (nonlinear_arith)
        requires
            sq2.raw == 1_305_503_227,
            s1.raw == 998_992_074_714,
            SCALE == 1_000_000_000_000,
    ;
    lemma_mul_value(sq2, s1, 1_304_187_377);
    let s2 = spec_nested(x2, 14, 2);
    assert(14 * (14 + 1) == 210);
    assert(s2 == one.spec_sub(st2));
    assert(s2.raw == 998_695_812_623);
    let sd3 = Scalar::spec_from_int(156);
    lemma_from_int_value(156);
    let sq3 = x2.spec_div(sd3);
    assert(0 <= x2.raw * SCALE - 1_757_408_191 * sd3.raw < sd3.raw) by (nonlinear_arith)
        requires
            x2.raw == 274_155_677_807,
            sd3.raw == 156_000_000_000_000,
            SCALE == 1_000_000_000_000,
    ;
    lemma_div_value(x2, sd3, 1_757_408_191);
    let st3 = sq3.spec_mul(s2);
    assert(0 <= sq3.raw * s2.raw - 1_755_116_201 * SCALE < SCALE) by (nonlinear_arith)
        requires
            sq3.raw == 1_757_408_191,
            s2.raw == 998_695_812_623,
            SCALE == 1_000_000_000_000,
    ;
    lemma_mul_value(sq3, s2, 1_755_116_201);
    let s3 = spec_nested(x2, 12, 3);
    assert(12 * (12 + 1) == 156);
    assert(s3 == one.spec_sub(st3));
    assert(s3.raw == 998_244_883_799);
    let sd4 = Scalar::spec_from_int(110);
    lemma_from_int_value(110);
    let sq4 = x2.spec_div(sd4);
    assert(0 <= x2.raw * SCALE - 2_492_324_343 * sd4.raw < sd4.raw) by (nonlinear_arith)
        requires
            x2.raw == 274_155_677_807,
            sd4.raw == 110_000_000_000_000,
            SCALE == 1_000_000_000_000,
    ;
    lemma_div_value(x2, sd4, 2_492_324_343);
    let st4 = sq4.spec_mul(s3);
    assert(0 <= sq4.raw * s3.raw - 2_487_950_024 * SCALE < SCALE) by (nonlinear_arith)
        requires
            sq4.raw == 2_492_324_343,
            s3.raw == 998_244_883_799,
            SCALE == 1_000_000_000_000,
    ;
    lemma_mul_value(sq4, s3, 2_487_950_024);
    let s4 = spec_nested(x2, 10, 4);
    assert(10 * (10 + 1) == 110);
    assert(s4 == one.spec_sub(st4));
    assert(s4.raw == 997_512_049_976);
    let sd5 = Scalar::spec_from_int(72);
    lemma_from_int_value(72);
    let sq5 = x2.spec_div(sd5);
    assert(0 <= x2.raw * SCALE - 3_807_717_747 * sd5.raw < sd5.raw) by (nonlinear_arith)
        requires
            x2.raw == 274_155_677_807,
            sd5.raw == 72_000_000_000_000,
            SCALE == 1_000_000_000_000,
    ;
    lemma_div_value(x2, sd5, 3_807_717_747);
    let st5 = sq5.spec_mul(s4);
    assert(0 <= sq5.raw * s4.raw - 3_798_244_335 * SCALE < SCALE) by (nonlinear_arith)
        requires
            sq5.raw == 3_807_717_747,
            s4.raw == 997_512_049_976,
            SCALE == 1_000_000_000_000,
    ;
    lemma_mul_value(sq5, s4, 3_798_244_335);
    let s5 = spec_nested(x2, 8, 5);
    assert(8 * (8 + 1) == 72);
    assert(s5 == one.spec_sub(st5));
    assert(s5.raw == 996_201_755_665);
    let sd6 = Scalar::spec_from_int(42);
    lemma_from_int_value(42);
    let sq6 = x2.spec_div(sd6);
    assert(0 <= x2.raw * SCALE - 6_527_516_138 * sd6.raw < sd6.raw) by (nonlinear_arith)
        requires
            x2.raw == 274_155_677_807,
            sd6.raw == 42_000_000_000_000,
            SCALE == 1_000_000_000_000,
    ;
    lemma_div_value(x2, sd6, 6_527_516_138);
    let st6 = sq6.spec_mul(s5);
    assert(0 <= sq6.raw * s5.raw - 6_502_723_036 * SCALE < SCALE) by (nonlinear_arith)
        requires
            sq6.raw == 6_527_516_138,
            s5.raw == 996_201_755_665,
            SCALE == 1_000_000_000_000,
    ;
    lemma_mul_value(sq6, s5, 6_502_723_036);
    let s6 = spec_nested(x2, 6, 6);
    assert(6 * (6 + 1) == 42);
    assert(s6 == one.spec_sub(st6));
    assert(s6.raw == 993_497_276_964);
    let sd7 = Scalar::spec_from_int(20);
    lemma_from_int_value(20);
    let sq7 = x2.spec_div(sd7);
    assert(0 <= x2.raw * SCALE - 13_707_783_890 * sd7.raw < sd7.raw) by (nonlinear_arith)
        requires
            x2.raw == 274_155_677_807,
            sd7.raw == 20_000_000_000_000,
            SCALE == 1_000_000_000_000,
    ;
    lemma_div_value(x2, sd7, 13_707_783_890);
    let st7 = sq7.spec_mul(s6);
    assert(0 <= sq7.raw * s6.raw - 13_618_645_967 * SCALE < SCALE) by (nonlinear_arith)
        requires
            sq7.raw == 13_707_783_890,
            s6.raw == 993_497_276_964,
            SCALE == 1_000_000_000_000,
    ;
    lemma_mul_value(sq7, s6, 13_618_645_967);
    let s7 = spec_nested(x2, 4, 7);
    assert(4 * (4 + 1) == 20);
    assert(s7 == one.spec_sub(st7));
    assert(s7.raw == 986_381_354_033);
    let sd8 = Scalar::spec_from_int(6);
    lemma_from_int_value(6);
    let sq8 = x2.spec_div(sd8);
    assert(0 <= x2.raw * SCALE - 45_692_612_967 * sd8.raw < sd8.raw) by (nonlinear_arith)
        requires
            x2.raw == 274_155_677_807,
            sd8.raw == 6_000_000_000_000,
            SCALE == 1_000_000_000_000,
    ;
    lemma_div_value(x2, sd8, 45_692_612_967);
    let st8 = sq8.spec_mul(s7);
    assert(0 <= sq8.raw * s7.raw - 45_070_341_447 * SCALE < SCALE) by (nonlinear_arith)
        requires
            sq8.raw == 45_692_612_967,
            s7.raw == 986_381_354_033,
            SCALE == 1_000_000_000_000,
    ;
    lemma_mul_value(sq8, s7, 45_070_341_447);
    let s8 = spec_nested(x2, 2, 8);
    assert(2 * (2 + 1) == 6);
    assert(s8 == one.spec_sub(st8));
    assert(s8.raw == 954_929_658_553);
    assert(spec_cos(x) == c8);
    let sine = x.spec_mul(s8);
    assert(0 <= x.raw * s8.raw - 500_000_000_000 * SCALE < SCALE) by (nonlinear_arith)
        requires
            x.raw == 523_598_775_598,
            s8.raw == 954_929_658_553,
            SCALE == 1_000_000_000_000,
    ;
    lemma_mul_value(x, s8, 500_000_000_000);
    assert(spec_sin(x) == sine);
}

} // verus!
