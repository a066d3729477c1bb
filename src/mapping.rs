use vstd::prelude::*;

verus! {

/// Lowest value of the signed 16-bit output range.
pub open spec fn out_min() -> int {
    i16::MIN as int
}

/// Width of the signed 16-bit output range (`i16::MAX - i16::MIN`).
pub open spec fn out_span() -> int {
    i16::MAX as int - i16::MIN as int
}

/// `v` clamped to `[min, max]`.
pub open spec fn clamp_to(v: int, min: int, max: int) -> int {
    if v < min {
        min
    } else if v > max {
        max
    } else {
        v
    }
}

/// The mapped value of reading `v` for the input range `[min, max]`.
///
/// The reading is clamped to the range and scaled linearly onto
/// `[i16::MIN, i16::MAX]`, the division truncating. A range of width zero
/// always yields `i16::MIN`.
pub open spec fn mapped_value(v: int, min: int, max: int) -> int {
    if max - min == 0 {
        out_min()
    } else {
        (clamp_to(v, min, max) - min) * out_span() / (max - min) + out_min()
    }
}

/// For an offset within a range of positive width `w`, the scaled offset
/// `offset * 65535 / w` lies in `[0, 65535]`, and the product fits in 128 bits.
proof fn lemma_scaled_bounds(offset: int, w: int)
    requires
        0 <= offset <= w,
        0 < w < 0x1_0000_0000_0000_0000,
    ensures
        0 <= offset * 65535 <= w * 65535,
        w * 65535 < 0x1_0000_0000_0000_0000_0000,
        0 <= offset * 65535 / w <= 65535,
{
    assert(0 <= offset * 65535 <= w * 65535) by (nonlinear_arith)
        requires
            0 <= offset <= w,
    ;
    vstd::arithmetic::div_mod::lemma_div_is_ordered(offset * 65535, w * 65535, w);
    vstd::arithmetic::div_mod::lemma_div_pos_is_pos(offset * 65535, w);
    vstd::arithmetic::div_mod::lemma_div_by_multiple(65535, w);
    assert(w * 65535 == 65535 * w) by (nonlinear_arith);
}

/// For a range of positive width, the low end maps to `i16::MIN`, the high
/// end to `i16::MAX`, and the mapping does not decrease between them.
pub proof fn lemma_map_ends_and_monotone(v1: int, v2: int, min: int, max: int)
    requires
        min < max,
    ensures
        mapped_value(min, min, max) == i16::MIN as int,
        mapped_value(max, min, max) == i16::MAX as int,
        min <= v1 <= v2 <= max ==> mapped_value(v1, min, max) <= mapped_value(v2, min, max),
{
    let w = max - min;
    vstd::arithmetic::div_mod::lemma_div_by_multiple(65535, w);
    assert(w * 65535 == 65535 * w) by (nonlinear_arith);
    assert(0int * 65535 / w == 0);
    if min <= v1 <= v2 <= max {
        assert((v1 - min) * 65535 <= (v2 - min) * 65535) by (nonlinear_arith)
            requires
                v1 <= v2,
        ;
        vstd::arithmetic::div_mod::lemma_div_is_ordered((v1 - min) * 65535, (v2 - min) * 65535, w);
    }
}

/// A reading outside the range maps as the nearest end of the range does:
/// the output saturates instead of wrapping around.
pub proof fn lemma_map_saturates(v: int, min: int, max: int)
    requires
        min <= max,
    ensures
        v < min ==> mapped_value(v, min, max) == mapped_value(min, min, max),
        v > max ==> mapped_value(v, min, max) == mapped_value(max, min, max),
{
}

/// A range of width zero maps every reading to `i16::MIN`.
pub proof fn lemma_map_empty_range(v: int, min: int, max: int)
    requires
        min == max,
    ensures
        mapped_value(v, min, max) == i16::MIN as int,
{
}

/// Mapping keeps no hidden state: two calls on the same reading and range
/// give the same result.
pub proof fn lemma_map_deterministic(v: int, min: int, max: int, r1: i16, r2: i16)
    requires
        r1 as int == mapped_value(v, min, max),
        r2 as int == mapped_value(v, min, max),
    ensures
        r1 == r2,
{
}

/// Maps `value` from the input range `[min, max]` onto `[i16::MIN, i16::MAX]`.
///
/// The reading is first clamped to the range, so readings outside it
/// saturate at the ends. The arithmetic runs in 128 bits and cannot
/// overflow for any 64-bit input.
pub fn map_range(value: i64, min: i64, max: i64) -> (r: i16)
    requires
        min <= max,
    ensures
        r as int == mapped_value(value as int, min as int, max as int),
{
    let clamped: i64 = if value < min {
        min
    } else if value > max {
        max
    } else {
        value
    };
    let range_in: i128 = max as i128 - min as i128;
    let range_out: i128 = i16::MAX as i128 - i16::MIN as i128;
    if range_in != 0 {
        let offset: i128 = clamped as i128 - min as i128;
        assert(0 <= offset <= range_in);
        proof {
            lemma_scaled_bounds(offset as int, range_in as int);
        }
        let scaled: i128 = offset * range_out / range_in;
        (scaled + i16::MIN as i128) as i16
    } else {
        i16::MIN
    }
}

/// A raw reading that can be mapped onto the signed 16-bit output range.
///
/// Implemented for the integer types whose values all fit in an `i64`.
pub trait Mapping: Copy {
    /// The reading as a mathematical integer.
    spec fn wide(&self) -> int;

    /// The reading widened to 64 bits.
    fn to_i64(&self) -> (r: i64)
        ensures
            r as int == self.wide(),
    ;

    /// Maps this reading from the input range `[min, max]` onto
    /// `[i16::MIN, i16::MAX]`, saturating outside the range; a range of
    /// width zero always yields `i16::MIN`.
    fn map_to_i16(&self, min: Self, max: Self) -> (r: i16)
        requires
            min.wide() <= max.wide(),
        ensures
            r as int == mapped_value(self.wide(), min.wide(), max.wide()),
    {
        map_range(self.to_i64(), min.to_i64(), max.to_i64())
    }
}

impl Mapping for u8 {
    open spec fn wide(&self) -> int {
        *self as int
    }

    fn to_i64(&self) -> (r: i64) {
        *self as i64
    }
}

impl Mapping for u16 {
    open spec fn wide(&self) -> int {
        *self as int
    }

    fn to_i64(&self) -> (r: i64) {
        *self as i64
    }
}

impl Mapping for u32 {
    open spec fn wide(&self) -> int {
        *self as int
    }

    fn to_i64(&self) -> (r: i64) {
        *self as i64
    }
}

impl Mapping for i8 {
    open spec fn wide(&self) -> int {
        *self as int
    }

    fn to_i64(&self) -> (r: i64) {
        *self as i64
    }
}

impl Mapping for i16 {
    open spec fn wide(&self) -> int {
        *self as int
    }

    fn to_i64(&self) -> (r: i64) {
        *self as i64
    }
}

impl Mapping for i32 {
    open spec fn wide(&self) -> int {
        *self as int
    }

    fn to_i64(&self) -> (r: i64) {
        *self as i64
    }
}

impl Mapping for i64 {
    open spec fn wide(&self) -> int {
        *self as int
    }

    fn to_i64(&self) -> (r: i64) {
        *self
    }
}

} // verus!
