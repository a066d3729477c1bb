use core::sync::atomic::{AtomicI16, Ordering};
use vstd::prelude::*;

verus! {

/// The 8-bit projection of a mapped 16-bit axis value: its high byte, as an
/// arithmetic shift right by eight would give.
pub open spec fn narrowed(v: int) -> int {
    v / 256
}

/// The byte that carries the signed 8-bit value `v` on the wire (two's
/// complement).
pub open spec fn wire_byte(v: int) -> int {
    if v >= 0 {
        v
    } else {
        v + 256
    }
}

/// The wire byte of a signed 8-bit value.
fn to_wire_byte(v: i8) -> (r: u8)
    ensures
        r as int == wire_byte(v as int),
{
    if v >= 0 {
        v as u8
    } else {
        (v as i16 + 256) as u8
    }
}

/// Narrows a mapped 16-bit axis value to the 8 bits the report carries.
pub fn narrow_axis(v: i16) -> (r: i8)
    ensures
        r as int == narrowed(v as int),
{
    let shifted: u16 = (v as i32 + 32768) as u16;
    let high: u16 = shifted / 256;
    proof {
        let s = v as int + 32768;
        assert(s / 256 == v as int / 256 + 128) by {
            vstd::arithmetic::div_mod::lemma_div_plus_one(v as int, 256);
            vstd::arithmetic::div_mod::lemma_hoist_over_denominator(v as int, 128, 256);
        }
    }
    (high as i16 - 128) as i8
}

/// One HID report: three signed 8-bit axes and a button bitfield, laid out
/// on the wire as four bytes in this order.
#[derive(Clone, Copy, Debug, PartialEq, Eq, Structural)]
pub struct PedalboxReport {
    pub x: i8,
    pub y: i8,
    pub z: i8,
    pub buttons: u8,
}

impl PedalboxReport {
    /// The four bytes of this report on the wire.
    pub open spec fn wire(&self) -> Seq<u8> {
        seq![
            wire_byte(self.x as int) as u8,
            wire_byte(self.y as int) as u8,
            wire_byte(self.z as int) as u8,
            self.buttons,
        ]
    }

    /// Builds the report for the mapped axis values `x`, `y`, `z`; no button
    /// is pressed.
    pub fn from_axes(x: i16, y: i16, z: i16) -> (r: PedalboxReport)
        ensures
            r == report_of(x, y, z),
    {
        PedalboxReport { x: narrow_axis(x), y: narrow_axis(y), z: narrow_axis(z), buttons: 0 }
    }

    /// The report's four bytes as they are sent: x, y, z, then the buttons.
    pub fn to_bytes(&self) -> (r: [u8; 4])
        ensures
            r@ == self.wire(),
    {
        let r = [to_wire_byte(self.x), to_wire_byte(self.y), to_wire_byte(self.z), self.buttons];
        assert(r@ =~= self.wire());
        r
    }
}

/// The report for the mapped axis values `x`, `y`, `z` with no button pressed.
pub open spec fn report_of(x: i16, y: i16, z: i16) -> PedalboxReport {
    PedalboxReport {
        x: narrowed(x as int) as i8,
        y: narrowed(y as int) as i8,
        z: narrowed(z as int) as i8,
        buttons: 0,
    }
}

/// Whatever the axis values, the report built from them puts the narrowed
/// x, y and z values in its first three bytes, in that order, and a zero
/// button byte last.
pub proof fn lemma_report_layout(x: i16, y: i16, z: i16)
    ensures
        report_of(x, y, z).wire().len() == 4,
        report_of(x, y, z).wire()[0] as int == wire_byte(narrowed(x as int)),
        report_of(x, y, z).wire()[1] as int == wire_byte(narrowed(y as int)),
        report_of(x, y, z).wire()[2] as int == wire_byte(narrowed(z as int)),
        report_of(x, y, z).wire()[3] == 0,
{
    lemma_narrowed_fits(x as int);
    lemma_narrowed_fits(y as int);
    lemma_narrowed_fits(z as int);
}

/// The narrowed value of a 16-bit value fits in 8 signed bits.
proof fn lemma_narrowed_fits(v: int)
    requires
        i16::MIN <= v <= i16::MAX,
    ensures
        i8::MIN <= narrowed(v) <= i8::MAX,
{
}

/// The three axis slots that the monitors publish into and the report is
/// built from.
pub struct AxisSlots {
    pub x: &'static AtomicI16,
    pub y: &'static AtomicI16,
    pub z: &'static AtomicI16,
}

impl AxisSlots {
    /// Reads each slot once, independently of the others, and builds the
    /// report from what they hold. The buttons are always released.
    pub fn sample_report(&self) -> (r: PedalboxReport)
        ensures
            exists|x: i16, y: i16, z: i16| r == report_of(x, y, z),
    {
        let x = self.x.load(Ordering::Relaxed);
        let y = self.y.load(Ordering::Relaxed);
        let z = self.z.load(Ordering::Relaxed);
        PedalboxReport::from_axes(x, y, z)
    }
}

} // verus!
