use vstd::prelude::*;

verus! {

/// An axis reading, held as the bit pattern of an IEEE-754 single-precision number.
///
/// The state model never does arithmetic on readings: it stores them, writes zero,
/// and asks whether a reading is greater than zero. All three are exact on the bits.
#[derive(Clone, Copy, Debug, PartialEq, Eq, Structural)]
pub struct AxisValue {
    pub bits: u32,
}

/// The bits of positive zero.
pub const ZERO_BITS: u32 = 0;

/// The bits of positive infinity; above it, with the sign bit clear, lie the NaNs.
pub const POSITIVE_INFINITY_BITS: u32 = 0x7f80_0000;

/// Whether the reading with these bits compares greater than zero: the sign bit is
/// clear, the number is not zero, and it is not a NaN.
pub open spec fn bits_greater_than_zero(bits: u32) -> bool {
    0 < bits <= POSITIVE_INFINITY_BITS
}

impl AxisValue {
    pub open spec fn spec_is_positive(self) -> bool {
        bits_greater_than_zero(self.bits)
    }

    /// The reading zero.
    pub fn zero() -> (r: AxisValue)
        ensures
            r.bits == ZERO_BITS,
    {
        AxisValue { bits: ZERO_BITS }
    }

    /// The reading whose IEEE-754 single-precision encoding is `bits`.
    pub fn from_bits(bits: u32) -> (r: AxisValue)
        ensures
            r.bits == bits,
    {
        AxisValue { bits }
    }

    /// The IEEE-754 single-precision encoding of the reading.
    pub fn to_bits(&self) -> (r: u32)
        ensures
            r == self.bits,
    {
        self.bits
    }

    /// Whether the reading compares greater than zero (false for zero of either sign,
    /// for negative numbers and for NaN).
    pub fn is_positive(&self) -> (r: bool)
        ensures
            r == self.spec_is_positive(),
    {
        0 < self.bits && self.bits <= POSITIVE_INFINITY_BITS
    }
}

/// A pair of axis readings, such as a pointer position or a motion delta.
#[derive(Clone, Copy, Debug, PartialEq, Eq, Structural)]
pub struct Vec2 {
    pub x: AxisValue,
    pub y: AxisValue,
}

impl Vec2 {
    pub fn new(x: AxisValue, y: AxisValue) -> (r: Vec2)
        ensures
            r.x == x,
            r.y == y,
    {
        Vec2 { x, y }
    }
}

/// Whether a receiver is engaged, and since when.
#[derive(Clone, Copy, Debug, PartialEq, Eq, Structural)]
pub enum PressState {
    /// Engaged; `started_pressing_instant`, when known, is the tick count at which
    /// continuous pressing began.
    Pressed { started_pressing_instant: Option<u64> },
    /// Not engaged.
    Released,
}

impl PressState {
    pub open spec fn spec_is_pressed(self) -> bool {
        self is Pressed
    }

    /// Pressed, with no start instant recorded.
    pub fn pressed_now() -> (r: PressState)
        ensures
            r == (PressState::Pressed { started_pressing_instant: None }),
    {
        PressState::Pressed { started_pressing_instant: None }
    }

    /// Whether the receiver is engaged.
    pub fn is_pressed(&self) -> (r: bool)
        ensures
            r == self.spec_is_pressed(),
    {
        match self {
            PressState::Pressed { .. } => true,
            PressState::Released => false,
        }
    }
}

} // verus!
