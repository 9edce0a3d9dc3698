//! Encoding of the WS2812 status LED frame.
//!
//! The LED takes 24 bits, green, red, blue, most significant bit first; each
//! bit is a high pulse followed by a low pulse whose lengths tell a `1` from
//! a `0`. The caller turns the bits into RMT pulses and sends them.
use vstd::prelude::*;

verus! {

/// High time of a `0` bit, nanoseconds.
pub const T0H_NS: u64 = 350;
/// Low time of a `0` bit, nanoseconds.
pub const T0L_NS: u64 = 900;
/// High time of a `1` bit, nanoseconds.
pub const T1H_NS: u64 = 900;
/// Low time of a `1` bit, nanoseconds.
pub const T1L_NS: u64 = 350;
/// Minimum idle time after a frame for the LED to latch it, nanoseconds.
pub const RESET_NS: u64 = 280_000;

/// An RGB colour (no gamma correction, no alpha).
#[derive(Debug, Clone, Copy, PartialEq, Eq, Structural)]
pub struct Color {
    /// Red channel.
    pub r: u8,
    /// Green channel.
    pub g: u8,
    /// Blue channel.
    pub b: u8,
}

impl Color {
    /// Black: the LED is off.
    pub fn off() -> (c: Color)
        ensures
            c == (Color { r: 0, g: 0, b: 0 }),
    {
        Color { r: 0, g: 0, b: 0 }
    }

    /// The machine is ready.
    pub fn ready() -> (c: Color)
        ensures
            c == (Color { r: 0, g: 40, b: 0 }),
    {
        Color { r: 0, g: 40, b: 0 }
    }

    /// A print is running.
    pub fn printing() -> (c: Color)
        ensures
            c == (Color { r: 0, g: 0, b: 40 }),
    {
        Color { r: 0, g: 0, b: 40 }
    }

    /// A warning is pending.
    pub fn warning() -> (c: Color)
        ensures
            c == (Color { r: 40, g: 40, b: 0 }),
    {
        Color { r: 40, g: 40, b: 0 }
    }

    /// A critical error occurred.
    pub fn error() -> (c: Color)
        ensures
            c == (Color { r: 60, g: 0, b: 0 }),
    {
        Color { r: 60, g: 0, b: 0 }
    }

    /// The firmware is starting up.
    pub fn boot() -> (c: Color)
        ensures
            c == (Color { r: 0, g: 0, b: 15 }),
    {
        Color { r: 0, g: 0, b: 15 }
    }
}

/// Bit `7 - k` of `byte`: the `k`-th bit sent when the byte goes out most
/// significant bit first.
pub open spec fn msb_first_bit(byte: u8, k: int) -> bool {
    (byte >> ((7 - k) as u8)) & 1 != 0
}

/// The 24 bits of a colour frame in transmission order: green, red, blue,
/// each most significant bit first.
pub open spec fn frame_bits(c: Color) -> Seq<bool> {
    Seq::new(
        24,
        |i: int|
            if i < 8 {
                msb_first_bit(c.g, i)
            } else if i < 16 {
                msb_first_bit(c.r, i - 8)
            } else {
                msb_first_bit(c.b, i - 16)
            },
    )
}

/// The bits of one colour frame, in the order they are sent.
pub fn ws2812_bits(color: Color) -> (bits: Vec<bool>)
    ensures
        bits@ == frame_bits(color),
{
    let bytes: [u8; 3] = [color.g, color.r, color.b];
    let mut bits: Vec<bool> = Vec::new();
    let mut k: usize = 0;
    while k < 3
        invariant
            0 <= k <= 3,
            bytes@ == seq![color.g, color.r, color.b],
            bits@.len() == 8 * k,
            forall|i: int| 0 <= i < 8 * k ==> #[trigger] bits@[i] == frame_bits(color)[i],
        decreases 3 - k,
    {
        let byte = bytes[k];
        let mut bit_index: u8 = 8;
        while bit_index > 0
            invariant
                0 <= k < 3,
                bytes@ == seq![color.g, color.r, color.b],
                byte == bytes@[k as int],
                0 <= bit_index <= 8,
                bits@.len() == 8 * k + (8 - bit_index),
                forall|i: int| 0 <= i < 8 * k ==> #[trigger] bits@[i] == frame_bits(color)[i],
                forall|j: int|
                    0 <= j < 8 - bit_index ==> #[trigger] bits@[8 * k + j] == msb_first_bit(
                        byte,
                        j,
                    ),
            decreases bit_index,
        {
            bit_index = bit_index - 1;
            let bit_is_set = (byte >> bit_index) & 1 != 0;
            proof {
                assert(msb_first_bit(byte, (8 - bit_index - 1) as int) == bit_is_set) by {
                    assert((7 - (8 - bit_index - 1)) as u8 == bit_index);
                }
            }
            bits.push(bit_is_set);
        }
        proof {
            assert forall|i: int| 0 <= i < 8 * (k + 1) implies #[trigger] bits@[i] == frame_bits(
                color,
            )[i] by {
                if i >= 8 * k {
                    assert(bits@[8 * k + (i - 8 * k)] == msb_first_bit(byte, i - 8 * k));
                }
            }
        }
        k = k + 1;
    }
    bits
}

/// Timer ticks of a pulse of `ns` nanoseconds at a tick rate of
/// `ticks_hz` (rounded down).
pub fn ns_to_ticks(ticks_hz: u32, ns: u64) -> (t: u64)
    requires
        ticks_hz * ns <= u64::MAX,
    ensures
        t == (ticks_hz * ns) / 1_000_000_000,
{
    (ticks_hz as u64 * ns) / 1_000_000_000
}

} // verus!
