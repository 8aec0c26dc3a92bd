//! Model of the synchronous serial link to the display controller.
//!
//! The physical link is four digital lines (clock, data, reset, mode-select)
//! driven by the surrounding platform layer. The library describes everything
//! that travels over the link as a sequence of [`WireByte`] values: the
//! mode-select line is high for a command byte and low for a data byte, and
//! each byte is shifted out most significant bit first on the data line, one
//! bit per rising clock edge. [`msb_first_levels`] computes the data-line
//! levels for one byte in transmission order.

use vstd::prelude::*;

verus! {

/// One byte on the wire, tagged with the level of the mode-select line.
#[derive(Clone, Copy, Debug, PartialEq, Eq, Structural)]
pub enum WireByte {
    /// Sent with the mode-select line high: a controller command byte.
    Command(u8),
    /// Sent with the mode-select line low: one byte of pixel data.
    Data(u8),
}

/// The level of the data line for bit `i` of `value`, counting bits in
/// transmission order: bit 0 on the wire is the most significant bit.
pub open spec fn bit_level(value: u8, i: int) -> bool {
    value & (1u8 << ((7 - i) as u8)) != 0
}

/// Data-line levels for one byte, most significant bit first: the order in
/// which the bits are clocked out on the link.
pub fn msb_first_levels(value: u8) -> (levels: Vec<bool>)
    ensures
        levels@.len() == 8,
        forall|i: int| 0 <= i < 8 ==> levels@[i] == bit_level(value, i),
{
    let mut levels: Vec<bool> = Vec::new();
    let mut i: u8 = 0;
    while i < 8
        invariant
            i <= 8,
            levels@.len() == i as int,
            forall|j: int| 0 <= j < i as int ==> levels@[j] == bit_level(value, j),
        decreases 8 - i,
    {
        let shift: u8 = 7 - i;
        let level: bool = value & (1u8 << shift) != 0;
        levels.push(level);
        i = i + 1;
    }
    levels
}

} // verus!
