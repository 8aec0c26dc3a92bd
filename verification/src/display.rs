//! Driver for a 128 by 64 monochrome dot-matrix display controller.
//!
//! The driver owns an off-screen framebuffer laid out exactly as the
//! controller's internal RAM: 128 columns of 8 pages, one byte per column and
//! page, each byte holding 8 vertically stacked pixels. Drawing primitives
//! mutate only the framebuffer; [`OLED::refresh`] serializes it into the
//! outgoing wire queue, from which the platform layer shifts the bytes out
//! over the four-line serial link bit by bit.

use vstd::prelude::*;

use crate::font;
use crate::link::WireByte;

verus! {

/// Error raised by the drawing primitives.
#[derive(Debug, PartialEq, Eq, Structural)]
pub enum OLEDError {
    /// The pixel coordinate lies outside the 128 by 64 addressable area.
    OutOfBounds,
}

/// Display driver state: the off-screen framebuffer and the queue of bytes
/// waiting to be shifted out over the serial link.
pub struct OLED {
    gram: [[u8; 8]; 128],
    wire: Vec<WireByte>,
}

/// The page holding pixel row `y`: pages run top to bottom as `y` increases,
/// but the page index decreases.
pub open spec fn page_of(y: int) -> int {
    7 - y / 8
}

/// The bit for pixel row `y` within its page byte: bit 7 of the byte is the
/// smallest `y` of the group of eight rows.
pub open spec fn bit_mask(y: int) -> u8 {
    1u8 << ((7 - y % 8) as u8)
}

/// Whether the pixel at `(x, y)` is on in framebuffer `fb`, read through the
/// page and mask mapping.
pub open spec fn pixel_on(fb: Seq<Seq<u8>>, x: int, y: int) -> bool {
    fb[x][page_of(y)] & bit_mask(y) != 0
}

/// An all-zero framebuffer: every pixel off.
pub open spec fn blank_fb() -> Seq<Seq<u8>> {
    Seq::new(128, |x: int| Seq::new(8, |p: int| 0u8))
}

/// `fb` after setting (`fill`) or clearing (`!fill`) the single pixel at
/// `(x, y)`; all other storage cells keep their value.
pub open spec fn point_applied(fb: Seq<Seq<u8>>, x: int, y: int, fill: bool) -> Seq<Seq<u8>> {
    let p = page_of(y);
    let b = if fill {
        fb[x][p] | bit_mask(y)
    } else {
        fb[x][p] & !bit_mask(y)
    };
    fb.update(x, fb[x].update(p, b))
}

/// A framebuffer of the right shape: 128 columns of 8 page bytes.
pub open spec fn fb_shaped(fb: Seq<Seq<u8>>) -> bool {
    fb.len() == 128 && forall|x: int| 0 <= x < 128 ==> (#[trigger] fb[x]).len() == 8
}

/// Setting or clearing a pixel and reading it back through the page and mask
/// mapping yields exactly the value written.
pub proof fn lemma_point_round_trip(fb: Seq<Seq<u8>>, x: int, y: int, fill: bool)
    requires
        fb_shaped(fb),
        0 <= x < 128,
        0 <= y < 64,
    ensures
        pixel_on(point_applied(fb, x, y, fill), x, y) == fill,
{
    let s = (7 - y % 8) as u8;
    let b = fb[x][page_of(y)];
    assert((b | (1u8 << s)) & (1u8 << s) != 0) by (bit_vector)
        requires
            s < 8,
    ;
    assert((b & !(1u8 << s)) & (1u8 << s) == 0) by (bit_vector)
        requires
            s < 8,
    ;
}

/// Setting or clearing a pixel leaves every other pixel unchanged.
pub proof fn lemma_point_preserves_others(
    fb: Seq<Seq<u8>>,
    x: int,
    y: int,
    fill: bool,
    x2: int,
    y2: int,
)
    requires
        fb_shaped(fb),
        0 <= x < 128,
        0 <= y < 64,
        0 <= x2 < 128,
        0 <= y2 < 64,
        !(x2 == x && y2 == y),
    ensures
        pixel_on(point_applied(fb, x, y, fill), x2, y2) == pixel_on(fb, x2, y2),
{
    if x2 == x && page_of(y2) == page_of(y) {
        let s = (7 - y % 8) as u8;
        let s2 = (7 - y2 % 8) as u8;
        let b = fb[x][page_of(y)];
        assert(y / 8 == y2 / 8 && y % 8 != y2 % 8);
        assert(s != s2 && s < 8 && s2 < 8);
        assert(((b | (1u8 << s)) & (1u8 << s2) != 0) == (b & (1u8 << s2) != 0)
            && ((b & !(1u8 << s)) & (1u8 << s2) != 0) == (b & (1u8 << s2) != 0)) by (bit_vector)
            requires
                s != s2 && s < 8 && s2 < 8,
        ;
    }
}

/// Every pixel of a blank framebuffer reads back as off.
pub proof fn lemma_blank_pixels_off(x: int, y: int)
    requires
        0 <= x < 128,
        0 <= y < 64,
    ensures
        !pixel_on(blank_fb(), x, y),
{
    let s = (7 - y % 8) as u8;
    assert(0u8 & (1u8 << s) == 0) by (bit_vector)
        requires
            s < 8,
    ;
}

/// The fixed boot handshake of the display controller, in the exact order it
/// must reach the hardware: each configuration opcode immediately followed by
/// its argument byte.
pub open spec fn init_wire() -> Seq<WireByte> {
    seq![
        WireByte::Command(0xAE),  // display off
        WireByte::Command(0xD5),  // clock divide ratio / oscillator frequency
        WireByte::Command(80),
        WireByte::Command(0xA8),  // multiplex ratio
        WireByte::Command(0x3F),  // 1/64 duty
        WireByte::Command(0xD3),  // display vertical offset
        WireByte::Command(0x00),
        WireByte::Command(0x40),  // display start line 0
        WireByte::Command(0x8D),  // charge pump
        WireByte::Command(0x14),  // enabled
        WireByte::Command(0x20),  // memory addressing mode
        WireByte::Command(0x02),  // page addressing
        WireByte::Command(0xA1),  // segment remap
        WireByte::Command(0xC0),  // COM output scan direction
        WireByte::Command(0xDA),  // COM pin hardware configuration
        WireByte::Command(0x12),
        WireByte::Command(0x81),  // contrast
        WireByte::Command(0xEF),
        WireByte::Command(0xD9),  // pre-charge period
        WireByte::Command(0xF1),
        WireByte::Command(0xDB),  // VCOMH deselect level
        WireByte::Command(0x30),
        WireByte::Command(0xA4),  // entire display on: follow RAM contents
        WireByte::Command(0xA6),  // normal (non-inverted) polarity
        WireByte::Command(0xAF),  // display on
    ]
}

/// Entry `k` of the byte stream that a full-frame refresh of `fb` puts on the
/// wire: for each page, a page-select command and the two column-address
/// commands (column 0), then the 128 column bytes of that page as data.
pub open spec fn refresh_wire_at(fb: Seq<Seq<u8>>, k: int) -> WireByte {
    let page = k / 131;
    let off = k % 131;
    if off == 0 {
        WireByte::Command((0xB0 + page) as u8)
    } else if off == 1 {
        WireByte::Command(0x00)
    } else if off == 2 {
        WireByte::Command(0x10)
    } else {
        WireByte::Data(fb[off - 3][page])
    }
}

/// The full byte stream of one frame refresh of `fb`: 8 pages of 3 commands
/// and 128 data bytes each.
pub open spec fn refresh_wire(fb: Seq<Seq<u8>>) -> Seq<WireByte> {
    Seq::new(8 * 131, |k: int| refresh_wire_at(fb, k))
}

/// Position arithmetic for the refresh stream: entry `i * 131 + off` belongs
/// to page `i` at offset `off`.
proof fn lemma_wire_index(i: int, off: int)
    requires
        0 <= i,
        0 <= off < 131,
    ensures
        (i * 131 + off) / 131 == i,
        (i * 131 + off) % 131 == off,
{
    assert((i * 131 + off) / 131 == i && (i * 131 + off) % 131 == off) by (nonlinear_arith)
        requires
            0 <= i && 0 <= off < 131,
    ;
}

/// Column byte `t` of the glyph for character `ch` in the table selected by
/// `size` (the font height); the table index is relative to the space
/// character.
pub open spec fn glyph_byte(size: int, ch: u8, t: int) -> u8 {
    if size == 12 {
        font::ASCII_1206[(ch - 32) as int][t]
    } else {
        font::ASCII_1608[(ch - 32) as int][t]
    }
}

/// Whether the glyph pixel at column `c`, row `r` is set. A glyph stores two
/// bytes per pixel column, most significant bit on top.
pub open spec fn glyph_pixel(size: int, ch: u8, c: int, r: int) -> bool {
    glyph_byte(size, ch, 2 * c + r / 8) & (1u8 << ((7 - r % 8) as u8)) != 0
}

/// A pixel write through the bounds check: writes outside the display area
/// are silently dropped, so glyphs running past the edge are not clipped
/// proactively.
pub open spec fn clipped_point(fb: Seq<Seq<u8>>, x: int, y: int, fill: bool) -> Seq<Seq<u8>> {
    if 0 <= x < 128 && 0 <= y < 64 {
        point_applied(fb, x, y, fill)
    } else {
        fb
    }
}

/// `fb` after rendering the first `n` pixels of the glyph for `ch` at
/// `(x, y)`, walking each column top to bottom before advancing: pixel `k`
/// lands at column `k / size`, row `k % size`. A set glyph bit draws
/// `normal`, a clear bit draws `!normal`.
pub open spec fn char_pixels_applied(
    fb: Seq<Seq<u8>>,
    x: int,
    y: int,
    ch: u8,
    size: int,
    normal: bool,
    n: int,
) -> Seq<Seq<u8>>
    decreases n,
{
    if n <= 0 {
        fb
    } else {
        let c = (n - 1) / size;
        let r = (n - 1) % size;
        let fill = glyph_pixel(size, ch, c, r) == normal;
        clipped_point(char_pixels_applied(fb, x, y, ch, size, normal, n - 1), x + c, y + r, fill)
    }
}

/// `fb` after rendering the whole glyph for `ch` at `(x, y)`: `size / 2`
/// columns of `size` pixels each.
pub open spec fn char_applied(
    fb: Seq<Seq<u8>>,
    x: int,
    y: int,
    ch: u8,
    size: int,
    normal: bool,
) -> Seq<Seq<u8>> {
    char_pixels_applied(fb, x, y, ch, size, normal, size * (size / 2))
}

/// Pixel arithmetic for glyph rendering: pixel `c * size + r` of a glyph
/// lies in column `c` at row `r`.
proof fn lemma_glyph_index(c: int, r: int, size: int)
    requires
        0 <= c,
        0 <= r < size,
    ensures
        (c * size + r) / size == c,
        (c * size + r) % size == r,
{
    assert((c * size + r) / size == c && (c * size + r) % size == r) by (nonlinear_arith)
        requires
            0 <= c && 0 <= r < size,
    ;
}

/// 10 to the power `e`.
pub open spec fn pow10(e: nat) -> nat
    decreases e,
{
    if e == 0 {
        1
    } else {
        10 * pow10((e - 1) as nat)
    }
}

/// The ASCII code of digit `t` (counting from the most significant) of `num`
/// rendered with `len` base-10 digits, obtained by repeated division.
pub open spec fn digit_char(num: u32, len: int, t: int) -> u8 {
    (48 + (num as nat / pow10((len - 1 - t) as nat)) % 10) as u8
}

/// `fb` after rendering the first `n` of the `len` digits of `num` at
/// `(x, y)`, each glyph advanced by half the font height. Every digit is
/// rendered, leading zeros included.
pub open spec fn number_digits_applied(
    fb: Seq<Seq<u8>>,
    x: int,
    y: int,
    num: u32,
    len: int,
    size: int,
    n: int,
) -> Seq<Seq<u8>>
    decreases n,
{
    if n <= 0 {
        fb
    } else {
        char_applied(
            number_digits_applied(fb, x, y, num, len, size, n - 1),
            x + (size / 2) * (n - 1),
            y,
            digit_char(num, len, n - 1),
            size,
            true,
        )
    }
}

/// `fb` after rendering all `len` digits of `num`.
pub open spec fn number_applied(
    fb: Seq<Seq<u8>>,
    x: int,
    y: int,
    num: u32,
    len: int,
    size: int,
) -> Seq<Seq<u8>> {
    number_digits_applied(fb, x, y, num, len, size, len)
}

/// The number of characters of `s` before its first null terminator: only
/// these are laid out.
pub open spec fn drawn_len(s: Seq<char>) -> int
    decreases s.len(),
{
    if s.len() == 0 {
        0
    } else if s[0] == '\0' {
        0
    } else {
        1 + drawn_len(s.skip(1))
    }
}

/// `drawn_len` is the position of the first null terminator, or the string
/// length when there is none.
pub proof fn lemma_drawn_len_at(s: Seq<char>, i: int)
    requires
        0 <= i <= s.len(),
        forall|j: int| 0 <= j < i ==> s[j] != '\0',
        i == s.len() || s[i] == '\0',
    ensures
        drawn_len(s) == i,
    decreases s.len(),
{
    if s.len() != 0 && s[0] != '\0' {
        assert(i != 0);
        assert forall|j: int| 0 <= j < i - 1 implies s.skip(1)[j] != '\0' by {
            assert(s.skip(1)[j] == s[j + 1]);
        }
        if i < s.len() {
            assert(s.skip(1)[i - 1] == s[i]);
        }
        lemma_drawn_len_at(s.skip(1), i - 1);
    }
}

/// A null-free prefix bounds `drawn_len` from below.
pub proof fn lemma_drawn_len_min(s: Seq<char>, m: int)
    requires
        0 <= m <= s.len(),
        forall|j: int| 0 <= j < m ==> s[j] != '\0',
    ensures
        drawn_len(s) >= m,
    decreases s.len(),
{
    if s.len() != 0 && s[0] != '\0' {
        let m1 = if m > 0 {
            m - 1
        } else {
            0
        };
        assert forall|j: int| 0 <= j < m1 implies s.skip(1)[j] != '\0' by {
            assert(s.skip(1)[j] == s[j + 1]);
        }
        lemma_drawn_len_min(s.skip(1), m1);
    }
}

/// One character of string layout from cursor `(x, y)`: wrap to the next
/// line once the column passes 122, clear the whole screen and restart at
/// the origin once the row passes 58, then render the 12-pixel glyph and
/// advance 8 columns. The result is the new framebuffer, wire queue and
/// cursor.
pub open spec fn string_step(
    fb: Seq<Seq<u8>>,
    wire: Seq<WireByte>,
    x: int,
    y: int,
    c: char,
) -> (Seq<Seq<u8>>, Seq<WireByte>, int, int) {
    let x1 = if x > 122 {
        0
    } else {
        x
    };
    let y1 = if x > 122 {
        y + 16
    } else {
        y
    };
    if y1 > 58 {
        (
            char_applied(blank_fb(), 0, 0, c as u8, 12, true),
            wire + refresh_wire(blank_fb()),
            8,
            0,
        )
    } else {
        (char_applied(fb, x1, y1, c as u8, 12, true), wire, x1 + 8, y1)
    }
}

/// The display state after laying out the first `n` characters of `s`,
/// starting from framebuffer `fb`, wire queue `wire` and cursor `(x, y)`.
pub open spec fn string_applied(
    fb: Seq<Seq<u8>>,
    wire: Seq<WireByte>,
    x: int,
    y: int,
    s: Seq<char>,
    n: int,
) -> (Seq<Seq<u8>>, Seq<WireByte>, int, int)
    decreases n,
{
    if n <= 0 {
        (fb, wire, x, y)
    } else {
        let st = string_applied(fb, wire, x, y, s, n - 1);
        string_step(st.0, st.1, st.2, st.3, s[n - 1])
    }
}

/// The powers of 10 up to the largest that fits a 32-bit value.
proof fn lemma_pow10_values()
    ensures
        pow10(0) == 1,
        pow10(1) == 10,
        pow10(2) == 100,
        pow10(3) == 1000,
        pow10(4) == 10000,
        pow10(5) == 100000,
        pow10(6) == 1000000,
        pow10(7) == 10000000,
        pow10(8) == 100000000,
        pow10(9) == 1000000000,
{
    assert(pow10(0) == 1);
    assert(pow10(1) == 10);
    assert(pow10(2) == 100);
    assert(pow10(3) == 1000);
    assert(pow10(4) == 10000);
    assert(pow10(5) == 100000);
    assert(pow10(6) == 1000000);
    assert(pow10(7) == 10000000);
    assert(pow10(8) == 100000000);
    assert(pow10(9) == 1000000000);
}

/// 10 to the power `e`, for exponents whose result fits a 32-bit value.
fn pow10_u32(e: u32) -> (r: u32)
    requires
        e <= 9,
    ensures
        r == pow10(e as nat),
        1 <= r,
{
    proof {
        lemma_pow10_values();
    }
    match e {
        0 => 1,
        1 => 10,
        2 => 100,
        3 => 1000,
        4 => 10000,
        5 => 100000,
        6 => 1000000,
        7 => 10000000,
        8 => 100000000,
        _ => 1000000000,
    }
}

/// The page index and bit mask addressing pixel row `y`, as dictated by the
/// controller's page addressing mode.
pub fn pixel_position(y: u8) -> (r: (u8, u8))
    requires
        y <= 63,
    ensures
        r.0 == page_of(y as int),
        r.1 == bit_mask(y as int),
{
    let page: u8 = 7 - y / 8;
    let shift: u8 = 7 - y % 8;
    (page, 1u8 << shift)
}

impl OLED {
    /// The framebuffer contents as 128 columns of 8 page bytes.
    pub closed spec fn fb(&self) -> Seq<Seq<u8>> {
        Seq::new(128, |x: int| self.gram@[x]@)
    }

    /// The bytes queued for transmission over the serial link, oldest first.
    pub closed spec fn wire_view(&self) -> Seq<WireByte> {
        self.wire@
    }

    /// The framebuffer always has 128 columns of 8 page bytes.
    pub proof fn lemma_fb_shaped(&self)
        ensures
            fb_shaped(self.fb()),
    {
    }

    /// Set (`fill`) or clear (`!fill`) the pixel at `(x, y)` in the
    /// framebuffer alone; nothing is sent to the hardware. Coordinates
    /// outside the 128 by 64 area are rejected and change nothing.
    pub fn draw_point(&mut self, x: u8, y: u8, fill: bool) -> (r: Result<(), OLEDError>)
        ensures
            final(self).wire_view() == old(self).wire_view(),
            x <= 127 && y <= 63 ==> r == Ok::<(), OLEDError>(())
                && final(self).fb() == point_applied(old(self).fb(), x as int, y as int, fill),
            x > 127 || y > 63 ==> r == Err::<(), OLEDError>(OLEDError::OutOfBounds)
                && final(self).fb() == old(self).fb(),
    {
        if x > 127 || y > 63 {
            return Err(OLEDError::OutOfBounds);
        }

        let (page, mask) = pixel_position(y);
        let mut row: [u8; 8] = self.gram[x as usize];
        let b: u8 = if fill {
            row[page as usize] | mask
        } else {
            row[page as usize] & !mask
        };
        row[page as usize] = b;
        self.gram[x as usize] = row;
        proof {
            assert(self.fb() =~~= point_applied(old(self).fb(), x as int, y as int, fill));
        }
        Ok(())
    }

    /// Read the pixel at `(x, y)` back from the framebuffer through the page
    /// and mask mapping.
    pub fn read_point(&self, x: u8, y: u8) -> (r: Result<bool, OLEDError>)
        ensures
            x <= 127 && y <= 63 ==> r == Ok::<bool, OLEDError>(
                pixel_on(self.fb(), x as int, y as int),
            ),
            x > 127 || y > 63 ==> r == Err::<bool, OLEDError>(OLEDError::OutOfBounds),
    {
        if x > 127 || y > 63 {
            return Err(OLEDError::OutOfBounds);
        }
        let (page, mask) = pixel_position(y);
        Ok(self.gram[x as usize][page as usize] & mask != 0)
    }

    /// Render the glyph for printable ASCII character `chr` with its top
    /// left corner at `(x, y)`, in the font of height `size` (12 or 16).
    /// With `normal_mode`, set glyph bits turn pixels on and clear bits turn
    /// them off; without it the polarity is inverted. Pixels falling outside
    /// the display area are silently dropped.
    pub fn show_char(&mut self, x: u8, y: u8, chr: u8, size: u8, normal_mode: bool) -> (res:
        Result<(), OLEDError>)
        requires
            size == 12 || size == 16,
            32 <= chr <= 126,
            x as int + size as int / 2 <= 255,
            y as int + size as int <= 255,
        ensures
            res == Ok::<(), OLEDError>(()),
            final(self).wire_view() == old(self).wire_view(),
            final(self).fb() == char_applied(
                old(self).fb(),
                x as int,
                y as int,
                chr,
                size as int,
                normal_mode,
            ),
    {
        let ghost fb0 = self.fb();
        let ghost w0 = self.wire@;
        let idx: usize = (chr - 32) as usize;
        let cols: u8 = size / 2;
        let mut c: u8 = 0;
        while c < cols
            invariant
                c <= cols,
                cols == size / 2,
                size == 12 || size == 16,
                32 <= chr <= 126,
                x as int + cols as int <= 255,
                y as int + size as int <= 255,
                idx == chr as int - 32,
                self.wire@ == w0,
                self.fb() == char_pixels_applied(
                    fb0,
                    x as int,
                    y as int,
                    chr,
                    size as int,
                    normal_mode,
                    c as int * size as int,
                ),
            decreases cols - c,
        {
            let mut r: u8 = 0;
            while r < size
                invariant
                    r <= size,
                    c < cols,
                    cols == size / 2,
                    size == 12 || size == 16,
                    32 <= chr <= 126,
                    x as int + cols as int <= 255,
                    y as int + size as int <= 255,
                    idx == chr as int - 32,
                    self.wire@ == w0,
                    self.fb() == char_pixels_applied(
                        fb0,
                        x as int,
                        y as int,
                        chr,
                        size as int,
                        normal_mode,
                        c as int * size as int + r as int,
                    ),
                decreases size - r,
            {
                let t: usize = (c as usize) * 2 + (r as usize) / 8;
                let b: u8 = if size == 12 {
                    font::ASCII_1206[idx][t]
                } else {
                    font::ASCII_1608[idx][t]
                };
                let shift: u8 = 7 - r % 8;
                let bit: bool = b & (1u8 << shift) != 0;
                let fill: bool = if bit {
                    normal_mode
                } else {
                    !normal_mode
                };
                let ghost before = self.fb();
                let _ = self.draw_point(x + c, y + r, fill);
                proof {
                    let n = c as int * size as int + r as int + 1;
                    lemma_glyph_index(c as int, r as int, size as int);
                    assert(glyph_byte(size as int, chr, 2 * c as int + r as int / 8) == b);
                    assert(bit == glyph_pixel(size as int, chr, c as int, r as int));
                    assert(self.fb() == clipped_point(
                        before,
                        x as int + c as int,
                        y as int + r as int,
                        fill,
                    ));
                    assert(self.fb() == char_pixels_applied(
                        fb0,
                        x as int,
                        y as int,
                        chr,
                        size as int,
                        normal_mode,
                        n,
                    ));
                }
                r = r + 1;
            }
            c = c + 1;
        }
        Ok(())
    }

    /// Render `num` as `len` base-10 digits starting at `(x, y)`, most
    /// significant digit first, in the font of height `size`; each digit
    /// advances by half the font height. Every digit is rendered, leading
    /// zeros included.
    #[verifier::spinoff_prover]
    pub fn show_number(&mut self, x: u8, y: u8, num: u32, len: u32, size: u8) -> (res: Result<
        (),
        OLEDError,
    >)
        requires
            size == 12 || size == 16,
            len <= 10,
            x as int + (size as int / 2) * len as int <= 255,
            len > 0 ==> y as int + size as int <= 255,
        ensures
            res == Ok::<(), OLEDError>(()),
            final(self).wire_view() == old(self).wire_view(),
            final(self).fb() == number_applied(
                old(self).fb(),
                x as int,
                y as int,
                num,
                len as int,
                size as int,
            ),
    {
        let ghost fb0 = self.fb();
        let ghost w0 = self.wire@;
        let half: u8 = size / 2;
        let mut px: u8 = x;
        let mut t: u32 = 0;
        while t < len
            invariant
                t <= len,
                len <= 10,
                size == 12 || size == 16,
                half == size / 2,
                px as int == x as int + half as int * t as int,
                x as int + half as int * len as int <= 255,
                len > 0 ==> y as int + size as int <= 255,
                self.wire@ == w0,
                self.fb() == number_digits_applied(
                    fb0,
                    x as int,
                    y as int,
                    num,
                    len as int,
                    size as int,
                    t as int,
                ),
            decreases len - t,
        {
            proof {
                assert(half as int * (t as int + 1) == half as int * t as int + half as int
                    && half as int * (t as int + 1) <= half as int * len as int)
                    by (nonlinear_arith)
                    requires
                        t as int + 1 <= len as int && half as int >= 0,
                ;
            }
            let e: u32 = len - t - 1;
            let p: u32 = pow10_u32(e);
            let digit: u32 = (num / p) % 10;
            let ch: u8 = 48 + digit as u8;
            let _ = self.show_char(px, y, ch, size, true);
            proof {
                assert(ch == digit_char(num, len as int, t as int));
                assert(self.fb() == number_digits_applied(
                    fb0,
                    x as int,
                    y as int,
                    num,
                    len as int,
                    size as int,
                    t as int + 1,
                ));
            }
            px = px + half;
            t = t + 1;
        }
        Ok(())
    }

    /// Lay out `text` starting at `(x, y)` in the 12-pixel font with a fixed
    /// advance of 8 columns, stopping at the first null terminator. The
    /// cursor wraps to the next line once its column passes 122, and the
    /// whole screen is cleared and the cursor reset to the origin once its
    /// row passes 58.
    #[verifier::spinoff_prover]
    pub fn show_string(&mut self, x: u8, y: u8, text: &str) -> (res: Result<(), OLEDError>)
        requires
            x > 122 ==> y as int + 16 <= 255,
            forall|i: int|
                0 <= i < drawn_len(text@) ==> 32 <= (#[trigger] text@[i]) as int <= 126,
        ensures
            res == Ok::<(), OLEDError>(()),
            ({
                let st = string_applied(
                    old(self).fb(),
                    old(self).wire_view(),
                    x as int,
                    y as int,
                    text@,
                    drawn_len(text@),
                );
                final(self).fb() == st.0 && final(self).wire_view() == st.1
            }),
    {
        let ghost s = text@;
        let ghost fb0 = self.fb();
        let ghost w0 = self.wire@;
        let n: usize = text.unicode_len();
        let mut cx: u8 = x;
        let mut cy: u8 = y;
        let mut i: usize = 0;
        let mut terminated = false;
        while i < n && !terminated
            invariant
                i <= n,
                n == s.len(),
                s == text@,
                forall|k: int| 0 <= k < drawn_len(s) ==> 32 <= (#[trigger] s[k]) as int <= 126,
                forall|j: int| 0 <= j < i as int ==> s[j] != '\0',
                terminated ==> i < n && s[i as int] == '\0',
                i == 0 ==> cx == x && cy == y,
                x > 122 ==> y as int + 16 <= 255,
                i > 0 ==> cx <= 130 && cy <= 58,
                ({
                    let st = string_applied(fb0, w0, x as int, y as int, s, i as int);
                    self.fb() == st.0 && self.wire@ == st.1 && cx as int == st.2 && cy as int
                        == st.3
                }),
            decreases n - i, (if terminated { 0int } else { 1int }),
        {
            let c = text.get_char(i);
            if c == '\0' {
                terminated = true;
            } else {
                proof {
                    lemma_drawn_len_min(s, i as int + 1);
                }
                let ghost st_pre = string_applied(fb0, w0, x as int, y as int, s, i as int);
                if cx > 122 {
                    cx = 0;
                    cy = cy + 16;
                }
                if cy > 58 {
                    cy = 0;
                    cx = 0;
                    let _ = self.clear();
                }
                let _ = self.show_char(cx, cy, c as u8, 12, true);
                cx = cx + 8;
                i = i + 1;
                proof {
                    let st = string_applied(fb0, w0, x as int, y as int, s, i as int);
                    let prev_char = s[i as int - 1];
                    assert(st == string_step(st_pre.0, st_pre.1, st_pre.2, st_pre.3, prev_char));
                    assert(self.fb() == st.0 && self.wire@ == st.1 && cx as int == st.2
                        && cy as int == st.3);
                }
            }
        }
        proof {
            if terminated {
                lemma_drawn_len_at(s, i as int);
            } else {
                lemma_drawn_len_at(s, n as int);
            }
        }
        Ok(())
    }

    /// Queue one command byte for the controller (mode-select line high).
    fn write_cmd(&mut self, cmd: u8)
        ensures
            final(self).fb() == old(self).fb(),
            final(self).wire_view() == old(self).wire_view().push(WireByte::Command(cmd)),
    {
        self.wire.push(WireByte::Command(cmd));
        proof {
            assert(self.fb() =~= old(self).fb());
        }
    }

    /// Queue one pixel-data byte for the controller (mode-select line low).
    fn write_data(&mut self, data: u8)
        ensures
            final(self).fb() == old(self).fb(),
            final(self).wire_view() == old(self).wire_view().push(WireByte::Data(data)),
    {
        self.wire.push(WireByte::Data(data));
        proof {
            assert(self.fb() =~= old(self).fb());
        }
    }

    /// Push the whole framebuffer to the hardware: for each of the 8 pages,
    /// queue the page-select and column-address commands, then the 128 column
    /// bytes of that page as data. Fire and forget: always succeeds.
    #[verifier::spinoff_prover]
    pub fn refresh(&mut self) -> (r: Result<(), OLEDError>)
        ensures
            r == Ok::<(), OLEDError>(()),
            final(self).fb() == old(self).fb(),
            final(self).wire_view() == old(self).wire_view() + refresh_wire(old(self).fb()),
    {
        let ghost fb0 = self.fb();
        let ghost w0 = self.wire@;
        let ghost stream = refresh_wire(fb0);
        let mut i: u8 = 0;
        while i < 8
            invariant
                i <= 8,
                self.fb() == fb0,
                self.wire@ == w0 + stream.take(i as int * 131),
                stream == refresh_wire(fb0),
            decreases 8 - i,
        {
            let ghost base = i as int * 131;
            self.write_cmd(0xB0 + i);
            self.write_cmd(0x00);
            self.write_cmd(0x10);
            proof {
                lemma_wire_index(i as int, 0);
                lemma_wire_index(i as int, 1);
                lemma_wire_index(i as int, 2);
                assert(stream.take(base + 3) =~= stream.take(base)
                    .push(stream[base]).push(stream[base + 1]).push(stream[base + 2]));
                assert(self.wire@ =~= w0 + stream.take(base + 3));
            }
            let mut j: u8 = 0;
            while j < 128
                invariant
                    j <= 128,
                    i < 8,
                    self.fb() == fb0,
                    self.wire@ == w0 + stream.take(i as int * 131 + 3 + j as int),
                    stream == refresh_wire(fb0),
                decreases 128 - j,
            {
                let ghost k = i as int * 131 + 3 + j as int;
                self.write_data(self.gram[j as usize][i as usize]);
                proof {
                    lemma_wire_index(i as int, 3 + j as int);
                    assert(stream[k] == WireByte::Data(fb0[j as int][i as int]));
                    assert(stream.take(k + 1) =~= stream.take(k).push(stream[k]));
                    assert(self.wire@ =~= w0 + stream.take(k + 1));
                }
                j = j + 1;
            }
            i = i + 1;
        }
        proof {
            assert(stream.take(1048int) =~= stream);
        }
        Ok(())
    }

    /// Zero the whole framebuffer, then push the blank frame to the hardware.
    #[verifier::spinoff_prover]
    pub fn clear(&mut self) -> (r: Result<(), OLEDError>)
        ensures
            r == Ok::<(), OLEDError>(()),
            final(self).fb() == blank_fb(),
            final(self).wire_view() == old(self).wire_view() + refresh_wire(blank_fb()),
    {
        let ghost w0 = self.wire@;
        let mut i: u8 = 0;
        while i < 8
            invariant
                i <= 8,
                self.wire@ == w0,
                forall|x: int, p: int|
                    0 <= x < 128 && 0 <= p < i as int ==> #[trigger] self.fb()[x][p] == 0,
            decreases 8 - i,
        {
            let mut j: u8 = 0;
            while j < 128
                invariant
                    j <= 128,
                    i < 8,
                    self.wire@ == w0,
                    forall|x: int, p: int|
                        0 <= x < 128 && 0 <= p < i as int ==> #[trigger] self.fb()[x][p] == 0,
                    forall|x: int|
                        0 <= x < j as int ==> #[trigger] self.fb()[x][i as int] == 0,
                decreases 128 - j,
            {
                let ghost prev = self.fb();
                let mut row: [u8; 8] = self.gram[j as usize];
                row[i as usize] = 0x00;
                self.gram[j as usize] = row;
                proof {
                    assert forall|x: int, p: int| 0 <= x < 128 && 0 <= p < 8 implies
                        #[trigger] self.fb()[x][p] == if x == j as int && p == i as int {
                            0u8
                        } else {
                            prev[x][p]
                        } by {
                        assert(self.fb()[x] == self.gram@[x]@);
                    }
                }
                j = j + 1;
            }
            i = i + 1;
        }
        proof {
            assert(self.fb() =~~= blank_fb());
        }
        self.refresh()
    }

    /// Construct the driver in its ready state: queue the fixed boot command
    /// sequence of the controller, in order, then a blank first frame. The
    /// hardware reset pulse on the reset line precedes this in the platform
    /// layer.
    #[verifier::spinoff_prover]
    pub fn new() -> (oled: OLED)
        ensures
            oled.fb() == blank_fb(),
            oled.wire_view() == init_wire() + refresh_wire(blank_fb()),
    {
        let mut oled = OLED { gram: [[0u8; 8]; 128], wire: Vec::new() };

        oled.write_cmd(0xAE);  // display off
        oled.write_cmd(0xD5);  // clock divide ratio / oscillator frequency
        oled.write_cmd(80);
        oled.write_cmd(0xA8);  // multiplex ratio
        oled.write_cmd(0x3F);  // 1/64 duty
        oled.write_cmd(0xD3);  // display vertical offset
        oled.write_cmd(0x00);
        oled.write_cmd(0x40);  // display start line 0
        oled.write_cmd(0x8D);  // charge pump
        oled.write_cmd(0x14);  // enabled
        oled.write_cmd(0x20);  // memory addressing mode
        oled.write_cmd(0x02);  // page addressing
        oled.write_cmd(0xA1);  // segment remap
        oled.write_cmd(0xC0);  // COM output scan direction
        oled.write_cmd(0xDA);  // COM pin hardware configuration
        oled.write_cmd(0x12);
        oled.write_cmd(0x81);  // contrast
        oled.write_cmd(0xEF);
        oled.write_cmd(0xD9);  // pre-charge period
        oled.write_cmd(0xF1);
        oled.write_cmd(0xDB);  // VCOMH deselect level
        oled.write_cmd(0x30);
        oled.write_cmd(0xA4);  // entire display on: follow RAM contents
        oled.write_cmd(0xA6);  // normal (non-inverted) polarity
        oled.write_cmd(0xAF);  // display on

        proof {
            assert(oled.wire@ =~= init_wire());
        }
        let _ = oled.clear();
        oled
    }

    /// Re-enable the charge pump and turn the display panel on.
    #[verifier::spinoff_prover]
    pub fn display_on(&mut self) -> (r: Result<(), OLEDError>)
        ensures
            r == Ok::<(), OLEDError>(()),
            final(self).fb() == old(self).fb(),
            final(self).wire_view() == old(self).wire_view() + seq![
                WireByte::Command(0x8D),
                WireByte::Command(0x14),
                WireByte::Command(0xAF),
            ],
    {
        self.write_cmd(0x8D);  // charge pump
        self.write_cmd(0x14);  // enabled
        self.write_cmd(0xAF);  // display on
        proof {
            assert(final(self).wire_view() =~= old(self).wire_view() + seq![
                WireByte::Command(0x8D),
                WireByte::Command(0x14),
                WireByte::Command(0xAF),
            ]);
        }
        Ok(())
    }

    /// Disable the charge pump and turn the display panel off.
    #[verifier::spinoff_prover]
    pub fn display_off(&mut self) -> (r: Result<(), OLEDError>)
        ensures
            r == Ok::<(), OLEDError>(()),
            final(self).fb() == old(self).fb(),
            final(self).wire_view() == old(self).wire_view() + seq![
                WireByte::Command(0x8D),
                WireByte::Command(0x10),
                WireByte::Command(0xAE),
            ],
    {
        self.write_cmd(0x8D);  // charge pump
        self.write_cmd(0x10);  // disabled
        self.write_cmd(0xAE);  // display off
        proof {
            assert(final(self).wire_view() =~= old(self).wire_view() + seq![
                WireByte::Command(0x8D),
                WireByte::Command(0x10),
                WireByte::Command(0xAE),
            ]);
        }
        Ok(())
    }

    /// The bytes queued for the serial link, oldest first.
    pub fn wire_bytes(&self) -> (r: &Vec<WireByte>)
        ensures
            r@ == self.wire_view(),
    {
        &self.wire
    }

    /// Hand the queued bytes to the platform layer for transmission and
    /// leave the queue empty.
    pub fn take_wire(&mut self) -> (r: Vec<WireByte>)
        ensures
            r@ == old(self).wire_view(),
            final(self).wire_view().len() == 0,
            final(self).fb() == old(self).fb(),
    {
        let mut taken: Vec<WireByte> = Vec::new();
        core::mem::swap(&mut taken, &mut self.wire);
        proof {
            assert(self.fb() =~= old(self).fb());
        }
        taken
    }
}

} // verus!
