//! Fixed bitmap glyph tables for the two supported font heights.
//!
//! Each table maps a printable ASCII character (index `character - ' '`) to a
//! column-major bitmap. A glyph is stored as a run of column bytes, two bytes
//! per pixel column, most significant bit on top: within a byte, bit 7 is the
//! pixel with the smallest `y` of its group of eight rows.
//!
//! * [`ASCII_1206`]: 6 columns by 12 rows; the second byte of a column holds
//!   rows 8 to 11 in its upper four bits.
//! * [`ASCII_1608`]: 8 columns by 16 rows.

use vstd::prelude::*;

verus! {

pub const ASCII_1206: [[u8; 12]; 95] = [
    [0x00, 0x00, 0x00, 0x00, 0x00, 0x00, 0x00, 0x00, 0x00, 0x00, 0x00, 0x00], // ' '
    [0x00, 0x00, 0x00, 0x00, 0x3E, 0x80, 0x00, 0x00, 0x00, 0x00, 0x00, 0x00], // '!'
    [0x00, 0x00, 0x38, 0x00, 0x00, 0x00, 0x38, 0x00, 0x00, 0x00, 0x00, 0x00], // '"'
    [0x0A, 0x00, 0x3F, 0x80, 0x0A, 0x00, 0x3F, 0x80, 0x0A, 0x00, 0x00, 0x00], // '#'
    [0x09, 0x00, 0x15, 0x00, 0x3F, 0x80, 0x15, 0x00, 0x12, 0x00, 0x00, 0x00], // '$'
    [0x31, 0x00, 0x32, 0x00, 0x04, 0x00, 0x09, 0x80, 0x11, 0x80, 0x00, 0x00], // '%'
    [0x1B, 0x00, 0x24, 0x80, 0x2A, 0x80, 0x11, 0x00, 0x02, 0x80, 0x00, 0x00], // '&'
    [0x00, 0x00, 0x28, 0x00, 0x30, 0x00, 0x00, 0x00, 0x00, 0x00, 0x00, 0x00], // '''
    [0x00, 0x00, 0x0E, 0x00, 0x11, 0x00, 0x20, 0x80, 0x00, 0x00, 0x00, 0x00], // '('
    [0x00, 0x00, 0x20, 0x80, 0x11, 0x00, 0x0E, 0x00, 0x00, 0x00, 0x00, 0x00], // ')'
    [0x0A, 0x00, 0x04, 0x00, 0x1F, 0x00, 0x04, 0x00, 0x0A, 0x00, 0x00, 0x00], // '*'
    [0x04, 0x00, 0x04, 0x00, 0x1F, 0x00, 0x04, 0x00, 0x04, 0x00, 0x00, 0x00], // '+'
    [0x00, 0x00, 0x02, 0x80, 0x03, 0x00, 0x00, 0x00, 0x00, 0x00, 0x00, 0x00], // ','
    [0x04, 0x00, 0x04, 0x00, 0x04, 0x00, 0x04, 0x00, 0x04, 0x00, 0x00, 0x00], // '-'
    [0x00, 0x00, 0x01, 0x80, 0x01, 0x80, 0x00, 0x00, 0x00, 0x00, 0x00, 0x00], // '.'
    [0x01, 0x00, 0x02, 0x00, 0x04, 0x00, 0x08, 0x00, 0x10, 0x00, 0x00, 0x00], // '/'
    [0x1F, 0x00, 0x22, 0x80, 0x24, 0x80, 0x28, 0x80, 0x1F, 0x00, 0x00, 0x00], // '0'
    [0x00, 0x00, 0x10, 0x80, 0x3F, 0x80, 0x00, 0x80, 0x00, 0x00, 0x00, 0x00], // '1'
    [0x10, 0x80, 0x21, 0x80, 0x22, 0x80, 0x24, 0x80, 0x18, 0x80, 0x00, 0x00], // '2'
    [0x21, 0x00, 0x20, 0x80, 0x28, 0x80, 0x34, 0x80, 0x23, 0x00, 0x00, 0x00], // '3'
    [0x06, 0x00, 0x0A, 0x00, 0x12, 0x00, 0x3F, 0x80, 0x02, 0x00, 0x00, 0x00], // '4'
    [0x39, 0x00, 0x28, 0x80, 0x28, 0x80, 0x28, 0x80, 0x27, 0x00, 0x00, 0x00], // '5'
    [0x0F, 0x00, 0x14, 0x80, 0x24, 0x80, 0x24, 0x80, 0x03, 0x00, 0x00, 0x00], // '6'
    [0x20, 0x00, 0x23, 0x80, 0x24, 0x00, 0x28, 0x00, 0x30, 0x00, 0x00, 0x00], // '7'
    [0x1B, 0x00, 0x24, 0x80, 0x24, 0x80, 0x24, 0x80, 0x1B, 0x00, 0x00, 0x00], // '8'
    [0x18, 0x00, 0x24, 0x80, 0x24, 0x80, 0x25, 0x00, 0x1E, 0x00, 0x00, 0x00], // '9'
    [0x00, 0x00, 0x1B, 0x00, 0x1B, 0x00, 0x00, 0x00, 0x00, 0x00, 0x00, 0x00], // ':'
    [0x00, 0x00, 0x1A, 0x80, 0x1B, 0x00, 0x00, 0x00, 0x00, 0x00, 0x00, 0x00], // ';'
    [0x04, 0x00, 0x0A, 0x00, 0x11, 0x00, 0x20, 0x80, 0x00, 0x00, 0x00, 0x00], // '<'
    [0x0A, 0x00, 0x0A, 0x00, 0x0A, 0x00, 0x0A, 0x00, 0x0A, 0x00, 0x00, 0x00], // '='
    [0x00, 0x00, 0x20, 0x80, 0x11, 0x00, 0x0A, 0x00, 0x04, 0x00, 0x00, 0x00], // '>'
    [0x10, 0x00, 0x20, 0x00, 0x22, 0x80, 0x24, 0x00, 0x18, 0x00, 0x00, 0x00], // '?'
    [0x13, 0x00, 0x24, 0x80, 0x27, 0x80, 0x20, 0x80, 0x1F, 0x00, 0x00, 0x00], // '@'
    [0x1F, 0x80, 0x22, 0x00, 0x22, 0x00, 0x22, 0x00, 0x1F, 0x80, 0x00, 0x00], // 'A'
    [0x3F, 0x80, 0x24, 0x80, 0x24, 0x80, 0x24, 0x80, 0x1B, 0x00, 0x00, 0x00], // 'B'
    [0x1F, 0x00, 0x20, 0x80, 0x20, 0x80, 0x20, 0x80, 0x11, 0x00, 0x00, 0x00], // 'C'
    [0x3F, 0x80, 0x20, 0x80, 0x20, 0x80, 0x11, 0x00, 0x0E, 0x00, 0x00, 0x00], // 'D'
    [0x3F, 0x80, 0x24, 0x80, 0x24, 0x80, 0x24, 0x80, 0x20, 0x80, 0x00, 0x00], // 'E'
    [0x3F, 0x80, 0x24, 0x00, 0x24, 0x00, 0x24, 0x00, 0x20, 0x00, 0x00, 0x00], // 'F'
    [0x1F, 0x00, 0x20, 0x80, 0x24, 0x80, 0x24, 0x80, 0x17, 0x80, 0x00, 0x00], // 'G'
    [0x3F, 0x80, 0x04, 0x00, 0x04, 0x00, 0x04, 0x00, 0x3F, 0x80, 0x00, 0x00], // 'H'
    [0x00, 0x00, 0x20, 0x80, 0x3F, 0x80, 0x20, 0x80, 0x00, 0x00, 0x00, 0x00], // 'I'
    [0x01, 0x00, 0x00, 0x80, 0x20, 0x80, 0x3F, 0x00, 0x20, 0x00, 0x00, 0x00], // 'J'
    [0x3F, 0x80, 0x04, 0x00, 0x0A, 0x00, 0x11, 0x00, 0x20, 0x80, 0x00, 0x00], // 'K'
    [0x3F, 0x80, 0x00, 0x80, 0x00, 0x80, 0x00, 0x80, 0x00, 0x80, 0x00, 0x00], // 'L'
    [0x3F, 0x80, 0x10, 0x00, 0x0C, 0x00, 0x10, 0x00, 0x3F, 0x80, 0x00, 0x00], // 'M'
    [0x3F, 0x80, 0x08, 0x00, 0x04, 0x00, 0x02, 0x00, 0x3F, 0x80, 0x00, 0x00], // 'N'
    [0x1F, 0x00, 0x20, 0x80, 0x20, 0x80, 0x20, 0x80, 0x1F, 0x00, 0x00, 0x00], // 'O'
    [0x3F, 0x80, 0x24, 0x00, 0x24, 0x00, 0x24, 0x00, 0x18, 0x00, 0x00, 0x00], // 'P'
    [0x1F, 0x00, 0x20, 0x80, 0x22, 0x80, 0x21, 0x00, 0x1E, 0x80, 0x00, 0x00], // 'Q'
    [0x3F, 0x80, 0x24, 0x00, 0x26, 0x00, 0x25, 0x00, 0x18, 0x80, 0x00, 0x00], // 'R'
    [0x18, 0x80, 0x24, 0x80, 0x24, 0x80, 0x24, 0x80, 0x23, 0x00, 0x00, 0x00], // 'S'
    [0x20, 0x00, 0x20, 0x00, 0x3F, 0x80, 0x20, 0x00, 0x20, 0x00, 0x00, 0x00], // 'T'
    [0x3F, 0x00, 0x00, 0x80, 0x00, 0x80, 0x00, 0x80, 0x3F, 0x00, 0x00, 0x00], // 'U'
    [0x3E, 0x00, 0x01, 0x00, 0x00, 0x80, 0x01, 0x00, 0x3E, 0x00, 0x00, 0x00], // 'V'
    [0x3F, 0x00, 0x00, 0x80, 0x07, 0x00, 0x00, 0x80, 0x3F, 0x00, 0x00, 0x00], // 'W'
    [0x31, 0x80, 0x0A, 0x00, 0x04, 0x00, 0x0A, 0x00, 0x31, 0x80, 0x00, 0x00], // 'X'
    [0x38, 0x00, 0x04, 0x00, 0x03, 0x80, 0x04, 0x00, 0x38, 0x00, 0x00, 0x00], // 'Y'
    [0x21, 0x80, 0x22, 0x80, 0x24, 0x80, 0x28, 0x80, 0x30, 0x80, 0x00, 0x00], // 'Z'
    [0x00, 0x00, 0x3F, 0x80, 0x20, 0x80, 0x20, 0x80, 0x00, 0x00, 0x00, 0x00], // '['
    [0x10, 0x00, 0x08, 0x00, 0x04, 0x00, 0x02, 0x00, 0x01, 0x00, 0x00, 0x00], // 'backslash'
    [0x00, 0x00, 0x20, 0x80, 0x20, 0x80, 0x3F, 0x80, 0x00, 0x00, 0x00, 0x00], // ']'
    [0x08, 0x00, 0x10, 0x00, 0x20, 0x00, 0x10, 0x00, 0x08, 0x00, 0x00, 0x00], // '^'
    [0x00, 0x80, 0x00, 0x80, 0x00, 0x80, 0x00, 0x80, 0x00, 0x80, 0x00, 0x00], // '_'
    [0x00, 0x00, 0x20, 0x00, 0x10, 0x00, 0x08, 0x00, 0x00, 0x00, 0x00, 0x00], // '`'
    [0x01, 0x00, 0x0A, 0x80, 0x0A, 0x80, 0x0A, 0x80, 0x07, 0x80, 0x00, 0x00], // 'a'
    [0x3F, 0x80, 0x04, 0x80, 0x08, 0x80, 0x08, 0x80, 0x07, 0x00, 0x00, 0x00], // 'b'
    [0x07, 0x00, 0x08, 0x80, 0x08, 0x80, 0x08, 0x80, 0x01, 0x00, 0x00, 0x00], // 'c'
    [0x07, 0x00, 0x08, 0x80, 0x08, 0x80, 0x04, 0x80, 0x3F, 0x80, 0x00, 0x00], // 'd'
    [0x07, 0x00, 0x0A, 0x80, 0x0A, 0x80, 0x0A, 0x80, 0x06, 0x00, 0x00, 0x00], // 'e'
    [0x04, 0x00, 0x1F, 0x80, 0x24, 0x00, 0x20, 0x00, 0x10, 0x00, 0x00, 0x00], // 'f'
    [0x0C, 0x00, 0x12, 0x80, 0x12, 0x80, 0x12, 0x80, 0x1F, 0x00, 0x00, 0x00], // 'g'
    [0x3F, 0x80, 0x04, 0x00, 0x08, 0x00, 0x08, 0x00, 0x07, 0x80, 0x00, 0x00], // 'h'
    [0x00, 0x00, 0x08, 0x80, 0x2F, 0x80, 0x00, 0x80, 0x00, 0x00, 0x00, 0x00], // 'i'
    [0x01, 0x00, 0x00, 0x80, 0x08, 0x80, 0x2F, 0x00, 0x00, 0x00, 0x00, 0x00], // 'j'
    [0x3F, 0x80, 0x02, 0x00, 0x05, 0x00, 0x08, 0x80, 0x00, 0x00, 0x00, 0x00], // 'k'
    [0x00, 0x00, 0x20, 0x80, 0x3F, 0x80, 0x00, 0x80, 0x00, 0x00, 0x00, 0x00], // 'l'
    [0x0F, 0x80, 0x08, 0x00, 0x06, 0x00, 0x08, 0x00, 0x07, 0x80, 0x00, 0x00], // 'm'
    [0x0F, 0x80, 0x04, 0x00, 0x08, 0x00, 0x08, 0x00, 0x07, 0x80, 0x00, 0x00], // 'n'
    [0x07, 0x00, 0x08, 0x80, 0x08, 0x80, 0x08, 0x80, 0x07, 0x00, 0x00, 0x00], // 'o'
    [0x0F, 0x80, 0x0A, 0x00, 0x0A, 0x00, 0x0A, 0x00, 0x04, 0x00, 0x00, 0x00], // 'p'
    [0x04, 0x00, 0x0A, 0x00, 0x0A, 0x00, 0x06, 0x00, 0x0F, 0x80, 0x00, 0x00], // 'q'
    [0x0F, 0x80, 0x04, 0x00, 0x08, 0x00, 0x08, 0x00, 0x04, 0x00, 0x00, 0x00], // 'r'
    [0x04, 0x80, 0x0A, 0x80, 0x0A, 0x80, 0x0A, 0x80, 0x01, 0x00, 0x00, 0x00], // 's'
    [0x08, 0x00, 0x3F, 0x00, 0x08, 0x80, 0x00, 0x80, 0x01, 0x00, 0x00, 0x00], // 't'
    [0x0F, 0x00, 0x00, 0x80, 0x00, 0x80, 0x01, 0x00, 0x0F, 0x80, 0x00, 0x00], // 'u'
    [0x0E, 0x00, 0x01, 0x00, 0x00, 0x80, 0x01, 0x00, 0x0E, 0x00, 0x00, 0x00], // 'v'
    [0x0F, 0x00, 0x00, 0x80, 0x03, 0x00, 0x00, 0x80, 0x0F, 0x00, 0x00, 0x00], // 'w'
    [0x08, 0x80, 0x05, 0x00, 0x02, 0x00, 0x05, 0x00, 0x08, 0x80, 0x00, 0x00], // 'x'
    [0x0C, 0x00, 0x02, 0x80, 0x02, 0x80, 0x02, 0x80, 0x0F, 0x00, 0x00, 0x00], // 'y'
    [0x08, 0x80, 0x09, 0x80, 0x0A, 0x80, 0x0C, 0x80, 0x08, 0x80, 0x00, 0x00], // 'z'
    [0x00, 0x00, 0x04, 0x00, 0x1B, 0x00, 0x20, 0x80, 0x00, 0x00, 0x00, 0x00], // '{'
    [0x00, 0x00, 0x00, 0x00, 0x3F, 0x80, 0x00, 0x00, 0x00, 0x00, 0x00, 0x00], // '|'
    [0x00, 0x00, 0x20, 0x80, 0x1B, 0x00, 0x04, 0x00, 0x00, 0x00, 0x00, 0x00], // '}'
    [0x04, 0x00, 0x08, 0x00, 0x04, 0x00, 0x02, 0x00, 0x04, 0x00, 0x00, 0x00], // '~'
];

pub const ASCII_1608: [[u8; 16]; 95] = [
    [0x00, 0x00, 0x00, 0x00, 0x00, 0x00, 0x00, 0x00, 0x00, 0x00, 0x00, 0x00, 0x00, 0x00, 0x00, 0x00], // ' '
    [0x00, 0x00, 0x00, 0x00, 0x00, 0x00, 0x7F, 0xE6, 0x00, 0x00, 0x00, 0x00, 0x00, 0x00, 0x00, 0x00], // '!'
    [0x00, 0x00, 0x00, 0x00, 0x7E, 0x00, 0x00, 0x00, 0x7E, 0x00, 0x00, 0x00, 0x00, 0x00, 0x00, 0x00], // '"'
    [0x00, 0x00, 0x06, 0x60, 0x7F, 0xFE, 0x06, 0x60, 0x7F, 0xFE, 0x06, 0x60, 0x00, 0x00, 0x00, 0x00], // '#'
    [0x00, 0x00, 0x06, 0x18, 0x19, 0x98, 0x7F, 0xFE, 0x19, 0x98, 0x18, 0x60, 0x00, 0x00, 0x00, 0x00], // '$'
    [0x00, 0x00, 0x78, 0x18, 0x78, 0x60, 0x01, 0x80, 0x06, 0x1E, 0x18, 0x1E, 0x00, 0x00, 0x00, 0x00], // '%'
    [0x00, 0x00, 0x1E, 0x78, 0x61, 0x86, 0x66, 0x66, 0x18, 0x18, 0x00, 0x66, 0x00, 0x00, 0x00, 0x00], // '&'
    [0x00, 0x00, 0x00, 0x00, 0x66, 0x00, 0x78, 0x00, 0x00, 0x00, 0x00, 0x00, 0x00, 0x00, 0x00, 0x00], // '''
    [0x00, 0x00, 0x00, 0x00, 0x07, 0xE0, 0x18, 0x18, 0x60, 0x06, 0x00, 0x00, 0x00, 0x00, 0x00, 0x00], // '('
    [0x00, 0x00, 0x00, 0x00, 0x60, 0x06, 0x18, 0x18, 0x07, 0xE0, 0x00, 0x00, 0x00, 0x00, 0x00, 0x00], // ')'
    [0x00, 0x00, 0x06, 0x60, 0x01, 0x80, 0x1F, 0xF8, 0x01, 0x80, 0x06, 0x60, 0x00, 0x00, 0x00, 0x00], // '*'
    [0x00, 0x00, 0x01, 0x80, 0x01, 0x80, 0x1F, 0xF8, 0x01, 0x80, 0x01, 0x80, 0x00, 0x00, 0x00, 0x00], // '+'
    [0x00, 0x00, 0x00, 0x00, 0x00, 0x66, 0x00, 0x78, 0x00, 0x00, 0x00, 0x00, 0x00, 0x00, 0x00, 0x00], // ','
    [0x00, 0x00, 0x01, 0x80, 0x01, 0x80, 0x01, 0x80, 0x01, 0x80, 0x01, 0x80, 0x00, 0x00, 0x00, 0x00], // '-'
    [0x00, 0x00, 0x00, 0x00, 0x00, 0x1E, 0x00, 0x1E, 0x00, 0x00, 0x00, 0x00, 0x00, 0x00, 0x00, 0x00], // '.'
    [0x00, 0x00, 0x00, 0x18, 0x00, 0x60, 0x01, 0x80, 0x06, 0x00, 0x18, 0x00, 0x00, 0x00, 0x00, 0x00], // '/'
    [0x00, 0x00, 0x1F, 0xF8, 0x60, 0x66, 0x61, 0x86, 0x66, 0x06, 0x1F, 0xF8, 0x00, 0x00, 0x00, 0x00], // '0'
    [0x00, 0x00, 0x00, 0x00, 0x18, 0x06, 0x7F, 0xFE, 0x00, 0x06, 0x00, 0x00, 0x00, 0x00, 0x00, 0x00], // '1'
    [0x00, 0x00, 0x18, 0x06, 0x60, 0x1E, 0x60, 0x66, 0x61, 0x86, 0x1E, 0x06, 0x00, 0x00, 0x00, 0x00], // '2'
    [0x00, 0x00, 0x60, 0x18, 0x60, 0x06, 0x66, 0x06, 0x79, 0x86, 0x60, 0x78, 0x00, 0x00, 0x00, 0x00], // '3'
    [0x00, 0x00, 0x01, 0xE0, 0x06, 0x60, 0x18, 0x60, 0x7F, 0xFE, 0x00, 0x60, 0x00, 0x00, 0x00, 0x00], // '4'
    [0x00, 0x00, 0x7E, 0x18, 0x66, 0x06, 0x66, 0x06, 0x66, 0x06, 0x61, 0xF8, 0x00, 0x00, 0x00, 0x00], // '5'
    [0x00, 0x00, 0x07, 0xF8, 0x19, 0x86, 0x61, 0x86, 0x61, 0x86, 0x00, 0x78, 0x00, 0x00, 0x00, 0x00], // '6'
    [0x00, 0x00, 0x60, 0x00, 0x60, 0x7E, 0x61, 0x80, 0x66, 0x00, 0x78, 0x00, 0x00, 0x00, 0x00, 0x00], // '7'
    [0x00, 0x00, 0x1E, 0x78, 0x61, 0x86, 0x61, 0x86, 0x61, 0x86, 0x1E, 0x78, 0x00, 0x00, 0x00, 0x00], // '8'
    [0x00, 0x00, 0x1E, 0x00, 0x61, 0x86, 0x61, 0x86, 0x61, 0x98, 0x1F, 0xE0, 0x00, 0x00, 0x00, 0x00], // '9'
    [0x00, 0x00, 0x00, 0x00, 0x1E, 0x78, 0x1E, 0x78, 0x00, 0x00, 0x00, 0x00, 0x00, 0x00, 0x00, 0x00], // ':'
    [0x00, 0x00, 0x00, 0x00, 0x1E, 0x66, 0x1E, 0x78, 0x00, 0x00, 0x00, 0x00, 0x00, 0x00, 0x00, 0x00], // ';'
    [0x00, 0x00, 0x01, 0x80, 0x06, 0x60, 0x18, 0x18, 0x60, 0x06, 0x00, 0x00, 0x00, 0x00, 0x00, 0x00], // '<'
    [0x00, 0x00, 0x06, 0x60, 0x06, 0x60, 0x06, 0x60, 0x06, 0x60, 0x06, 0x60, 0x00, 0x00, 0x00, 0x00], // '='
    [0x00, 0x00, 0x00, 0x00, 0x60, 0x06, 0x18, 0x18, 0x06, 0x60, 0x01, 0x80, 0x00, 0x00, 0x00, 0x00], // '>'
    [0x00, 0x00, 0x18, 0x00, 0x60, 0x00, 0x60, 0x66, 0x61, 0x80, 0x1E, 0x00, 0x00, 0x00, 0x00, 0x00], // '?'
    [0x00, 0x00, 0x18, 0x78, 0x61, 0x86, 0x61, 0xFE, 0x60, 0x06, 0x1F, 0xF8, 0x00, 0x00, 0x00, 0x00], // '@'
    [0x00, 0x00, 0x1F, 0xFE, 0x60, 0x60, 0x60, 0x60, 0x60, 0x60, 0x1F, 0xFE, 0x00, 0x00, 0x00, 0x00], // 'A'
    [0x00, 0x00, 0x7F, 0xFE, 0x61, 0x86, 0x61, 0x86, 0x61, 0x86, 0x1E, 0x78, 0x00, 0x00, 0x00, 0x00], // 'B'
    [0x00, 0x00, 0x1F, 0xF8, 0x60, 0x06, 0x60, 0x06, 0x60, 0x06, 0x18, 0x18, 0x00, 0x00, 0x00, 0x00], // 'C'
    [0x00, 0x00, 0x7F, 0xFE, 0x60, 0x06, 0x60, 0x06, 0x18, 0x18, 0x07, 0xE0, 0x00, 0x00, 0x00, 0x00], // 'D'
    [0x00, 0x00, 0x7F, 0xFE, 0x61, 0x86, 0x61, 0x86, 0x61, 0x86, 0x60, 0x06, 0x00, 0x00, 0x00, 0x00], // 'E'
    [0x00, 0x00, 0x7F, 0xFE, 0x61, 0x80, 0x61, 0x80, 0x61, 0x80, 0x60, 0x00, 0x00, 0x00, 0x00, 0x00], // 'F'
    [0x00, 0x00, 0x1F, 0xF8, 0x60, 0x06, 0x61, 0x86, 0x61, 0x86, 0x19, 0xFE, 0x00, 0x00, 0x00, 0x00], // 'G'
    [0x00, 0x00, 0x7F, 0xFE, 0x01, 0x80, 0x01, 0x80, 0x01, 0x80, 0x7F, 0xFE, 0x00, 0x00, 0x00, 0x00], // 'H'
    [0x00, 0x00, 0x00, 0x00, 0x60, 0x06, 0x7F, 0xFE, 0x60, 0x06, 0x00, 0x00, 0x00, 0x00, 0x00, 0x00], // 'I'
    [0x00, 0x00, 0x00, 0x18, 0x00, 0x06, 0x60, 0x06, 0x7F, 0xF8, 0x60, 0x00, 0x00, 0x00, 0x00, 0x00], // 'J'
    [0x00, 0x00, 0x7F, 0xFE, 0x01, 0x80, 0x06, 0x60, 0x18, 0x18, 0x60, 0x06, 0x00, 0x00, 0x00, 0x00], // 'K'
    [0x00, 0x00, 0x7F, 0xFE, 0x00, 0x06, 0x00, 0x06, 0x00, 0x06, 0x00, 0x06, 0x00, 0x00, 0x00, 0x00], // 'L'
    [0x00, 0x00, 0x7F, 0xFE, 0x18, 0x00, 0x07, 0x80, 0x18, 0x00, 0x7F, 0xFE, 0x00, 0x00, 0x00, 0x00], // 'M'
    [0x00, 0x00, 0x7F, 0xFE, 0x06, 0x00, 0x01, 0x80, 0x00, 0x60, 0x7F, 0xFE, 0x00, 0x00, 0x00, 0x00], // 'N'
    [0x00, 0x00, 0x1F, 0xF8, 0x60, 0x06, 0x60, 0x06, 0x60, 0x06, 0x1F, 0xF8, 0x00, 0x00, 0x00, 0x00], // 'O'
    [0x00, 0x00, 0x7F, 0xFE, 0x61, 0x80, 0x61, 0x80, 0x61, 0x80, 0x1E, 0x00, 0x00, 0x00, 0x00, 0x00], // 'P'
    [0x00, 0x00, 0x1F, 0xF8, 0x60, 0x06, 0x60, 0x66, 0x60, 0x18, 0x1F, 0xE6, 0x00, 0x00, 0x00, 0x00], // 'Q'
    [0x00, 0x00, 0x7F, 0xFE, 0x61, 0x80, 0x61, 0xE0, 0x61, 0x98, 0x1E, 0x06, 0x00, 0x00, 0x00, 0x00], // 'R'
    [0x00, 0x00, 0x1E, 0x06, 0x61, 0x86, 0x61, 0x86, 0x61, 0x86, 0x60, 0x78, 0x00, 0x00, 0x00, 0x00], // 'S'
    [0x00, 0x00, 0x60, 0x00, 0x60, 0x00, 0x7F, 0xFE, 0x60, 0x00, 0x60, 0x00, 0x00, 0x00, 0x00, 0x00], // 'T'
    [0x00, 0x00, 0x7F, 0xF8, 0x00, 0x06, 0x00, 0x06, 0x00, 0x06, 0x7F, 0xF8, 0x00, 0x00, 0x00, 0x00], // 'U'
    [0x00, 0x00, 0x7F, 0xE0, 0x00, 0x18, 0x00, 0x06, 0x00, 0x18, 0x7F, 0xE0, 0x00, 0x00, 0x00, 0x00], // 'V'
    [0x00, 0x00, 0x7F, 0xF8, 0x00, 0x06, 0x01, 0xF8, 0x00, 0x06, 0x7F, 0xF8, 0x00, 0x00, 0x00, 0x00], // 'W'
    [0x00, 0x00, 0x78, 0x1E, 0x06, 0x60, 0x01, 0x80, 0x06, 0x60, 0x78, 0x1E, 0x00, 0x00, 0x00, 0x00], // 'X'
    [0x00, 0x00, 0x7E, 0x00, 0x01, 0x80, 0x00, 0x7E, 0x01, 0x80, 0x7E, 0x00, 0x00, 0x00, 0x00, 0x00], // 'Y'
    [0x00, 0x00, 0x60, 0x1E, 0x60, 0x66, 0x61, 0x86, 0x66, 0x06, 0x78, 0x06, 0x00, 0x00, 0x00, 0x00], // 'Z'
    [0x00, 0x00, 0x00, 0x00, 0x7F, 0xFE, 0x60, 0x06, 0x60, 0x06, 0x00, 0x00, 0x00, 0x00, 0x00, 0x00], // '['
    [0x00, 0x00, 0x18, 0x00, 0x06, 0x00, 0x01, 0x80, 0x00, 0x60, 0x00, 0x18, 0x00, 0x00, 0x00, 0x00], // 'backslash'
    [0x00, 0x00, 0x00, 0x00, 0x60, 0x06, 0x60, 0x06, 0x7F, 0xFE, 0x00, 0x00, 0x00, 0x00, 0x00, 0x00], // ']'
    [0x00, 0x00, 0x06, 0x00, 0x18, 0x00, 0x60, 0x00, 0x18, 0x00, 0x06, 0x00, 0x00, 0x00, 0x00, 0x00], // '^'
    [0x00, 0x00, 0x00, 0x06, 0x00, 0x06, 0x00, 0x06, 0x00, 0x06, 0x00, 0x06, 0x00, 0x00, 0x00, 0x00], // '_'
    [0x00, 0x00, 0x00, 0x00, 0x60, 0x00, 0x18, 0x00, 0x06, 0x00, 0x00, 0x00, 0x00, 0x00, 0x00, 0x00], // '`'
    [0x00, 0x00, 0x00, 0x18, 0x06, 0x66, 0x06, 0x66, 0x06, 0x66, 0x01, 0xFE, 0x00, 0x00, 0x00, 0x00], // 'a'
    [0x00, 0x00, 0x7F, 0xFE, 0x01, 0x86, 0x06, 0x06, 0x06, 0x06, 0x01, 0xF8, 0x00, 0x00, 0x00, 0x00], // 'b'
    [0x00, 0x00, 0x01, 0xF8, 0x06, 0x06, 0x06, 0x06, 0x06, 0x06, 0x00, 0x18, 0x00, 0x00, 0x00, 0x00], // 'c'
    [0x00, 0x00, 0x01, 0xF8, 0x06, 0x06, 0x06, 0x06, 0x01, 0x86, 0x7F, 0xFE, 0x00, 0x00, 0x00, 0x00], // 'd'
    [0x00, 0x00, 0x01, 0xF8, 0x06, 0x66, 0x06, 0x66, 0x06, 0x66, 0x01, 0xE0, 0x00, 0x00, 0x00, 0x00], // 'e'
    [0x00, 0x00, 0x01, 0x80, 0x1F, 0xFE, 0x61, 0x80, 0x60, 0x00, 0x18, 0x00, 0x00, 0x00, 0x00, 0x00], // 'f'
    [0x00, 0x00, 0x07, 0x80, 0x18, 0x66, 0x18, 0x66, 0x18, 0x66, 0x1F, 0xF8, 0x00, 0x00, 0x00, 0x00], // 'g'
    [0x00, 0x00, 0x7F, 0xFE, 0x01, 0x80, 0x06, 0x00, 0x06, 0x00, 0x01, 0xFE, 0x00, 0x00, 0x00, 0x00], // 'h'
    [0x00, 0x00, 0x00, 0x00, 0x06, 0x06, 0x67, 0xFE, 0x00, 0x06, 0x00, 0x00, 0x00, 0x00, 0x00, 0x00], // 'i'
    [0x00, 0x00, 0x00, 0x18, 0x00, 0x06, 0x06, 0x06, 0x67, 0xF8, 0x00, 0x00, 0x00, 0x00, 0x00, 0x00], // 'j'
    [0x00, 0x00, 0x7F, 0xFE, 0x00, 0x60, 0x01, 0x98, 0x06, 0x06, 0x00, 0x00, 0x00, 0x00, 0x00, 0x00], // 'k'
    [0x00, 0x00, 0x00, 0x00, 0x60, 0x06, 0x7F, 0xFE, 0x00, 0x06, 0x00, 0x00, 0x00, 0x00, 0x00, 0x00], // 'l'
    [0x00, 0x00, 0x07, 0xFE, 0x06, 0x00, 0x01, 0xE0, 0x06, 0x00, 0x01, 0xFE, 0x00, 0x00, 0x00, 0x00], // 'm'
    [0x00, 0x00, 0x07, 0xFE, 0x01, 0x80, 0x06, 0x00, 0x06, 0x00, 0x01, 0xFE, 0x00, 0x00, 0x00, 0x00], // 'n'
    [0x00, 0x00, 0x01, 0xF8, 0x06, 0x06, 0x06, 0x06, 0x06, 0x06, 0x01, 0xF8, 0x00, 0x00, 0x00, 0x00], // 'o'
    [0x00, 0x00, 0x07, 0xFE, 0x06, 0x60, 0x06, 0x60, 0x06, 0x60, 0x01, 0x80, 0x00, 0x00, 0x00, 0x00], // 'p'
    [0x00, 0x00, 0x01, 0x80, 0x06, 0x60, 0x06, 0x60, 0x01, 0xE0, 0x07, 0xFE, 0x00, 0x00, 0x00, 0x00], // 'q'
    [0x00, 0x00, 0x07, 0xFE, 0x01, 0x80, 0x06, 0x00, 0x06, 0x00, 0x01, 0x80, 0x00, 0x00, 0x00, 0x00], // 'r'
    [0x00, 0x00, 0x01, 0x86, 0x06, 0x66, 0x06, 0x66, 0x06, 0x66, 0x00, 0x18, 0x00, 0x00, 0x00, 0x00], // 's'
    [0x00, 0x00, 0x06, 0x00, 0x7F, 0xF8, 0x06, 0x06, 0x00, 0x06, 0x00, 0x18, 0x00, 0x00, 0x00, 0x00], // 't'
    [0x00, 0x00, 0x07, 0xF8, 0x00, 0x06, 0x00, 0x06, 0x00, 0x18, 0x07, 0xFE, 0x00, 0x00, 0x00, 0x00], // 'u'
    [0x00, 0x00, 0x07, 0xE0, 0x00, 0x18, 0x00, 0x06, 0x00, 0x18, 0x07, 0xE0, 0x00, 0x00, 0x00, 0x00], // 'v'
    [0x00, 0x00, 0x07, 0xF8, 0x00, 0x06, 0x00, 0x78, 0x00, 0x06, 0x07, 0xF8, 0x00, 0x00, 0x00, 0x00], // 'w'
    [0x00, 0x00, 0x06, 0x06, 0x01, 0x98, 0x00, 0x60, 0x01, 0x98, 0x06, 0x06, 0x00, 0x00, 0x00, 0x00], // 'x'
    [0x00, 0x00, 0x07, 0x80, 0x00, 0x66, 0x00, 0x66, 0x00, 0x66, 0x07, 0xF8, 0x00, 0x00, 0x00, 0x00], // 'y'
    [0x00, 0x00, 0x06, 0x06, 0x06, 0x1E, 0x06, 0x66, 0x07, 0x86, 0x06, 0x06, 0x00, 0x00, 0x00, 0x00], // 'z'
    [0x00, 0x00, 0x00, 0x00, 0x01, 0x80, 0x1E, 0x78, 0x60, 0x06, 0x00, 0x00, 0x00, 0x00, 0x00, 0x00], // '{'
    [0x00, 0x00, 0x00, 0x00, 0x00, 0x00, 0x7F, 0xFE, 0x00, 0x00, 0x00, 0x00, 0x00, 0x00, 0x00, 0x00], // '|'
    [0x00, 0x00, 0x00, 0x00, 0x60, 0x06, 0x1E, 0x78, 0x01, 0x80, 0x00, 0x00, 0x00, 0x00, 0x00, 0x00], // '}'
    [0x00, 0x00, 0x01, 0x80, 0x06, 0x00, 0x01, 0x80, 0x00, 0x60, 0x01, 0x80, 0x00, 0x00, 0x00, 0x00], // '~'
];

} // verus!
