//! The built-in font: one sixteen-bit glyph for each of the 128 ASCII codes.
//!
//! A set bit lights one segment of the display:
//!
//! ```text
//!    ----a----
//!   |\   |   /|       bit 15  a     bit 7  g2
//!   | h  i  j |       bit 14  b     bit 6  h
//!   f  \ | /  b       bit 13  c     bit 5  i
//!   |   \|/   |       bit 12  d     bit 4  j
//!    -g1- -g2-        bit 11  e     bit 3  k
//!   |   /|\   |       bit 10  f     bit 2  l
//!   e  / | \  c       bit  9  g1    bit 1  m
//!   | k  l  m |       bit  8  -     bit 0  dp
//!   |/   |   \|
//!    ----d----  dp
//! ```
//!
//! Bit 8 is reserved and clear in every glyph. The control codes have no
//! shape and are blank.

use vstd::prelude::*;

verus! {

/// The bit of the decimal point.
pub const POINT: u16 = 0x0001;

/// The ASCII code of the full stop, whose glyph is the decimal point.
pub const FULL_STOP: u8 = 0x2E;

/// The reserved bit, which no glyph sets.
pub const RESERVED: u16 = 0x0100;

/// The glyph of each ASCII code.
pub const MAP: [u16; 128] = [
    0x0000,  // NUL
    0x0000,  // SOH
    0x0000,  // STX
    0x0000,  // ETX
    0x0000,  // EOT
    0x0000,  // ENQ
    0x0000,  // ACK
    0x0000,  // BEL
    0x0000,  // BS
    0x0000,  // HT
    0x0000,  // LF
    0x0000,  // VT
    0x0000,  // FF
    0x0000,  // CR
    0x0000,  // SO
    0x0000,  // SI
    0x0000,  // DLE
    0x0000,  // DC1
    0x0000,  // DC2
    0x0000,  // DC3
    0x0000,  // DC4
    0x0000,  // NAK
    0x0000,  // SYN
    0x0000,  // ETB
    0x0000,  // CAN
    0x0000,  // EM
    0x0000,  // SUB
    0x0000,  // ESC
    0x0000,  // FS
    0x0000,  // GS
    0x0000,  // RS
    0x0000,  // US
    0x0000,  // space
    0x6000,  // !: b c
    0x0420,  // ": f i
    0x72A4,  // #: b c d g1 g2 i l
    0xB6A4,  // $: a c d f g1 g2 i l
    0x2418,  // %: c f j k
    0xBA62,  // &: a c d e g1 h i m
    0x0020,  // ': i
    0x0012,  // (: j m
    0x0048,  // ): h k
    0x02FE,  // *: g1 g2 h i j k l m
    0x02A4,  // +: g1 g2 i l
    0x0008,  // ,: k
    0x0280,  // -: g1 g2
    0x0001,  // .: dp
    0x0018,  // /: j k
    0xFC18,  // 0: a b c d e f j k
    0x6010,  // 1: b c j
    0xDA80,  // 2: a b d e g1 g2
    0xF280,  // 3: a b c d g1 g2
    0x6680,  // 4: b c f g1 g2
    0xB680,  // 5: a c d f g1 g2
    0xBE80,  // 6: a c d e f g1 g2
    0xE000,  // 7: a b c
    0xFE80,  // 8: a b c d e f g1 g2
    0xF680,  // 9: a b c d f g1 g2
    0x0024,  // :: i l
    0x0028,  // ;: i k
    0x0012,  // <: j m
    0x1280,  // =: d g1 g2
    0x0048,  // >: h k
    0xC084,  // ?: a b g2 l
    0xDCA0,  // @: a b d e f g2 i
    0xEE80,  // A: a b c e f g1 g2
    0xF0A4,  // B: a b c d g2 i l
    0x9C00,  // C: a d e f
    0xF024,  // D: a b c d i l
    0x9E80,  // E: a d e f g1 g2
    0x8E00,  // F: a e f g1
    0xBC80,  // G: a c d e f g2
    0x6E80,  // H: b c e f g1 g2
    0x9024,  // I: a d i l
    0x7800,  // J: b c d e
    0x0E12,  // K: e f g1 j m
    0x1C00,  // L: d e f
    0x6C50,  // M: b c e f h j
    0x6C42,  // N: b c e f h m
    0xFC00,  // O: a b c d e f
    0xCE80,  // P: a b e f g1 g2
    0xFC02,  // Q: a b c d e f m
    0xCE82,  // R: a b e f g1 g2 m
    0xB680,  // S: a c d f g1 g2
    0x8024,  // T: a i l
    0x7C00,  // U: b c d e f
    0x0C18,  // V: e f j k
    0x6C0A,  // W: b c e f k m
    0x005A,  // X: h j k m
    0x0054,  // Y: h j l
    0x9018,  // Z: a d j k
    0x9C00,  // [: a d e f
    0x0042,  // \: h m
    0xF000,  // ]: a b c d
    0x000A,  // ^: k m
    0x1000,  // _: d
    0x0040,  // `: h
    0x1A04,  // a: d e g1 l
    0x3E80,  // b: c d e f g1 g2
    0x1A80,  // c: d e g1 g2
    0x7A80,  // d: b c d e g1 g2
    0x1A08,  // e: d e g1 k
    0x8E00,  // f: a e f g1
    0xF680,  // g: a b c d f g1 g2
    0x2E80,  // h: c e f g1 g2
    0x0004,  // i: l
    0x7000,  // j: b c d
    0x0036,  // k: i j l m
    0x0C00,  // l: e f
    0x2A84,  // m: c e g1 g2 l
    0x2A80,  // n: c e g1 g2
    0x3A80,  // o: c d e g1 g2
    0xCE80,  // p: a b e f g1 g2
    0xE680,  // q: a b c f g1 g2
    0x0A00,  // r: e g1
    0xB680,  // s: a c d f g1 g2
    0x1E00,  // t: d e f g1
    0x3800,  // u: c d e
    0x0808,  // v: e k
    0x280A,  // w: c e k m
    0x005A,  // x: h j k m
    0x70A0,  // y: b c d g2 i
    0x1208,  // z: d g1 k
    0x9248,  // {: a d g1 h k
    0x0024,  // |: i l
    0x9092,  // }: a d g2 j m
    0x0450,  // ~: f h j
    0x0000,  // DEL
];

/// The glyph of the ASCII code `code`.
pub open spec fn glyph(code: u8) -> u16
    recommends
        code <= 127,
{
    MAP@[code as int]
}

/// Masking a code to seven bits leaves an ASCII code as it is and turns
/// every other code into an ASCII code.
pub proof fn lemma_mask(code: u8)
    ensures
        code & 0x7F <= 127,
        code <= 127 ==> code & 0x7F == code,
{
    assert(code & 0x7F <= 127) by (bit_vector);
    assert(code <= 127 ==> code & 0x7F == code) by (bit_vector);
}

/// The full stop is the decimal point alone, and no other glyph lights the
/// decimal point.
pub proof fn lemma_point(code: u8)
    requires
        code <= 127,
    ensures
        glyph(FULL_STOP) == POINT,
        code != FULL_STOP ==> glyph(code) & POINT == 0,
{
    let found = glyph(code);
    assert(code != FULL_STOP ==> found % 2 == 0);
    assert(found % 2 == 0 ==> found & 0x0001 == 0) by (bit_vector);
}

/// No glyph sets the reserved bit.
pub proof fn lemma_reserved(code: u8)
    requires
        code <= 127,
    ensures
        glyph(code) & RESERVED == 0,
{
    let found = glyph(code);
    assert((found / 256) % 2 == 0);
    assert((found / 256) % 2 == 0 ==> found & 0x0100 == 0) by (bit_vector);
}

/// The control codes, the space and the delete code are blank.
pub proof fn lemma_blank(code: u8)
    requires
        code <= 0x20 || code == 0x7F,
    ensures
        glyph(code) == 0,
{
}

/// Looks up the glyph of `code`. A code above 127 is looked up by its low
/// seven bits.
pub fn lookup(code: u8) -> (found: u16)
    ensures
        found == glyph(code & 0x7F),
        code <= 127 ==> found == glyph(code),
{
    proof {
        lemma_mask(code);
    }
    MAP[(code & 0x7F) as usize]
}

} // verus!
