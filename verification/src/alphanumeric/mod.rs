//! Fourteen-segment alphanumeric displays.
//!
//! A [`Character`] is an ASCII code with an optional decimal point. Its glyph
//! comes from the built-in [`font`]. Two drivers put a glyph on pins: [`LED`]
//! writes it to a pin matrix of two columns, [`SegmentLED`] shows it one half
//! at a time on seven segment pins and a decimal-point pin.

pub mod font;

use crate::pin::{Level, OutputPin, OutputPinMatrix};
use ascii::AsciiChar;
use ignore_result::Ignore;
use vstd::prelude::*;
use vstd::std_specs::convert::{FromSpecImpl, TryFromSpec, TryFromSpecImpl};

verus! {

/// The ASCII character of the `ascii` crate, which is opaque here.
#[verifier::external_type_specification]
#[verifier::external_body]
pub struct ExAsciiChar(AsciiChar);

/// The code of an ASCII character of the `ascii` crate.
pub uninterp spec fn ascii_code(ch: AsciiChar) -> u8;

/// `AsciiChar::as_byte` returns the character's code, which is at most 127:
/// the type is an enum of 128 variants numbered from 0.
pub assume_specification[ AsciiChar::as_byte ](ch: AsciiChar) -> (code: u8)
    ensures
        code == ascii_code(ch),
        code <= 127,
;

/// `Ignore::ignore` of the `ignore-result` crate takes a result, whatever it
/// holds, and returns nothing.
#[verifier::external_body]
fn ignore(written: Result<(), crate::pin::Error>) {
    written.ignore()
}

/// Why a value is no [`Character`].
#[derive(Clone, Copy, Debug, PartialEq, Eq)]
pub enum Error {
    /// The value lies outside the ASCII range.
    NonAscii,
}

impl Error {
    /// What went wrong, in words.
    pub fn description(&self) -> (text: &'static str)
        ensures
            text@ == "not an ascii character"@,
    {
        "not an ascii character"
    }
}

/// Whether bit `index` of `glyph` is set.
pub open spec fn bit(glyph: u16, index: int) -> bool
    recommends
        0 <= index < 16,
{
    (glyph >> (index as u16)) & 1 == 1
}

/// An ASCII character, with or without a decimal point behind it.
#[derive(Clone, Copy, Debug, PartialEq, Eq)]
pub struct Character {
    base: u8,
    point: bool,
}

impl Character {
    /// The ASCII code of the character.
    pub closed spec fn spec_base(&self) -> u8 {
        self.base
    }

    /// Whether the character carries a decimal point.
    pub closed spec fn spec_point(&self) -> bool {
        self.point
    }

    /// Every character holds an ASCII code.
    #[verifier::type_invariant]
    pub open spec fn wf(&self) -> bool {
        self.base() <= 127
    }

    /// The glyph of the character: that of its code, with the decimal point
    /// added where the character carries one.
    pub open spec fn spec_glyph(&self) -> u16 {
        font::glyph(self.base()) | if self.point() {
            font::POINT
        } else {
            0
        }
    }

    /// The same character with a decimal point.
    pub fn set_point(self) -> (pointed: Character)
        ensures
            pointed.base() == self.base(),
            pointed.point(),
    {
        proof {
            use_type_invariant(self);
        }
        Character { base: self.base, point: true }
    }

    /// The glyph of the character.
    #[verifier::when_used_as_spec(spec_glyph)]
    pub fn glyph(&self) -> (glyph: u16)
        ensures
            glyph == self.glyph(),
    {
        proof {
            use_type_invariant(self);
            font::lemma_point(self.base);
        }
        font::lookup(self.base) | if self.point {
            font::lookup(font::FULL_STOP)
        } else {
            0
        }
    }

    /// The ASCII code of the character.
    #[verifier::when_used_as_spec(spec_base)]
    pub fn base(&self) -> (base: u8)
        ensures
            base == self.base(),
            base <= 127,
    {
        proof {
            use_type_invariant(self);
        }
        self.base
    }

    /// Whether the character carries a decimal point.
    #[verifier::when_used_as_spec(spec_point)]
    pub fn point(&self) -> (point: bool)
        ensures
            point == self.point(),
    {
        self.point
    }
}

impl TryFrom<u8> for Character {
    type Error = Error;

    /// The character of the ASCII code `b`, without a decimal point. A byte
    /// above 127 is no ASCII code.
    fn try_from(b: u8) -> (encoded: Result<Character, Error>)
        ensures
            b <= 127 ==> (encoded matches Ok(c) && c.base() == b && !c.point()),
            b > 127 ==> encoded == Err::<Character, Error>(Error::NonAscii),
    {
        if b <= 127 {
            Ok(Character { base: b, point: false })
        } else {
            Err(Error::NonAscii)
        }
    }
}

impl TryFromSpecImpl<u8> for Character {
    open spec fn obeys_try_from_spec() -> bool {
        true
    }

    closed spec fn try_from_spec(b: u8) -> Result<Character, Error> {
        if b <= 127 {
            Ok(Character { base: b, point: false })
        } else {
            Err(Error::NonAscii)
        }
    }
}

impl TryFrom<char> for Character {
    type Error = Error;

    /// The character of the Unicode scalar value `c`, without a decimal
    /// point. A scalar value above 127 is no ASCII code.
    fn try_from(c: char) -> (encoded: Result<Character, Error>)
        ensures
            c as u32 <= 127 ==> (encoded matches Ok(e) && e.base() == c as u32 && !e.point()),
            c as u32 > 127 ==> encoded == Err::<Character, Error>(Error::NonAscii),
    {
        let scalar = c as u32;
        if scalar <= 127 {
            Ok(Character { base: scalar as u8, point: false })
        } else {
            Err(Error::NonAscii)
        }
    }
}

impl TryFromSpecImpl<char> for Character {
    open spec fn obeys_try_from_spec() -> bool {
        true
    }

    closed spec fn try_from_spec(c: char) -> Result<Character, Error> {
        if c as u32 <= 127 {
            Ok(Character { base: (c as u32) as u8, point: false })
        } else {
            Err(Error::NonAscii)
        }
    }
}

impl From<AsciiChar> for Character {
    /// The character of the code of `ch`, without a decimal point.
    fn from(ch: AsciiChar) -> (encoded: Character)
        ensures
            encoded.base() == ascii_code(ch),
            !encoded.point(),
    {
        Character { base: ch.as_byte(), point: false }
    }
}

impl FromSpecImpl<AsciiChar> for Character {
    open spec fn obeys_from_spec() -> bool {
        true
    }

    closed spec fn from_spec(ch: AsciiChar) -> Character {
        Character { base: ascii_code(ch), point: false }
    }
}

/// The glyph of a character without a decimal point is the glyph of its
/// code.
pub proof fn lemma_glyph_without_point(c: Character)
    requires
        c.wf(),
        !c.point(),
    ensures
        c.glyph() == font::glyph(c.base()),
{
    let plain = font::glyph(c.base());
    assert(plain | 0 == plain) by (bit_vector);
}

/// The decimal point of a character sets bit 0 of its glyph and leaves every
/// other bit as it is in the glyph of its code.
pub proof fn lemma_glyph_with_point(c: Character, index: int)
    requires
        c.wf(),
        c.point(),
        0 <= index < 16,
    ensures
        c.glyph() == font::glyph(c.base()) | font::POINT,
        bit(c.glyph(), 0),
        index > 0 ==> bit(c.glyph(), index) == bit(font::glyph(c.base()), index),
{
    let plain = font::glyph(c.base());
    let i = index as u16;
    assert(((plain | 0x0001) >> 0u16) & 1 == 1) by (bit_vector);
    assert(0 < i < 16 ==> ((plain | 0x0001) >> i) & 1 == (plain >> i) & 1) by (bit_vector);
}

/// Bit 0 of the glyph of a character is set exactly when the character
/// carries a decimal point or is the full stop.
pub proof fn lemma_point_bit(c: Character)
    requires
        c.wf(),
    ensures
        bit(c.glyph(), 0) == (c.point() || c.base() == font::FULL_STOP),
{
    font::lemma_point(c.base());
    let plain = font::glyph(c.base());
    assert(((plain | 0x0001) >> 0u16) & 1 == 1) by (bit_vector);
    assert(((plain | 0) >> 0u16) & 1 == plain & 0x0001) by (bit_vector);
    assert(0x0001u16 & 0x0001 == 1) by (bit_vector);
}

/// No glyph of a character sets the reserved bit.
pub proof fn lemma_glyph_reserved(c: Character)
    requires
        c.wf(),
    ensures
        c.glyph() & font::RESERVED == 0,
{
    font::lemma_reserved(c.base());
    let plain = font::glyph(c.base());
    assert((plain | 0x0001) & 0x0100 == plain & 0x0100) by (bit_vector);
    assert((plain | 0) & 0x0100 == plain & 0x0100) by (bit_vector);
}

/// Every ASCII code is encoded as a character without a decimal point whose
/// glyph is the glyph of the code.
pub proof fn lemma_encode_then_glyph(b: u8)
    requires
        b <= 127,
    ensures
        <Character as TryFromSpec<u8>>::try_from_spec(b) matches Ok(c) && c.wf() && c.base() == b
            && !c.point() && c.glyph() == font::glyph(b),
{
    let c = <Character as TryFromSpec<u8>>::try_from_spec(b)->Ok_0;
    lemma_glyph_without_point(c);
}

/// The bits 0 to 7 of a glyph are those of its low byte, the bits 8 to 15
/// those of its high byte.
pub proof fn lemma_bits_of_bytes(glyph: u16, index: int)
    requires
        0 <= index < 8,
    ensures
        bit(glyph, index) == bit(glyph & 0x00FF, index),
        bit(glyph, 8 + index) == bit(glyph >> 8, index),
{
    let i = index as u16;
    let upper = (8 + index) as u16;
    assert(i < 8 ==> (glyph >> i) & 1 == ((glyph & 0x00FF) >> i) & 1) by (bit_vector);
    assert(i < 8 && upper == 8 + i ==> (glyph >> upper) & 1 == ((glyph >> 8) >> i) & 1)
        by (bit_vector);
}

/// The row states that show `glyph` in the column `column` of a pin matrix:
/// row `r` carries bit `8 * column + r`.
pub open spec fn rows(glyph: u16, column: int) -> Seq<bool> {
    Seq::new(8, |row: int| bit(glyph, 8 * column + row))
}

/// The two columns that show `glyph` on a pin matrix: the low byte in
/// column 0, the high byte in column 1.
pub open spec fn frame(glyph: u16) -> Seq<Seq<bool>> {
    seq![rows(glyph, 0), rows(glyph, 1)]
}

/// On a pin matrix the decimal point of a character shows in row 0 of
/// column 0 and nowhere else.
pub proof fn lemma_frame_point(c: Character)
    requires
        c.wf(),
    ensures
        frame(c.glyph())[0] == rows(font::glyph(c.base()), 0).update(
            0,
            c.point() || c.base() == font::FULL_STOP,
        ),
        frame(c.glyph())[1] == rows(font::glyph(c.base()), 1),
{
    let plain = font::glyph(c.base());
    lemma_point_bit(c);
    if c.point() {
        assert forall|index: int| 0 < index < 16 implies bit(c.glyph(), index) == bit(
            plain,
            index,
        ) by {
            lemma_glyph_with_point(c, index);
        }
    } else {
        lemma_glyph_without_point(c);
    }
    assert(rows(c.glyph(), 0) =~= rows(plain, 0).update(
        0,
        c.point() || c.base() == font::FULL_STOP,
    ));
    assert(rows(c.glyph(), 1) =~= rows(plain, 1));
}

/// An alphanumeric display behind a pin matrix of two columns and eight
/// rows. Its view is that of the matrix.
pub struct LED {
    pins: OutputPinMatrix<2, 8>,
}

impl View for LED {
    type V = Seq<Seq<bool>>;

    closed spec fn view(&self) -> Seq<Seq<bool>> {
        self.pins@
    }
}

impl LED {
    /// A display behind the given matrix, which stays as it is.
    pub fn new(pins: OutputPinMatrix<2, 8>) -> (led: LED)
        ensures
            led@ == pins@,
    {
        LED { pins }
    }

    /// The matrix as the display last wrote it.
    pub fn pins(&self) -> (pins: &OutputPinMatrix<2, 8>)
        ensures
            pins@ == self@,
    {
        &self.pins
    }
}

impl crate::Led for LED {
    type State = Character;

    open spec fn shows(&self, c: Character) -> bool {
        self@ == frame(c.glyph())
    }

    /// Shows `c`: writes the low byte of its glyph to column 0 and the high
    /// byte to column 1. What the matrix answers to a write is dropped.
    fn set(&mut self, c: Character)
        ensures
            final(self)@ == frame(c.glyph()),
    {
        let glyph = c.glyph();
        let low = [
            (glyph >> 0) & 0x01 == 0x01,
            (glyph >> 1) & 0x01 == 0x01,
            (glyph >> 2) & 0x01 == 0x01,
            (glyph >> 3) & 0x01 == 0x01,
            (glyph >> 4) & 0x01 == 0x01,
            (glyph >> 5) & 0x01 == 0x01,
            (glyph >> 6) & 0x01 == 0x01,
            (glyph >> 7) & 0x01 == 0x01,
        ];
        let high = [
            (glyph >> 8) & 0x01 == 0x01,
            (glyph >> 9) & 0x01 == 0x01,
            (glyph >> 10) & 0x01 == 0x01,
            (glyph >> 11) & 0x01 == 0x01,
            (glyph >> 12) & 0x01 == 0x01,
            (glyph >> 13) & 0x01 == 0x01,
            (glyph >> 14) & 0x01 == 0x01,
            (glyph >> 15) & 0x01 == 0x01,
        ];
        proof {
            self.pins.lemma_shape();
            assert(low@ =~= rows(glyph, 0));
            assert(high@ =~= rows(glyph, 1));
        }
        ignore(self.pins.set_column(0, &low));
        ignore(self.pins.set_column(1, &high));
        assert(self@ =~= frame(glyph));
    }
}

/// The levels of the seven segment pins while the first half of `glyph` is
/// shown: pin `k` carries bit `15 - k`.
pub open spec fn first_half(glyph: u16) -> Seq<Level> {
    Seq::new(7, |k: int| Level::of(bit(glyph, 15 - k)))
}

/// The levels of the seven segment pins while the second half of `glyph` is
/// shown: pin `k` carries bit `7 - k`.
pub open spec fn second_half(glyph: u16) -> Seq<Level> {
    Seq::new(7, |k: int| Level::of(bit(glyph, 7 - k)))
}

/// The decimal point of a character changes neither half of its glyph on
/// the segment pins.
pub proof fn lemma_halves_ignore_point(c: Character)
    requires
        c.wf(),
    ensures
        first_half(c.glyph()) == first_half(font::glyph(c.base())),
        second_half(c.glyph()) == second_half(font::glyph(c.base())),
{
    let plain = font::glyph(c.base());
    if c.point() {
        assert forall|index: int| 0 < index < 16 implies bit(c.glyph(), index) == bit(
            plain,
            index,
        ) by {
            lemma_glyph_with_point(c, index);
        }
    } else {
        lemma_glyph_without_point(c);
    }
    assert(first_half(c.glyph()) =~= first_half(plain));
    assert(second_half(c.glyph()) =~= second_half(plain));
}

/// What a [`SegmentLED`] holds: the glyph it has latched and the levels of
/// its pins.
pub struct SegmentState {
    pub glyph: u16,
    pub segments: Seq<Level>,
    pub point: Level,
}

/// An alphanumeric display on seven segment pins and a decimal-point pin,
/// which can show one half of a glyph at a time.
///
/// The display latches the glyph of the character it is set to. The pins
/// change only when one of the two halves is put out; how often and in which
/// order that happens is up to the caller.
pub struct SegmentLED {
    segments: [OutputPin; 7],
    point: OutputPin,
    glyph: u16,
}

impl View for SegmentLED {
    type V = SegmentState;

    closed spec fn view(&self) -> SegmentState {
        SegmentState {
            glyph: self.glyph,
            segments: Seq::new(7, |k: int| self.segments@[k]@),
            point: self.point@,
        }
    }
}

impl SegmentLED {
    /// A display on the given pins, which keep their levels, with a blank
    /// glyph latched.
    pub fn new(segments: [OutputPin; 7], point: OutputPin) -> (led: SegmentLED)
        ensures
            led@ == (SegmentState {
                glyph: 0,
                segments: Seq::new(7, |k: int| segments@[k]@),
                point: point@,
            }),
    {
        SegmentLED { segments, point, glyph: 0 }
    }

    /// The glyph that is latched.
    pub fn glyph(&self) -> (glyph: u16)
        ensures
            glyph == self@.glyph,
    {
        self.glyph
    }

    /// The levels the seven segment pins are driven to.
    pub fn segments(&self) -> (levels: [Level; 7])
        ensures
            levels@ == self@.segments,
    {
        let levels = [
            self.segments[0].level(),
            self.segments[1].level(),
            self.segments[2].level(),
            self.segments[3].level(),
            self.segments[4].level(),
            self.segments[5].level(),
            self.segments[6].level(),
        ];
        assert(levels@ =~= self@.segments);
        levels
    }

    /// The level the decimal-point pin is driven to.
    pub fn point(&self) -> (level: Level)
        ensures
            level == self@.point,
    {
        self.point.level()
    }

    /// Drives segment pin `k` from bit `top - k` of the latched glyph, for
    /// each of the seven pins.
    fn output_segments(&mut self, top: usize)
        requires
            6 <= top <= 15,
        ensures
            final(self)@.glyph == old(self)@.glyph,
            final(self)@.point == old(self)@.point,
            final(self)@.segments == Seq::new(
                7,
                |k: int| Level::of(bit(old(self)@.glyph, top - k)),
            ),
    {
        let mut k: usize = 0;
        while k < 7
            invariant
                6 <= top <= 15,
                k <= 7,
                self.glyph == old(self).glyph,
                self.point == old(self).point,
                forall|j: int|
                    0 <= j < k ==> (#[trigger] self.segments@[j])@ == Level::of(
                        bit(self.glyph, top - j),
                    ),
            decreases 7 - k,
        {
            let high = (self.glyph >> (top - k)) & 0x01 == 0x01;
            let mut pin = self.segments[k];
            pin.drive(high);
            self.segments[k] = pin;
            k += 1;
        }
        assert(self@.segments =~= Seq::new(7, |k: int| Level::of(bit(self.glyph, top - k))));
    }

    /// Puts out the first half of the latched glyph: the segment pins carry
    /// bits 15 to 9, and the decimal-point pin is low.
    pub fn output_first_half(&mut self)
        ensures
            final(self)@ == (SegmentState {
                glyph: old(self)@.glyph,
                segments: first_half(old(self)@.glyph),
                point: Level::Low,
            }),
    {
        self.output_segments(15);
        self.point.set_low();
        assert(self@.segments =~= first_half(self.glyph));
    }

    /// Puts out the second half of the latched glyph: the segment pins carry
    /// bits 7 to 1, and the decimal-point pin carries bit 0.
    pub fn output_second_half(&mut self)
        ensures
            final(self)@ == (SegmentState {
                glyph: old(self)@.glyph,
                segments: second_half(old(self)@.glyph),
                point: Level::of(bit(old(self)@.glyph, 0)),
            }),
    {
        self.output_segments(7);
        let high = (self.glyph >> 0) & 0x01 == 0x01;
        self.point.drive(high);
        assert(self@.segments =~= second_half(self.glyph));
    }
}

impl crate::Led for SegmentLED {
    type State = Character;

    open spec fn shows(&self, c: Character) -> bool {
        self@.glyph == c.glyph()
    }

    /// Latches the glyph of `c`. No pin changes.
    fn set(&mut self, c: Character)
        ensures
            final(self)@ == (SegmentState { glyph: c.glyph(), ..old(self)@ }),
    {
        self.glyph = c.glyph();
    }
}

} // verus!
