//! The text-mode display: a grid of character cells, written left to right
//! and top to bottom.

use vstd::prelude::*;
use vstd::string::StringSliceAdditionalSpecFns;
use crate::sync::mutex::Mutex;

verus! {

/// The sixteen colours of the text mode.
#[derive(PartialEq, Eq, Structural, Clone, Copy, Debug)]
pub enum Color {
    Black,
    Blue,
    Green,
    Cyan,
    Red,
    Magenta,
    Brown,
    LightGray,
    DarkGray,
    LightBlue,
    LightGreen,
    LightCyan,
    LightRed,
    Pink,
    Yellow,
    White,
}

impl Color {
    /// The colour's number in the hardware palette.
    pub open spec fn spec_code(self) -> u8 {
        match self {
            Color::Black => 0,
            Color::Blue => 1,
            Color::Green => 2,
            Color::Cyan => 3,
            Color::Red => 4,
            Color::Magenta => 5,
            Color::Brown => 6,
            Color::LightGray => 7,
            Color::DarkGray => 8,
            Color::LightBlue => 9,
            Color::LightGreen => 10,
            Color::LightCyan => 11,
            Color::LightRed => 12,
            Color::Pink => 13,
            Color::Yellow => 14,
            Color::White => 15,
        }
    }

    /// The colour's number in the hardware palette.
    #[verifier::when_used_as_spec(spec_code)]
    pub fn code(self) -> (code: u8)
        ensures
            code == self.spec_code(),
            code < 16,
    {
        match self {
            Color::Black => 0,
            Color::Blue => 1,
            Color::Green => 2,
            Color::Cyan => 3,
            Color::Red => 4,
            Color::Magenta => 5,
            Color::Brown => 6,
            Color::LightGray => 7,
            Color::DarkGray => 8,
            Color::LightBlue => 9,
            Color::LightGreen => 10,
            Color::LightCyan => 11,
            Color::LightRed => 12,
            Color::Pink => 13,
            Color::Yellow => 14,
            Color::White => 15,
        }
    }
}

impl Default for Color {
    fn default() -> (color: Self)
        ensures
            color == Color::Black,
    {
        Color::Black
    }
}

/// A foreground and a background colour in one byte: the background in the
/// high four bits, the foreground in the low four.
#[derive(PartialEq, Eq, Structural, Clone, Copy, Debug)]
pub struct ColorCode(pub u8);

impl ColorCode {
    #[inline]
    pub fn new(foreground: Color, background: Color) -> (code: ColorCode)
        ensures
            code.0 == background.code() * 16 + foreground.code(),
            code.0 & 0x0f == foreground.code(),
            code.0 >> 4 == background.code(),
    {
        let low: u8 = foreground.code();
        let high: u8 = background.code();
        assert((high << 4) | low == high * 16 + low && ((high << 4) | low) & 0x0f == low && ((high
            << 4) | low) >> 4 == high) by (bit_vector)
            requires
                low < 16,
                high < 16,
        ;
        ColorCode((high << 4) | low)
    }
}

impl Default for ColorCode {
    fn default() -> (code: Self)
        ensures
            code == ColorCode(0),
    {
        ColorCode(0)
    }
}

/// One cell of the display.
#[derive(PartialEq, Eq, Structural, Clone, Copy, Debug)]
pub struct ScreenChar {
    pub ascii_character: u8,
    pub color_code: ColorCode,
}

impl Default for ScreenChar {
    fn default() -> (cell: Self)
        ensures
            cell == (ScreenChar { ascii_character: 0, color_code: ColorCode(0) }),
    {
        ScreenChar { ascii_character: 0, color_code: ColorCode(0) }
    }
}

/// Where the hardware maps the display.
pub const BUFFER_ADDR: usize = 0xb8000;

pub const BUFFER_HEIGHT: usize = 25;

pub const BUFFER_WIDTH: usize = 80;

/// The number of cells.
pub const BUFFER_SIZE: usize = BUFFER_WIDTH * BUFFER_HEIGHT;

/// The byte shown in place of one that has no glyph.
pub const UNPRINTABLE: u8 = 0xfe;

/// The cells of the display, row after row.
#[derive(PartialEq, Eq, Clone, Copy, Debug)]
pub struct Buffer {
    pub chars: [ScreenChar; BUFFER_SIZE],
}

impl Default for Buffer {
    #[inline]
    fn default() -> (buffer: Self)
        ensures
            forall|i: int| 0 <= i < BUFFER_SIZE ==> buffer.chars@[i] == (ScreenChar {
                ascii_character: 0,
                color_code: ColorCode(0),
            }),
    {
        Self { chars: [ScreenChar::default();BUFFER_SIZE] }
    }
}

/// The display as the contracts see it: where the next character goes, in
/// which colours, and what each cell shows.
pub struct Screen {
    pub position: int,
    pub color_code: ColorCode,
    pub cells: Seq<ScreenChar>,
}

/// The start of the line below the one that holds `position`: the least
/// multiple of the width that is greater than `position`.
pub open spec fn next_line_start(position: int) -> int {
    (position / BUFFER_WIDTH as int + 1) * BUFFER_WIDTH
}

/// The byte that is displayed for `byte`: itself if it is a printable ASCII
/// character or a line feed, the placeholder otherwise.
pub open spec fn displayed(byte: u8) -> u8 {
    if (0x20 <= byte <= 0x7e) || byte == 0x0a {
        byte
    } else {
        UNPRINTABLE
    }
}

/// Where the next character goes once `byte` has been written at `position`.
pub open spec fn position_after(position: int, byte: u8) -> int {
    if byte == 0x0a {
        next_line_start(position)
    } else {
        position + 1
    }
}

/// Whether `bytes` can be written from `position` on: whether the position is
/// on the display before each byte. The display does not scroll.
pub open spec fn fits(position: int, bytes: Seq<u8>) -> bool
    decreases bytes.len(),
{
    bytes.len() == 0 || (position < BUFFER_SIZE && fits(
        position_after(position, displayed(bytes[0])),
        bytes.drop_first(),
    ))
}

impl Screen {
    /// The display after `byte` has been written: a line feed moves to the
    /// start of the next line and leaves the cells alone, any other byte
    /// fills the cell at the position and moves one cell on.
    pub open spec fn put(self, byte: u8) -> Screen {
        if byte == 0x0a {
            Screen { position: next_line_start(self.position), ..self }
        } else {
            Screen {
                position: self.position + 1,
                cells: self.cells.update(
                    self.position,
                    ScreenChar { ascii_character: byte, color_code: self.color_code },
                ),
                ..self
            }
        }
    }

    /// The display after each of `bytes` has been written in turn, as the
    /// byte that is displayed for it.
    pub open spec fn print(self, bytes: Seq<u8>) -> Screen
        decreases bytes.len(),
    {
        if bytes.len() == 0 {
            self
        } else {
            self.put(displayed(bytes[0])).print(bytes.drop_first())
        }
    }
}

/// `next_line_start` is a line start, past `position` and no more than one
/// line away.
pub proof fn lemma_next_line_start(position: int)
    requires
        0 <= position,
    ensures
        next_line_start(position) % (BUFFER_WIDTH as int) == 0,
        position < next_line_start(position) <= position + BUFFER_WIDTH,
{
    let width = BUFFER_WIDTH as int;
    assert(position == width * (position / width) + position % width) by (nonlinear_arith)
        requires
            width > 0,
    ;
    assert(((position / width + 1) * width) % width == 0) by (nonlinear_arith)
        requires
            width > 0,
    ;
    assert((position / width + 1) * width == width * (position / width) + width)
        by (nonlinear_arith);
}

/// Writing in parts is writing the whole: a text that is written as `first`
/// and then `second` fits exactly when the two fit as one, and leaves the
/// display as the one would.
pub proof fn lemma_print_in_parts(screen: Screen, first: Seq<u8>, second: Seq<u8>)
    ensures
        screen.print(first + second) == screen.print(first).print(second),
        fits(screen.position, first + second) <==> fits(screen.position, first) && fits(
            screen.print(first).position,
            second,
        ),
    decreases first.len(),
{
    if first.len() == 0 {
        assert(first + second =~= second);
    } else {
        assert((first + second).drop_first() =~= first.drop_first() + second);
        lemma_print_in_parts(screen.put(displayed(first[0])), first.drop_first(), second);
    }
}

/// Writes characters into a display buffer that it borrows.
pub struct Writer<'a> {
    pub position: usize,
    pub color_code: ColorCode,
    pub buffer: &'a mut Buffer,
}

impl<'a> View for Writer<'a> {
    type V = Screen;

    open spec fn view(&self) -> Screen {
        Screen {
            position: self.position as int,
            color_code: self.color_code,
            cells: self.buffer.chars@,
        }
    }
}

impl<'a> Writer<'a> {
    /// Writes one byte as it is: a line feed starts a new line, any other
    /// byte goes into the cell at the position.
    pub fn write_byte(&mut self, byte: u8)
        requires
            old(self)@.position < BUFFER_SIZE,
        ensures
            final(self)@ == old(self)@.put(byte),
            *final(final(self).buffer) == *final(old(self).buffer),
    {
        match byte {
            0x0a => self.new_line(),
            byte => {
                let color_code = self.color_code;
                self.buffer.chars[self.position] = ScreenChar { ascii_character: byte, color_code };
                self.position += 1;
            },
        }
    }

    /// Writes the bytes of `s` in turn, each as the byte that is displayed for
    /// it.
    pub fn write_str(&mut self, s: &str)
        requires
            fits(old(self)@.position, s.spec_bytes()),
        ensures
            final(self)@ == old(self)@.print(s.spec_bytes()),
            *final(final(self).buffer) == *final(old(self).buffer),
    {
        let bytes = s.as_bytes();
        let mut i: usize = 0;
        proof {
            assert(bytes@.skip(0) =~= bytes@);
        }
        while i < bytes.len()
            invariant
                0 <= i <= bytes.len(),
                bytes@ == s.spec_bytes(),
                fits(self@.position, bytes@.skip(i as int)),
                self@.print(bytes@.skip(i as int)) == old(self)@.print(bytes@),
                *final(self.buffer) == *final(old(self).buffer),
            decreases bytes.len() - i,
        {
            let byte = bytes[i];
            proof {
                assert(bytes@.skip(i as int)[0] == byte);
                assert(bytes@.skip(i as int).drop_first() =~= bytes@.skip(i as int + 1));
            }
            match byte {
                0x20..=0x7e | 0x0a => self.write_byte(byte),
                _ => self.write_byte(UNPRINTABLE),
            }
            i += 1;
        }
    }

    /// Whether `write_str` can take `s`: whether the display has room for it
    /// from the position on.
    pub fn can_write_str(&self, s: &str) -> (ok: bool)
        ensures
            ok == fits(self@.position, s.spec_bytes()),
    {
        let bytes = s.as_bytes();
        let mut position: usize = self.position;
        let mut i: usize = 0;
        proof {
            assert(bytes@.skip(0) =~= bytes@);
        }
        while i < bytes.len()
            invariant
                0 <= i <= bytes.len(),
                bytes@ == s.spec_bytes(),
                fits(self@.position, bytes@) == fits(position as int, bytes@.skip(i as int)),
            decreases bytes.len() - i,
        {
            if position >= BUFFER_SIZE {
                return false;
            }
            let byte = bytes[i];
            proof {
                assert(bytes@.skip(i as int)[0] == byte);
                assert(bytes@.skip(i as int).drop_first() =~= bytes@.skip(i as int + 1));
                lemma_next_line_start(position as int);
            }
            position = match byte {
                0x0a => (position / BUFFER_WIDTH + 1) * BUFFER_WIDTH,
                _ => position + 1,
            };
            i += 1;
        }
        true
    }

    fn new_line(&mut self)
        requires
            old(self)@.position < BUFFER_SIZE,
        ensures
            final(self)@ == (Screen {
                position: next_line_start(old(self)@.position),
                ..old(self)@
            }),
            *final(final(self).buffer) == *final(old(self).buffer),
    {
        proof {
            lemma_next_line_start(self.position as int);
        }
        self.position = (self.position / BUFFER_WIDTH + 1) * BUFFER_WIDTH;
    }
}

/// Prints `s` on the display behind `writer`, if the lock is free: acquires
/// it, writes, and frees it again. Returns whether it printed; a lock that is
/// held leaves everything as it was.
#[must_use]
pub fn try_print(writer: &mut Mutex<Writer<'_>>, s: &str) -> (printed: bool)
    requires
        !old(writer).is_locked() ==> fits(old(writer).payload()@.position, s.spec_bytes()),
    ensures
        printed == !old(writer).is_locked(),
        !printed ==> *final(writer) == *old(writer),
        printed ==> {
            &&& !final(writer).is_locked()
            &&& final(writer).payload()@ == old(writer).payload()@.print(s.spec_bytes())
            &&& *final(final(writer).payload().buffer) == *final(old(writer).payload().buffer)
        },
{
    if let Some(mut x) = writer.try_lock() {
        x.write_str(s);
        x.unlock();
        true
    } else {
        false
    }
}

/// Prints `s` on the display behind `writer`, whose lock must be free.
pub fn print(writer: &mut Mutex<Writer<'_>>, s: &str)
    requires
        !old(writer).is_locked(),
        fits(old(writer).payload()@.position, s.spec_bytes()),
    ensures
        !final(writer).is_locked(),
        final(writer).payload()@ == old(writer).payload()@.print(s.spec_bytes()),
        *final(final(writer).payload().buffer) == *final(old(writer).payload().buffer),
{
    let printed = try_print(writer, s);
    assert(printed);
}

} // verus!
