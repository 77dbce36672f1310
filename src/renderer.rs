//! The ANSI control-sequence encoder. It appends to an output buffer that
//! the caller hands to the terminal.
use vstd::prelude::*;

use crate::linalg::point2::Point2;
use crate::style::rgb::Rgb;

verus! {

/// The ASCII digits of `n` in decimal.
pub open spec fn dec(n: nat) -> Seq<u8>
    decreases n,
{
    if n < 10 {
        seq![(48 + n) as u8]
    } else {
        dec(n / 10).push((48 + n % 10) as u8)
    }
}

/// The UTF-8 encoding of a character, as vstd defines it.
pub open spec fn utf8(c: char) -> Seq<u8> {
    vstd::utf8::encode_scalar(c as u32)
}

/// The bytes written for a character are valid UTF-8 and decode back to it.
pub proof fn lemma_utf8_round_trip(c: char)
    ensures
        vstd::utf8::valid_utf8(utf8(c)),
        vstd::utf8::decode_utf8(utf8(c)) == seq![c],
{
    let chars = seq![c];
    assert(chars.drop_first() =~= Seq::<char>::empty());
    assert(vstd::utf8::encode_utf8(Seq::<char>::empty()) =~= Seq::<u8>::empty());
    assert(chars[0] == c);
    assert(vstd::utf8::encode_utf8(chars) =~= utf8(c));
    vstd::utf8::encode_utf8_valid_utf8(chars);
    vstd::utf8::encode_utf8_decode_utf8(chars);
}

/// The control sequence introducer, `ESC [`.
pub open spec fn csi() -> Seq<u8> {
    seq![0x1Bu8, 0x5Bu8]
}

/// `ESC[{row+1};{col+1}H`: moves the cursor to a 0-based row and column.
pub open spec fn move_seq(row: nat, col: nat) -> Seq<u8> {
    csi() + dec(row + 1) + seq![0x3Bu8] + dec(col + 1) + seq![0x48u8]
}

/// `ESC[{kind};2;{r};{g};{b}m`: a truecolor selection.
pub open spec fn color_seq(kind: nat, c: Rgb) -> Seq<u8> {
    csi() + dec(kind) + seq![0x3Bu8, 0x32u8, 0x3Bu8] + dec(c.r as nat) + seq![0x3Bu8] + dec(
        c.g as nat,
    ) + seq![0x3Bu8] + dec(c.b as nat) + seq![0x6Du8]
}

/// `ESC[48;2;{r};{g};{b}m`: sets the background colour.
pub open spec fn bg_seq(c: Rgb) -> Seq<u8> {
    color_seq(48, c)
}

/// `ESC[38;2;{r};{g};{b}m`: sets the foreground colour.
pub open spec fn fg_seq(c: Rgb) -> Seq<u8> {
    color_seq(38, c)
}

/// `ESC[2J`: clears the screen.
pub open spec fn clear_seq() -> Seq<u8> {
    csi() + seq![0x32u8, 0x4Au8]
}

/// `ESC[49m`: restores the default background.
pub open spec fn reset_bg_seq() -> Seq<u8> {
    csi() + seq![0x34u8, 0x39u8, 0x6Du8]
}

/// `ESC[39m`: restores the default foreground.
pub open spec fn reset_fg_seq() -> Seq<u8> {
    csi() + seq![0x33u8, 0x39u8, 0x6Du8]
}

/// `ESC[?25l`: hides the cursor.
pub open spec fn hide_cursor_seq() -> Seq<u8> {
    csi() + seq![0x3Fu8, 0x32u8, 0x35u8, 0x6Cu8]
}

/// `ESC[?25h`: shows the cursor.
pub open spec fn show_cursor_seq() -> Seq<u8> {
    csi() + seq![0x3Fu8, 0x32u8, 0x35u8, 0x68u8]
}

/// Appends the decimal digits of `n`.
fn push_decimal(buf: &mut Vec<u8>, n: usize)
    ensures
        final(buf)@ == old(buf)@ + dec(n as nat),
    decreases n,
{
    if n >= 10 {
        push_decimal(buf, n / 10);
    }
    let digit: u8 = (n % 10) as u8;
    buf.push(48 + digit);
    proof {
        if n >= 10 {
            assert(final(buf)@ =~= old(buf)@ + dec(n as nat));
        } else {
            assert(final(buf)@ =~= old(buf)@ + dec(n as nat));
        }
    }
}

/// Appends literal bytes.
fn push_all(buf: &mut Vec<u8>, bytes: &[u8])
    ensures
        final(buf)@ == old(buf)@ + bytes@,
{
    let mut i: usize = 0;
    while i < bytes.len()
        invariant
            0 <= i <= bytes@.len(),
            buf@ == old(buf)@ + bytes@.subrange(0, i as int),
        decreases bytes@.len() - i,
    {
        buf.push(bytes[i]);
        i = i + 1;
        assert(buf@ =~= old(buf)@ + bytes@.subrange(0, i as int));
    }
    assert(bytes@.subrange(0, bytes@.len() as int) =~= bytes@);
}

/// Encodes terminal operations as control sequences, appending them to an
/// output buffer that the caller writes out and flushes.
pub struct Renderer {
    buffer: Vec<u8>,
}

impl Renderer {
    /// The output not yet handed out.
    pub closed spec fn pending(&self) -> Seq<u8> {
        self.buffer@
    }

    /// An encoder with nothing pending.
    pub fn new() -> (r: Renderer)
        ensures
            r.pending() == Seq::<u8>::empty(),
    {
        Renderer { buffer: Vec::new() }
    }

    fn push_color(&mut self, kind: usize, color: &Rgb)
        requires
            kind == 48 || kind == 38,
        ensures
            final(self).pending() == old(self).pending() + color_seq(kind as nat, *color),
    {
        push_all(&mut self.buffer, &[0x1Bu8, 0x5Bu8]);
        push_decimal(&mut self.buffer, kind);
        push_all(&mut self.buffer, &[0x3Bu8, 0x32u8, 0x3Bu8]);
        push_decimal(&mut self.buffer, color.r as usize);
        push_all(&mut self.buffer, &[0x3Bu8]);
        push_decimal(&mut self.buffer, color.g as usize);
        push_all(&mut self.buffer, &[0x3Bu8]);
        push_decimal(&mut self.buffer, color.b as usize);
        push_all(&mut self.buffer, &[0x6Du8]);
        assert(self.buffer@ =~= old(self).buffer@ + color_seq(kind as nat, *color));
    }

    /// Sets the background colour.
    pub fn change_bg(&mut self, color: &Rgb)
        ensures
            final(self).pending() == old(self).pending() + bg_seq(*color),
    {
        self.push_color(48, color);
    }

    /// Sets the foreground colour.
    pub fn change_fg(&mut self, color: &Rgb)
        ensures
            final(self).pending() == old(self).pending() + fg_seq(*color),
    {
        self.push_color(38, color);
    }

    /// Clears the screen.
    pub fn clear(&mut self)
        ensures
            final(self).pending() == old(self).pending() + clear_seq(),
    {
        push_all(&mut self.buffer, &[0x1Bu8, 0x5Bu8, 0x32u8, 0x4Au8]);
        assert(self.buffer@ =~= old(self).buffer@ + clear_seq());
    }

    /// Hides the cursor.
    pub fn hide_cursor(&mut self)
        ensures
            final(self).pending() == old(self).pending() + hide_cursor_seq(),
    {
        push_all(&mut self.buffer, &[0x1Bu8, 0x5Bu8, 0x3Fu8, 0x32u8, 0x35u8, 0x6Cu8]);
        assert(self.buffer@ =~= old(self).buffer@ + hide_cursor_seq());
    }

    /// Shows the cursor.
    pub fn show_cursor(&mut self)
        ensures
            final(self).pending() == old(self).pending() + show_cursor_seq(),
    {
        push_all(&mut self.buffer, &[0x1Bu8, 0x5Bu8, 0x3Fu8, 0x32u8, 0x35u8, 0x68u8]);
        assert(self.buffer@ =~= old(self).buffer@ + show_cursor_seq());
    }

    /// Moves the cursor to column `pos.x`, row `pos.y` (0-based).
    pub fn move_cursor(&mut self, pos: Point2)
        requires
            pos.x < usize::MAX,
            pos.y < usize::MAX,
        ensures
            final(self).pending() == old(self).pending() + move_seq(pos.y as nat, pos.x as nat),
    {
        push_all(&mut self.buffer, &[0x1Bu8, 0x5Bu8]);
        push_decimal(&mut self.buffer, pos.y + 1);
        push_all(&mut self.buffer, &[0x3Bu8]);
        push_decimal(&mut self.buffer, pos.x + 1);
        push_all(&mut self.buffer, &[0x48u8]);
        assert(self.buffer@ =~= old(self).buffer@ + move_seq(pos.y as nat, pos.x as nat));
    }

    /// Restores the terminal's default background.
    pub fn reset_bg(&mut self)
        ensures
            final(self).pending() == old(self).pending() + reset_bg_seq(),
    {
        push_all(&mut self.buffer, &[0x1Bu8, 0x5Bu8, 0x34u8, 0x39u8, 0x6Du8]);
        assert(self.buffer@ =~= old(self).buffer@ + reset_bg_seq());
    }

    /// Restores the terminal's default foreground.
    pub fn reset_fg(&mut self)
        ensures
            final(self).pending() == old(self).pending() + reset_fg_seq(),
    {
        push_all(&mut self.buffer, &[0x1Bu8, 0x5Bu8, 0x33u8, 0x39u8, 0x6Du8]);
        assert(self.buffer@ =~= old(self).buffer@ + reset_fg_seq());
    }

    /// Writes a character as its UTF-8 bytes.
    pub fn write(&mut self, c: char)
        ensures
            final(self).pending() == old(self).pending() + utf8(c),
    {
        let v: u32 = c as u32;
        if v <= 0x7F {
            self.buffer.push((v & 0x7F) as u8);
        } else if v <= 0x7FF {
            self.buffer.push(0xC0 | ((v >> 6) & 0x1F) as u8);
            self.buffer.push(0x80 | (v & 0x3F) as u8);
        } else if v <= 0xFFFF {
            self.buffer.push(0xE0 | ((v >> 12) & 0x0F) as u8);
            self.buffer.push(0x80 | ((v >> 6) & 0x3F) as u8);
            self.buffer.push(0x80 | (v & 0x3F) as u8);
        } else {
            self.buffer.push(0xF0 | ((v >> 18) & 0x7) as u8);
            self.buffer.push(0x80 | ((v >> 12) & 0x3F) as u8);
            self.buffer.push(0x80 | ((v >> 6) & 0x3F) as u8);
            self.buffer.push(0x80 | (v & 0x3F) as u8);
        }
        assert(self.buffer@ =~= old(self).buffer@ + utf8(c));
    }

    /// Hands out the pending output, for the caller to write to the
    /// terminal and flush; nothing is pending afterwards.
    pub fn flush(&mut self) -> (r: Vec<u8>)
        ensures
            r@ == old(self).pending(),
            final(self).pending() == Seq::<u8>::empty(),
    {
        let mut out: Vec<u8> = Vec::new();
        std::mem::swap(&mut out, &mut self.buffer);
        out
    }
}

} // verus!
