//! What the renderer needs from the core: the measured display surface, the
//! formatted time text, and the centering arithmetic. The cursor and screen
//! I/O itself lives outside the library.
use vstd::prelude::*;

verus! {

/// Relies on crossterm::terminal::size for the current terminal dimensions;
/// `None` when they cannot be read.
#[verifier::external_body]
fn terminal_size() -> (wh: Option<(u16, u16)>) {
    match crossterm::terminal::size() {
        Ok(wh) => Some(wh),
        Err(_) => None,
    }
}

/// The terminal dimensions, falling back to 80 by 24 columns/rows when they
/// cannot be read.
fn measured_size() -> (wh: (u16, u16)) {
    match terminal_size() {
        Some(wh) => wh,
        None => (80, 24),
    }
}

/// The measured display surface, in character cells.
#[derive(Debug)]
pub struct Display {
    pub width: u16,
    pub height: u16,
}

impl Display {
    /// Measure the terminal once.
    pub fn new() -> (d: Display) {
        let (width, height) = measured_size();
        Display { width, height }
    }

    /// Re-measure the terminal, e.g. after a resize event.
    pub fn update_size(&mut self) {
        let (width, height) = measured_size();
        self.width = width;
        self.height = height;
    }
}

pub open spec fn digit_char(d: int) -> char {
    if d == 0 {
        '0'
    } else if d == 1 {
        '1'
    } else if d == 2 {
        '2'
    } else if d == 3 {
        '3'
    } else if d == 4 {
        '4'
    } else if d == 5 {
        '5'
    } else if d == 6 {
        '6'
    } else if d == 7 {
        '7'
    } else if d == 8 {
        '8'
    } else {
        '9'
    }
}

/// The decimal digits of `n`, most significant first.
pub open spec fn dec_seq(n: int) -> Seq<char>
    decreases n,
{
    if n < 10 {
        seq![digit_char(n)]
    } else {
        dec_seq(n / 10) + seq![digit_char(n % 10)]
    }
}

/// The decimal digits of `n`, zero-padded on the left to at least two.
pub open spec fn pad2_seq(n: int) -> Seq<char> {
    if n < 10 {
        seq!['0', digit_char(n)]
    } else {
        dec_seq(n)
    }
}

/// The text of a whole-second duration: `HH:MM:SS` once at least an hour is
/// shown, else `MM:SS`, every part zero-padded to two digits.
pub open spec fn spec_format_duration(secs: u64) -> Seq<char> {
    let h = secs as int / 3600;
    let m = (secs as int % 3600) / 60;
    let s = secs as int % 60;
    if h > 0 {
        pad2_seq(h) + seq![':'] + pad2_seq(m) + seq![':'] + pad2_seq(s)
    } else {
        pad2_seq(m) + seq![':'] + pad2_seq(s)
    }
}

fn digit_char_of(d: u64) -> (c: char)
    requires
        d < 10,
    ensures
        c == digit_char(d as int),
{
    if d == 0 {
        '0'
    } else if d == 1 {
        '1'
    } else if d == 2 {
        '2'
    } else if d == 3 {
        '3'
    } else if d == 4 {
        '4'
    } else if d == 5 {
        '5'
    } else if d == 6 {
        '6'
    } else if d == 7 {
        '7'
    } else if d == 8 {
        '8'
    } else {
        '9'
    }
}

fn push_dec(out: &mut Vec<char>, n: u64)
    ensures
        final(out)@ == old(out)@ + dec_seq(n as int),
    decreases n,
{
    if n < 10 {
        out.push(digit_char_of(n));
        proof {
            assert(out@ =~= old(out)@ + dec_seq(n as int));
        }
    } else {
        push_dec(out, n / 10);
        out.push(digit_char_of(n % 10));
        proof {
            assert(out@ =~= old(out)@ + dec_seq(n as int));
        }
    }
}

fn push_pad2(out: &mut Vec<char>, n: u64)
    ensures
        final(out)@ == old(out)@ + pad2_seq(n as int),
{
    if n < 10 {
        out.push('0');
        out.push(digit_char_of(n));
        proof {
            assert(out@ =~= old(out)@ + pad2_seq(n as int));
        }
    } else {
        push_dec(out, n);
    }
}

/// Relies on the std FromIterator impl for String: collecting a sequence of
/// characters builds the string of exactly those characters.
#[verifier::external_body]
fn string_from_chars(v: &Vec<char>) -> (s: String)
    ensures
        s@ == v@,
{
    v.iter().collect()
}

/// The display text for a duration, `MM:SS` or `HH:MM:SS`.
pub fn format_duration(secs: u64) -> (r: String)
    ensures
        r@ == spec_format_duration(secs),
{
    let hours = secs / 3600;
    let minutes = (secs % 3600) / 60;
    let seconds = secs % 60;
    let mut out: Vec<char> = Vec::new();
    if hours > 0 {
        push_pad2(&mut out, hours);
        out.push(':');
        push_pad2(&mut out, minutes);
        out.push(':');
        push_pad2(&mut out, seconds);
    } else {
        push_pad2(&mut out, minutes);
        out.push(':');
        push_pad2(&mut out, seconds);
    }
    proof {
        assert(out@ =~= spec_format_duration(secs));
    }
    string_from_chars(&out)
}

/// The summed character width of a row of glyph tops laid side by side.
pub open spec fn widths_sum(rows: Seq<&str>) -> int
    decreases rows.len(),
{
    if rows.len() == 0 {
        0
    } else {
        widths_sum(rows.drop_last()) + rows.last()@.len()
    }
}

/// The total width in cells of glyphs laid side by side, each as wide as
/// its given top row; saturates at the machine limit.
pub fn glyph_row_width(rows: &Vec<&str>) -> (w: usize)
    ensures
        w == if widths_sum(rows@) <= usize::MAX {
            widths_sum(rows@)
        } else {
            usize::MAX as int
        },
{
    let mut w: usize = 0;
    let mut i: usize = 0;
    while i < rows.len()
        invariant
            i <= rows@.len(),
            w == if widths_sum(rows@.take(i as int)) <= usize::MAX {
                widths_sum(rows@.take(i as int))
            } else {
                usize::MAX as int
            },
        decreases rows@.len() - i,
    {
        let len = rows[i].unicode_len();
        proof {
            let taken = rows@.take(i + 1);
            assert(taken.drop_last() =~= rows@.take(i as int));
            assert(widths_sum(taken) == widths_sum(rows@.take(i as int)) + rows@[i as int]@.len());
        }
        if w > usize::MAX - len {
            w = usize::MAX;
        } else {
            w = w + len;
        }
        i = i + 1;
    }
    proof {
        assert(rows@.take(rows@.len() as int) =~= rows@);
    }
    w
}

/// Where content of the given width starts so that it sits centered in the
/// span: half the leftover space, or the left edge when it does not fit.
pub fn centered_origin(span: usize, content: usize) -> (o: usize)
    ensures
        o == if content <= span {
            (span - content) / 2
        } else {
            0
        },
{
    if content <= span {
        (span - content) / 2
    } else {
        0
    }
}

} // verus!
