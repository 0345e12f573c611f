//! A frame written down as a plain-text pixmap.
//!
//! The text starts with three lines, `P3`, the width and the height, and
//! `255`. After them each pixel has a line of its own, its red, green and blue
//! byte in decimal with a blank between them, from the top row of the image
//! down and from left to right within a row.
use vstd::prelude::*;

verus! {

/// The character `0`.
pub const DIGIT_ZERO: u8 = 48;

/// The blank between two numbers.
pub const BLANK: u8 = 32;

/// The end of a line.
pub const NEWLINE: u8 = 10;

/// The minus sign.
pub const MINUS: u8 = 45;

/// The digits of `n` in decimal, the leading one first, without leading zeros.
pub open spec fn spec_decimal(n: nat) -> Seq<u8>
    decreases n,
{
    if n < 10 {
        seq![(DIGIT_ZERO + n) as u8]
    } else {
        spec_decimal(n / 10).push((DIGIT_ZERO + n % 10) as u8)
    }
}

/// A whole number in decimal, with a minus sign before it where it is negative.
pub open spec fn spec_signed(i: int) -> Seq<u8> {
    if i < 0 {
        seq![MINUS] + spec_decimal((-i) as nat)
    } else {
        spec_decimal(i as nat)
    }
}

/// The number that a row of decimal digits stands for.
pub open spec fn spec_number(digits: Seq<u8>) -> nat
    decreases digits.len(),
{
    if digits.len() == 0 {
        0
    } else {
        (10 * spec_number(digits.drop_last()) + (digits.last() - DIGIT_ZERO)) as nat
    }
}

/// The three lines at the head of the text.
pub open spec fn spec_header(width: int, height: int) -> Seq<u8> {
    seq![80u8, 51u8, NEWLINE] + spec_signed(width) + seq![BLANK] + spec_signed(height) + seq![
        NEWLINE,
        50u8,
        53u8,
        53u8,
        NEWLINE,
    ]
}

/// The line of one pixel.
pub open spec fn spec_line(r: u8, g: u8, b: u8) -> Seq<u8> {
    spec_decimal(r as nat) + seq![BLANK] + spec_decimal(g as nat) + seq![BLANK] + spec_decimal(
        b as nat,
    ) + seq![NEWLINE]
}

/// The lines of the pixels whose bytes are `rgb`, three bytes to a pixel.
pub open spec fn spec_body(rgb: Seq<u8>) -> Seq<u8>
    decreases rgb.len(),
{
    if rgb.len() < 3 {
        Seq::<u8>::empty()
    } else {
        let n = rgb.len() - 3;
        spec_body(rgb.take(n)) + spec_line(rgb[n], rgb[n + 1], rgb[n + 2])
    }
}

/// The whole text of a frame.
pub open spec fn spec_ppm(width: int, height: int, rgb: Seq<u8>) -> Seq<u8> {
    spec_header(width, height) + spec_body(rgb)
}

/// How many lines end in `text`.
pub open spec fn spec_lines(text: Seq<u8>) -> nat
    decreases text.len(),
{
    if text.len() == 0 {
        0
    } else {
        spec_lines(text.drop_last()) + if text.last() == NEWLINE {
            1nat
        } else {
            0nat
        }
    }
}

/// Whether every character of `text` is a decimal digit.
pub open spec fn spec_all_digits(text: Seq<u8>) -> bool {
    forall|i: int| 0 <= i < text.len() ==> DIGIT_ZERO <= #[trigger] text[i] <= DIGIT_ZERO + 9
}

/// Appends the decimal digits of `n` to `out`.
pub fn push_decimal(out: &mut Vec<u8>, n: u64)
    ensures
        final(out)@ == old(out)@ + spec_decimal(n as nat),
    decreases n,
{
    if n < 10 {
        out.push(DIGIT_ZERO + n as u8);
        proof {
            assert(final(out)@ =~= old(out)@ + spec_decimal(n as nat));
        }
    } else {
        push_decimal(out, n / 10);
        out.push(DIGIT_ZERO + (n % 10) as u8);
        proof {
            assert(final(out)@ =~= old(out)@ + spec_decimal(n as nat));
        }
    }
}

/// Appends a whole number in decimal to `out`.
pub fn push_signed(out: &mut Vec<u8>, i: i32)
    ensures
        final(out)@ == old(out)@ + spec_signed(i as int),
{
    if i < 0 {
        out.push(MINUS);
        let magnitude: u64 = (-(i as i64)) as u64;
        push_decimal(out, magnitude);
        proof {
            assert(final(out)@ =~= old(out)@ + spec_signed(i as int));
        }
    } else {
        push_decimal(out, i as u64);
    }
}

/// The three lines at the head of the text of a frame.
pub fn header(width: i32, height: i32) -> (text: Vec<u8>)
    ensures
        text@ == spec_header(width as int, height as int),
{
    let mut text: Vec<u8> = Vec::new();
    text.push(80u8);
    text.push(51u8);
    text.push(NEWLINE);
    push_signed(&mut text, width);
    text.push(BLANK);
    push_signed(&mut text, height);
    text.push(NEWLINE);
    text.push(50u8);
    text.push(53u8);
    text.push(53u8);
    text.push(NEWLINE);
    proof {
        assert(text@ =~= spec_header(width as int, height as int));
    }
    text
}

/// Appends the line of one pixel to `out`.
pub fn push_line(out: &mut Vec<u8>, r: u8, g: u8, b: u8)
    ensures
        final(out)@ == old(out)@ + spec_line(r, g, b),
{
    push_decimal(out, r as u64);
    out.push(BLANK);
    push_decimal(out, g as u64);
    out.push(BLANK);
    push_decimal(out, b as u64);
    out.push(NEWLINE);
    proof {
        assert(final(out)@ =~= old(out)@ + spec_line(r, g, b));
    }
}

/// The text of the frame `rgb` of the given width and height, its pixels in
/// the order in which they lie in the frame.
pub fn ppm(width: i32, height: i32, rgb: &Vec<u8>) -> (text: Vec<u8>)
    requires
        rgb@.len() % 3 == 0,
    ensures
        text@ == spec_ppm(width as int, height as int, rgb@),
{
    let mut text = header(width, height);
    let mut i: usize = 0;
    proof {
        assert(rgb@.take(0).len() == 0);
        assert(text@ =~= spec_ppm(width as int, height as int, rgb@.take(0)));
    }
    while i < rgb.len()
        invariant
            i <= rgb@.len(),
            i % 3 == 0,
            rgb@.len() % 3 == 0,
            text@ == spec_ppm(width as int, height as int, rgb@.take(i as int)),
        decreases rgb@.len() - i,
    {
        proof {
            let next = rgb@.take(i + 3);
            assert(next.take(next.len() - 3) =~= rgb@.take(i as int));
        }
        push_line(&mut text, rgb[i], rgb[i + 1], rgb[i + 2]);
        i += 3;
        proof {
            assert(text@ =~= spec_ppm(width as int, height as int, rgb@.take(i as int)));
        }
    }
    proof {
        assert(rgb@.take(i as int) =~= rgb@);
    }
    text
}

/// The digits of a number are decimal digits, at least one of them, and stand
/// for the number.
pub proof fn decimal_reads_back(n: nat)
    ensures
        spec_decimal(n).len() >= 1,
        spec_all_digits(spec_decimal(n)),
        spec_number(spec_decimal(n)) == n,
    decreases n,
{
    let digits = spec_decimal(n);
    if n >= 10 {
        decimal_reads_back(n / 10);
        assert(digits.drop_last() =~= spec_decimal(n / 10));
        assert(spec_number(digits) == 10 * spec_number(digits.drop_last()) + (digits.last()
            - DIGIT_ZERO));
    } else {
        assert(digits.drop_last() =~= Seq::<u8>::empty());
        assert(spec_number(digits.drop_last()) == 0);
        assert(spec_number(digits) == 10 * spec_number(digits.drop_last()) + (digits.last()
            - DIGIT_ZERO));
    }
}

/// A text of one character has one line where that character ends a line, else none.
pub proof fn lines_of_one_character(c: u8)
    ensures
        spec_lines(seq![c]) == if c == NEWLINE {
            1nat
        } else {
            0nat
        },
{
    let text = seq![c];
    assert(text.drop_last() =~= Seq::<u8>::empty());
    assert(spec_lines(text.drop_last()) == 0);
    assert(spec_lines(text) == spec_lines(text.drop_last()) + if text.last() == NEWLINE {
        1nat
    } else {
        0nat
    });
}

/// A byte takes one to three digits.
pub proof fn byte_takes_up_to_three_digits(b: u8)
    ensures
        1 <= spec_decimal(b as nat).len() <= 3,
{
    reveal_with_fuel(spec_decimal, 4);
}

/// The lines of two texts, one after the other, are those of both.
pub proof fn lines_add_up(a: Seq<u8>, b: Seq<u8>)
    ensures
        spec_lines(a + b) == spec_lines(a) + spec_lines(b),
    decreases b.len(),
{
    if b.len() == 0 {
        assert(a + b =~= a);
    } else {
        lines_add_up(a, b.drop_last());
        assert((a + b).drop_last() =~= a + b.drop_last());
    }
}

/// No line ends among the digits of a number.
pub proof fn no_line_ends_in_digits(text: Seq<u8>)
    requires
        spec_all_digits(text),
    ensures
        spec_lines(text) == 0,
    decreases text.len(),
{
    if text.len() > 0 {
        no_line_ends_in_digits(text.drop_last());
    }
}

/// The line of a pixel is one line.
pub proof fn pixel_line_is_one_line(r: u8, g: u8, b: u8)
    ensures
        spec_lines(spec_line(r, g, b)) == 1,
{
    let dr = spec_decimal(r as nat);
    let dg = spec_decimal(g as nat);
    let db = spec_decimal(b as nat);
    decimal_reads_back(r as nat);
    decimal_reads_back(g as nat);
    decimal_reads_back(b as nat);
    no_line_ends_in_digits(dr);
    no_line_ends_in_digits(dg);
    no_line_ends_in_digits(db);
    let blank = seq![BLANK];
    let end = seq![NEWLINE];
    lines_of_one_character(BLANK);
    lines_of_one_character(NEWLINE);
    lines_add_up(dr, blank);
    lines_add_up(dr + blank, dg);
    lines_add_up(dr + blank + dg, blank);
    lines_add_up(dr + blank + dg + blank, db);
    lines_add_up(dr + blank + dg + blank + db, end);
}

/// The body of the text has one line to a pixel.
pub proof fn body_has_a_line_per_pixel(rgb: Seq<u8>)
    ensures
        spec_lines(spec_body(rgb)) == rgb.len() / 3,
    decreases rgb.len(),
{
    if rgb.len() >= 3 {
        let n = rgb.len() - 3;
        body_has_a_line_per_pixel(rgb.take(n));
        pixel_line_is_one_line(rgb[n], rgb[n + 1], rgb[n + 2]);
        lines_add_up(spec_body(rgb.take(n)), spec_line(rgb[n], rgb[n + 1], rgb[n + 2]));
    }
}

/// The head of the text is three lines.
pub proof fn header_is_three_lines(width: int, height: int)
    ensures
        spec_lines(spec_header(width, height)) == 3,
{
    let magic = seq![80u8, 51u8, NEWLINE];
    let w = spec_signed(width);
    let blank = seq![BLANK];
    let h = spec_signed(height);
    let tail = seq![NEWLINE, 50u8, 53u8, 53u8, NEWLINE];
    signed_has_no_line_end(width);
    signed_has_no_line_end(height);
    lines_of_one_character(80u8);
    lines_of_one_character(51u8);
    lines_of_one_character(53u8);
    lines_of_one_character(50u8);
    lines_of_one_character(BLANK);
    lines_of_one_character(NEWLINE);
    assert(magic =~= seq![80u8] + seq![51u8] + seq![NEWLINE]);
    lines_add_up(seq![80u8], seq![51u8]);
    lines_add_up(seq![80u8] + seq![51u8], seq![NEWLINE]);
    assert(tail =~= seq![NEWLINE] + seq![50u8] + seq![53u8] + seq![53u8] + seq![NEWLINE]);
    lines_add_up(seq![NEWLINE], seq![50u8]);
    lines_add_up(seq![NEWLINE] + seq![50u8], seq![53u8]);
    lines_add_up(seq![NEWLINE] + seq![50u8] + seq![53u8], seq![53u8]);
    lines_add_up(seq![NEWLINE] + seq![50u8] + seq![53u8] + seq![53u8], seq![NEWLINE]);
    lines_add_up(magic, w);
    lines_add_up(magic + w, blank);
    lines_add_up(magic + w + blank, h);
    lines_add_up(magic + w + blank + h, tail);
}

/// No line ends within a number, signed or not.
pub proof fn signed_has_no_line_end(i: int)
    ensures
        spec_lines(spec_signed(i)) == 0,
{
    if i < 0 {
        let sign = seq![MINUS];
        decimal_reads_back((-i) as nat);
        no_line_ends_in_digits(spec_decimal((-i) as nat));
        lines_of_one_character(MINUS);
        lines_add_up(sign, spec_decimal((-i) as nat));
    } else {
        decimal_reads_back(i as nat);
        no_line_ends_in_digits(spec_decimal(i as nat));
    }
}

/// The text of a frame has three lines and then one line to a pixel.
pub proof fn ppm_has_a_line_per_pixel(width: int, height: int, rgb: Seq<u8>)
    ensures
        spec_lines(spec_ppm(width, height, rgb)) == 3 + rgb.len() / 3,
{
    header_is_three_lines(width, height);
    body_has_a_line_per_pixel(rgb);
    lines_add_up(spec_header(width, height), spec_body(rgb));
}

} // verus!
