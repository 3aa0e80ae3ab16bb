//! The image as text, in the plain pixmap format: a line `P3`, a line with
//! the width and the height, a line `255`, then one line for each pixel
//! with its red, green and blue channel. Numbers are written in decimal.

use vstd::prelude::*;
use vstd::string::*;

verus! {

/// The colour of a pixel, each channel from 0 to 255.
#[derive(Clone, Copy, Debug, PartialEq, Eq, Hash)]
pub struct Rgb {
    pub r: u8,
    pub g: u8,
    pub b: u8,
}

/// The character for a digit.
pub open spec fn digit(d: nat) -> char {
    if d == 0 {
        '0'
    } else if d == 1 {
        '1'
    } else if d == 2 {
        '2'
    } else if d == 3 {
        '3'
    } else if d == 4 {
        '4'
    } else if d == 5 {
        '5'
    } else if d == 6 {
        '6'
    } else if d == 7 {
        '7'
    } else if d == 8 {
        '8'
    } else {
        '9'
    }
}

/// Whether the character is one of the ten digits.
pub open spec fn is_digit(c: char) -> bool {
    exists|d: nat| d < 10 && c == #[trigger] digit(d)
}

/// The digit that the character stands for; 0 for any other character.
pub open spec fn digit_value(c: char) -> nat {
    if c == '1' {
        1
    } else if c == '2' {
        2
    } else if c == '3' {
        3
    } else if c == '4' {
        4
    } else if c == '5' {
        5
    } else if c == '6' {
        6
    } else if c == '7' {
        7
    } else if c == '8' {
        8
    } else if c == '9' {
        9
    } else {
        0
    }
}

/// The number in decimal, most significant digit first.
pub open spec fn decimal(n: nat) -> Seq<char>
    decreases n,
{
    if n < 10 {
        seq![digit(n)]
    } else {
        decimal(n / 10).push(digit(n % 10))
    }
}

/// The number that a text of digits stands for.
pub open spec fn decimal_value(text: Seq<char>) -> nat
    decreases text.len(),
{
    if text.len() == 0 {
        0
    } else {
        10 * decimal_value(text.drop_last()) + digit_value(text.last())
    }
}

/// The three lines before the pixels.
pub open spec fn header_text(width: nat, height: nat) -> Seq<char> {
    seq!['P', '3', '\n'] + decimal(width) + seq![' '] + decimal(height) + seq![
        '\n',
        '2',
        '5',
        '5',
        '\n',
    ]
}

/// The line of one pixel.
pub open spec fn pixel_text(pixel: Rgb) -> Seq<char> {
    decimal(pixel.r as nat) + seq![' '] + decimal(pixel.g as nat) + seq![' '] + decimal(
        pixel.b as nat,
    ) + seq!['\n']
}

/// The lines of the pixels, in their order.
pub open spec fn body_text(pixels: Seq<Rgb>) -> Seq<char>
    decreases pixels.len(),
{
    if pixels.len() == 0 {
        Seq::empty()
    } else {
        body_text(pixels.drop_last()) + pixel_text(pixels.last())
    }
}

/// The whole image.
pub open spec fn image_text(width: nat, height: nat, pixels: Seq<Rgb>) -> Seq<char> {
    header_text(width, height) + body_text(pixels)
}

/// A number in decimal is at least one digit and nothing but digits, starts
/// with `0` only where the number is 0, and stands for the number.
pub proof fn decimal_reads_back(n: nat)
    ensures
        decimal(n).len() >= 1,
        forall|i: int| 0 <= i < decimal(n).len() ==> is_digit(#[trigger] decimal(n)[i]),
        decimal(n)[0] == '0' ==> n == 0,
        decimal_value(decimal(n)) == n,
    decreases n,
{
    let text = decimal(n);
    assert(digit_value(digit(n % 10)) == n % 10);
    assert(decimal_value(text) == 10 * decimal_value(text.drop_last()) + digit_value(text.last()));
    if n < 10 {
        assert(text.drop_last() =~= Seq::<char>::empty());
        assert(is_digit(text[0]));
    } else {
        let front = decimal(n / 10);
        decimal_reads_back(n / 10);
        assert(text.drop_last() =~= front);
        assert(text[0] == front[0]);
        assert forall|i: int| 0 <= i < text.len() implies is_digit(#[trigger] text[i]) by {
            if i < front.len() {
                assert(text[i] == front[i]);
            } else {
                assert(text[i] == digit(n % 10));
            }
        }
    }
}

/// The text of one digit.
fn digit_str(d: u32) -> (s: &'static str)
    requires
        d < 10,
    ensures
        s@ == seq![digit(d as nat)],
{
    proof {
        reveal_strlit("0");
        reveal_strlit("1");
        reveal_strlit("2");
        reveal_strlit("3");
        reveal_strlit("4");
        reveal_strlit("5");
        reveal_strlit("6");
        reveal_strlit("7");
        reveal_strlit("8");
        reveal_strlit("9");
    }
    match d {
        0 => "0",
        1 => "1",
        2 => "2",
        3 => "3",
        4 => "4",
        5 => "5",
        6 => "6",
        7 => "7",
        8 => "8",
        _ => "9",
    }
}

/// Writes the number in decimal at the end of the text.
fn append_decimal(out: &mut String, n: u32)
    ensures
        final(out)@ == old(out)@ + decimal(n as nat),
    decreases n,
{
    if n >= 10 {
        append_decimal(out, n / 10);
    }
    out.append(digit_str(n % 10));
    assert(out@ =~= old(out)@ + decimal(n as nat));
}

/// Writes the line of one pixel at the end of the text.
fn append_pixel(out: &mut String, pixel: Rgb)
    ensures
        final(out)@ == old(out)@ + pixel_text(pixel),
{
    proof {
        reveal_strlit(" ");
        reveal_strlit("\n");
    }
    append_decimal(out, pixel.r as u32);
    out.append(" ");
    append_decimal(out, pixel.g as u32);
    out.append(" ");
    append_decimal(out, pixel.b as u32);
    out.append("\n");
    assert(out@ =~= old(out)@ + pixel_text(pixel));
}

/// The decimal text of a number.
pub fn decimal_string(n: u32) -> (s: String)
    ensures
        s@ == decimal(n as nat),
{
    let mut s = String::new();
    append_decimal(&mut s, n);
    s
}

/// The three lines that come before the pixels: the format's name, the
/// size of the image, and the greatest value of a channel.
pub fn header(width: u32, height: u32) -> (s: String)
    ensures
        s@ == header_text(width as nat, height as nat),
{
    proof {
        reveal_strlit("P3\n");
        reveal_strlit(" ");
        reveal_strlit("\n255\n");
    }
    let mut s = String::from_str("P3\n");
    append_decimal(&mut s, width);
    s.append(" ");
    append_decimal(&mut s, height);
    s.append("\n255\n");
    assert(s@ =~= header_text(width as nat, height as nat));
    s
}

/// The line of one pixel: the three channels in decimal, a blank between
/// them and a line feed at the end.
pub fn pixel_line(pixel: Rgb) -> (s: String)
    ensures
        s@ == pixel_text(pixel),
{
    let mut s = String::new();
    append_pixel(&mut s, pixel);
    s
}

/// The whole image as text: the header, then the line of each pixel in
/// the order given.
pub fn encode(width: u32, height: u32, pixels: &Vec<Rgb>) -> (s: String)
    ensures
        s@ == image_text(width as nat, height as nat, pixels@),
{
    let mut s = header(width, height);
    let mut i: usize = 0;
    assert(pixels@.take(0) =~= Seq::<Rgb>::empty());
    while i < pixels.len()
        invariant
            i <= pixels.len(),
            s@ == header_text(width as nat, height as nat) + body_text(pixels@.take(i as int)),
        decreases pixels.len() - i,
    {
        append_pixel(&mut s, pixels[i]);
        proof {
            let next = pixels@.take(i + 1);
            assert(next.drop_last() =~= pixels@.take(i as int));
            assert(next.last() == pixels@[i as int]);
            assert(s@ =~= header_text(width as nat, height as nat) + body_text(next));
        }
        i += 1;
    }
    assert(pixels@.take(i as int) =~= pixels@);
    s
}

} // verus!
