//! Colours and the closing tags of SVG documents, and their SVG text.
use vstd::prelude::*;

verus! {

/// A colour given by its red, green and blue channels.
#[derive(Copy, Clone, PartialEq, Eq, Structural, Debug)]
pub struct Rgb {
    pub r: u8,
    pub g: u8,
    pub b: u8,
}

/// A colour given by hue (degrees), saturation and lightness (percent).
#[derive(Copy, Clone, PartialEq, Eq, Structural, Debug)]
pub struct Hsl {
    pub h: u32,
    pub s: u32,
    pub l: u32,
}

/// An SVG colour.
#[derive(Copy, Clone, PartialEq, Eq, Structural, Debug)]
pub enum Color {
    Hsl(Hsl),
    Rgb(Rgb),
}

pub fn rgb(r: u8, g: u8, b: u8) -> (res: Color)
    ensures
        res == Color::Rgb(Rgb { r, g, b }),
{
    Color::Rgb(Rgb { r, g, b })
}

pub fn hsl(h: u32, s: u32, l: u32) -> (res: Color)
    ensures
        res == Color::Hsl(Hsl { h, s, l }),
{
    Color::Hsl(Hsl { h, s, l })
}

pub fn black() -> (res: Color)
    ensures
        res == Color::Rgb(Rgb { r: 0, g: 0, b: 0 }),
{
    rgb(0, 0, 0)
}

pub fn white() -> (res: Color)
    ensures
        res == Color::Rgb(Rgb { r: 255, g: 255, b: 255 }),
{
    rgb(255, 255, 255)
}

pub fn red() -> (res: Color)
    ensures
        res == Color::Rgb(Rgb { r: 255, g: 0, b: 0 }),
{
    rgb(255, 0, 0)
}

pub fn green() -> (res: Color)
    ensures
        res == Color::Rgb(Rgb { r: 0, g: 255, b: 0 }),
{
    rgb(0, 255, 0)
}

pub fn blue() -> (res: Color)
    ensures
        res == Color::Rgb(Rgb { r: 0, g: 0, b: 255 }),
{
    rgb(0, 0, 255)
}

/// The end of a path element.
#[derive(Copy, Clone, PartialEq, Eq, Structural, Debug)]
pub struct PathEnd;

/// The end of an SVG document.
#[derive(Copy, Clone, PartialEq, Eq, Structural, Debug)]
pub struct SvgEnd;

pub fn svg_end() -> (res: SvgEnd)
    ensures
        res == SvgEnd,
{
    SvgEnd
}

pub fn path_end() -> (res: PathEnd)
    ensures
        res == PathEnd,
{
    PathEnd
}

/// The character of a decimal digit.
pub open spec fn digit_char(d: nat) -> char {
    ((48 + d) as u8) as char
}

/// The decimal representation of `n`, without leading zeros.
pub open spec fn decimal(n: nat) -> Seq<char>
    decreases n,
{
    if n < 10 {
        seq![digit_char(n)]
    } else {
        decimal(n / 10).push(digit_char(n % 10))
    }
}

/// The number a string of decimal digits stands for.
pub open spec fn digits_value(s: Seq<char>) -> int
    decreases s.len(),
{
    if s.len() == 0 {
        0
    } else {
        digits_value(s.drop_last()) * 10 + (s.last() as int - '0' as int)
    }
}

/// The decimal text of a number is made of digits only, starts with a non-zero digit unless the
/// number is zero, and reads back as the number.
pub proof fn law_decimal_reads_back(n: nat)
    ensures
        decimal(n).len() >= 1,
        forall|i: int| 0 <= i < decimal(n).len() ==> '0' <= #[trigger] decimal(n)[i] <= '9',
        n != 0 ==> decimal(n)[0] != '0',
        digits_value(decimal(n)) == n,
    decreases n,
{
    let d = decimal(n);
    assert(digit_char(n % 10) as int == '0' as int + n % 10);
    if n >= 10 {
        law_decimal_reads_back(n / 10);
        assert(d.drop_last() =~= decimal(n / 10));
        assert(d[0] == decimal(n / 10)[0]);
        assert(d.last() == digit_char(n % 10));
        assert(digits_value(d) == digits_value(decimal(n / 10)) * 10 + (n % 10));
        vstd::arithmetic::div_mod::lemma_fundamental_div_mod(n as int, 10);
        assert((n / 10) * 10 + n % 10 == n) by (nonlinear_arith)
            requires
                n == 10 * (n / 10) + n % 10,
        ;
    } else {
        assert(d.drop_last() =~= Seq::<char>::empty());
        assert(n % 10 == n);
        assert(d.last() == digit_char(n));
        assert(digits_value(d) == digits_value(d.drop_last()) * 10 + (n % 10));
    }
}

/// The text of an `rgb(..)` colour.
pub open spec fn rgb_text(c: Rgb) -> Seq<char> {
    seq!['r', 'g', 'b', '('] + decimal(c.r as nat) + seq![',', ' '] + decimal(c.g as nat) + seq![
        ',',
        ' ',
    ] + decimal(c.b as nat) + seq![')']
}

/// The text of an `hsl(..)` colour: the hue is taken modulo 360 and the saturation is capped at
/// 100; the lightness is written as the capped saturation.
pub open spec fn hsl_text(c: Hsl) -> Seq<char> {
    let s = if c.s < 100 { c.s } else { 100 };
    seq!['h', 's', 'l', '('] + decimal((c.h % 360) as nat) + seq![',', ' '] + decimal(s as nat)
        + seq!['%', ',', ' '] + decimal(s as nat) + seq!['%', ')']
}

fn push_decimal(out: &mut Vec<char>, n: u32)
    ensures
        final(out)@ == old(out)@ + decimal(n as nat),
    decreases n,
{
    if n >= 10 {
        push_decimal(out, n / 10);
    }
    let d = (n % 10) as u8;
    out.push((48u8 + d) as char);
    assert(final(out)@ =~= old(out)@ + decimal(n as nat)) by {
        if n >= 10 {
            assert(decimal(n as nat) == decimal((n / 10) as nat).push(digit_char((n % 10) as nat)));
        }
    }
}

fn push_chars(out: &mut Vec<char>, chars: &[char])
    ensures
        final(out)@ == old(out)@ + chars@,
{
    let mut i: usize = 0;
    while i < chars.len()
        invariant
            i <= chars@.len(),
            out@ == old(out)@ + chars@.subrange(0, i as int),
        decreases chars@.len() - i,
    {
        out.push(chars[i]);
        i += 1;
        assert(out@ =~= old(out)@ + chars@.subrange(0, i as int));
    }
    assert(chars@.subrange(0, chars@.len() as int) =~= chars@);
}

/// `String::from_iter`: the string made of `chars`, in order.
///
/// The contract states that the string holds exactly the given characters.
#[verifier::external_body]
fn string_from_chars(chars: Vec<char>) -> (res: String)
    ensures
        res@ == chars@,
{
    String::from_iter(chars)
}

impl Rgb {
    /// The SVG text of the colour, `rgb(r, g, b)`.
    pub fn to_string(&self) -> (res: String)
        ensures
            res@ == rgb_text(*self),
    {
        let mut out: Vec<char> = Vec::new();
        push_chars(&mut out, &['r', 'g', 'b', '(']);
        push_decimal(&mut out, self.r as u32);
        push_chars(&mut out, &[',', ' ']);
        push_decimal(&mut out, self.g as u32);
        push_chars(&mut out, &[',', ' ']);
        push_decimal(&mut out, self.b as u32);
        push_chars(&mut out, &[')']);
        assert(out@ =~= rgb_text(*self));
        string_from_chars(out)
    }
}

impl Hsl {
    /// The SVG text of the colour, `hsl(h, s%, l%)`.
    pub fn to_string(&self) -> (res: String)
        ensures
            res@ == hsl_text(*self),
    {
        let h = self.h % 360;
        let s = if self.s < 100 { self.s } else { 100 };
        let l = if self.s < 100 { self.s } else { 100 };
        let mut out: Vec<char> = Vec::new();
        push_chars(&mut out, &['h', 's', 'l', '(']);
        push_decimal(&mut out, h);
        push_chars(&mut out, &[',', ' ']);
        push_decimal(&mut out, s);
        push_chars(&mut out, &['%', ',', ' ']);
        push_decimal(&mut out, l);
        push_chars(&mut out, &['%', ')']);
        assert(out@ =~= hsl_text(*self));
        string_from_chars(out)
    }
}

impl Color {
    /// The SVG text of the colour.
    pub fn to_string(&self) -> (res: String)
        ensures
            res@ == match *self {
                Color::Hsl(c) => hsl_text(c),
                Color::Rgb(c) => rgb_text(c),
            },
    {
        match self {
            Color::Hsl(hsl) => hsl.to_string(),
            Color::Rgb(rgb) => rgb.to_string(),
        }
    }
}

impl PathEnd {
    /// The text that closes a path element's data and the element.
    pub fn to_string(&self) -> (res: String)
        ensures
            res@ == seq!['"', ' ', '/', '>'],
    {
        let mut out: Vec<char> = Vec::new();
        push_chars(&mut out, &['"', ' ', '/', '>']);
        string_from_chars(out)
    }
}

impl SvgEnd {
    /// The text that closes an SVG document.
    pub fn to_string(&self) -> (res: String)
        ensures
            res@ == seq!['<', '/', 's', 'v', 'g', '>'],
    {
        let mut out: Vec<char> = Vec::new();
        push_chars(&mut out, &['<', '/', 's', 'v', 'g', '>']);
        string_from_chars(out)
    }
}

} // verus!
