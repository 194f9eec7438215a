//! Output encodings for a resolved color, and the formatter that renders
//! a color (with an optional opacity percentage) as text.

use vstd::prelude::*;

use crate::palette::{
    lemma_round_div_range, round_div, spec_hex6, spec_rgb_to_hsl, hex6, rgb_to_hsl, Rgb,
};
use crate::text::{
    chars_to_string, chars_vec, dec_of, dec_str, digit, digit_char, extend_chars, hex2_of,
    hex2_str,
};

verus! {

/// An output encoding for a color literal.
#[derive(Clone, Copy, Debug, PartialEq, Eq, Structural)]
pub enum Format {
    /// `#ebbcba`, with an appended alpha byte when opacity is given.
    Hex,
    /// `ebbcba`: hex digits without the `#`.
    HexNs,
    /// `#ffebbcba`: alpha byte first.
    Ahex,
    /// `ffebbcba`: alpha byte first, without the `#`.
    AhexNs,
    /// `235, 188, 186`
    Rgb,
    /// `235 188 186`
    RgbNs,
    /// `rgb(235, 188, 186)`
    RgbFunction,
    /// `[235, 188, 186]`
    RgbArray,
    /// `235;188;186`
    RgbAnsi,
    /// `2, 55%, 83%`
    Hsl,
    /// `2 55% 83%`
    HslNs,
    /// `hsl(2, 55%, 83%)`
    HslFunction,
    /// `[2, 55%, 83%]`
    HslArray,
    /// A struct literal of fractional channels; rendered outside the
    /// library, since its channels are floating point.
    Ron,
}

impl Default for Format {
    fn default() -> (f: Format)
        ensures
            f == Format::Hex,
    {
        Format::Hex
    }
}

/// All formats, in declaration order.
pub open spec fn format_list() -> Seq<Format> {
    seq![
        Format::Hex,
        Format::HexNs,
        Format::Ahex,
        Format::AhexNs,
        Format::Rgb,
        Format::RgbNs,
        Format::RgbFunction,
        Format::RgbArray,
        Format::RgbAnsi,
        Format::Hsl,
        Format::HslNs,
        Format::HslFunction,
        Format::HslArray,
        Format::Ron,
    ]
}

/// The snake case spelling under which a format is matched in templates.
pub open spec fn format_token(f: Format) -> Seq<char> {
    match f {
        Format::Hex => "hex"@,
        Format::HexNs => "hex_ns"@,
        Format::Ahex => "ahex"@,
        Format::AhexNs => "ahex_ns"@,
        Format::Rgb => "rgb"@,
        Format::RgbNs => "rgb_ns"@,
        Format::RgbFunction => "rgb_function"@,
        Format::RgbArray => "rgb_array"@,
        Format::RgbAnsi => "rgb_ansi"@,
        Format::Hsl => "hsl"@,
        Format::HslNs => "hsl_ns"@,
        Format::HslFunction => "hsl_function"@,
        Format::HslArray => "hsl_array"@,
        Format::Ron => "ron"@,
    }
}

pub open spec fn spec_is_hsl(f: Format) -> bool {
    f == Format::Hsl || f == Format::HslNs || f == Format::HslArray || f == Format::HslFunction
}

pub open spec fn spec_is_rgb(f: Format) -> bool {
    f == Format::Rgb || f == Format::RgbNs || f == Format::RgbArray || f == Format::RgbFunction
        || f == Format::RgbAnsi
}

pub open spec fn spec_is_hex(f: Format) -> bool {
    f == Format::Hex || f == Format::HexNs || f == Format::Ahex || f == Format::AhexNs
}

/// The alpha byte for an opacity percentage: `opacity / 100 * 255`,
/// rounded to the nearest integer.
pub open spec fn alpha_byte(n: int) -> int {
    round_div(255 * n, 100)
}

/// The decimal fraction `n / 100` in its shortest plain spelling:
/// `"1"`, `"0"`, `"0.5"`, `"0.75"`, `"0.05"`.
pub open spec fn frac_of(n: int) -> Seq<char> {
    if n == 100 {
        seq!['1']
    } else if n == 0 {
        seq!['0']
    } else if n % 10 == 0 {
        seq!['0', '.', digit_char(n / 10)]
    } else if n >= 10 {
        seq!['0', '.', digit_char(n / 10), digit_char(n % 10)]
    } else {
        seq!['0', '.', '0', digit_char(n)]
    }
}

/// Joins chunks of text with a separator between consecutive chunks.
pub open spec fn join(chunks: Seq<Seq<char>>, sep: Seq<char>) -> Seq<char>
    decreases chunks.len(),
{
    if chunks.len() == 0 {
        Seq::empty()
    } else if chunks.len() == 1 {
        chunks[0]
    } else {
        chunks[0] + sep + join(chunks.drop_first(), sep)
    }
}

/// Three channel chunks, with the alpha fraction appended when opacity
/// is present.
pub open spec fn opt_chunks(c0: Seq<char>, c1: Seq<char>, c2: Seq<char>, alpha: Option<u16>)
    -> Seq<Seq<char>> {
    match alpha {
        None => seq![c0, c1, c2],
        Some(n) => seq![c0, c1, c2, frac_of(n as int)],
    }
}

/// The decimal chunks of the RGB channels.
pub open spec fn rgb_chunks(c: Rgb, alpha: Option<u16>) -> Seq<Seq<char>> {
    opt_chunks(dec_of(c.r as int), dec_of(c.g as int), dec_of(c.b as int), alpha)
}

/// The chunks of the derived HSL channels: the hue plain, saturation and
/// lightness with a percent sign.
pub open spec fn hsl_chunks(c: Rgb, alpha: Option<u16>) -> Seq<Seq<char>> {
    let h = spec_rgb_to_hsl(c);
    opt_chunks(dec_of(h.h as int), dec_of(h.s as int) + "%"@, dec_of(h.l as int) + "%"@, alpha)
}

/// The hex digit body with the alpha byte appended (plain hex forms).
pub open spec fn hex_body_append(c: Rgb, alpha: Option<u16>) -> Seq<char> {
    match alpha {
        None => spec_hex6(c),
        Some(n) => spec_hex6(c) + hex2_of(alpha_byte(n as int)),
    }
}

/// The hex digit body with the alpha byte prepended (alpha-first forms).
pub open spec fn hex_body_prepend(c: Rgb, alpha: Option<u16>) -> Seq<char> {
    match alpha {
        None => spec_hex6(c),
        Some(n) => hex2_of(alpha_byte(n as int)) + spec_hex6(c),
    }
}

/// The rendered text for a color under a format and an optional opacity,
/// for every format the library renders itself.
pub open spec fn spec_format_color_ok(f: Format, c: Rgb, alpha: Option<u16>) -> Seq<char> {
    match f {
        Format::Hex => "#"@ + hex_body_append(c, alpha),
        Format::HexNs => hex_body_append(c, alpha),
        Format::Ahex => "#"@ + hex_body_prepend(c, alpha),
        Format::AhexNs => hex_body_prepend(c, alpha),
        Format::Rgb => join(rgb_chunks(c, alpha), ", "@),
        Format::RgbNs => join(rgb_chunks(c, alpha), " "@),
        Format::RgbFunction => "rgb("@ + join(rgb_chunks(c, alpha), ", "@) + ")"@,
        Format::RgbArray => "["@ + join(rgb_chunks(c, alpha), ", "@) + "]"@,
        Format::RgbAnsi => join(rgb_chunks(c, alpha), ";"@),
        Format::Hsl => join(hsl_chunks(c, alpha), ", "@),
        Format::HslNs => join(hsl_chunks(c, alpha), " "@),
        Format::HslFunction => "hsl("@ + join(hsl_chunks(c, alpha), ", "@) + ")"@,
        Format::HslArray => "["@ + join(hsl_chunks(c, alpha), ", "@) + "]"@,
        Format::Ron => Seq::empty(),
    }
}

/// What the formatter returns: text for every format but `Ron`, and only
/// when the opacity, if present, is a valid percentage (`0..=100`).
pub open spec fn spec_format_color(f: Format, c: Rgb, alpha: Option<u16>) -> Option<Seq<char>> {
    if f == Format::Ron || (alpha is Some && alpha->0 > 100) {
        None
    } else {
        Some(spec_format_color_ok(f, c, alpha))
    }
}

fn frac_chars(n: u16) -> (s: Vec<char>)
    requires
        n <= 100,
    ensures
        s@ == frac_of(n as int),
{
    let mut s: Vec<char> = Vec::new();
    if n == 100 {
        s.push('1');
    } else if n == 0 {
        s.push('0');
    } else if n % 10 == 0 {
        s.push('0');
        s.push('.');
        s.push(digit(n / 10));
    } else if n >= 10 {
        s.push('0');
        s.push('.');
        s.push(digit(n / 10));
        s.push(digit(n % 10));
    } else {
        s.push('0');
        s.push('.');
        s.push('0');
        s.push(digit(n));
    }
    proof {
        assert(s@ =~= frac_of(n as int));
    }
    s
}

fn alpha_byte_exec(n: u16) -> (b: u8)
    requires
        n <= 100,
    ensures
        b as int == alpha_byte(n as int),
{
    proof {
        lemma_round_div_range(255 * (n as int), 100, 0, 255);
    }
    let v: u32 = (2 * (255 * (n as u32)) + 100) / 200;
    v as u8
}

fn join3(c0: &Vec<char>, c1: &Vec<char>, c2: &Vec<char>, sep: &str) -> (out: Vec<char>)
    ensures
        out@ == join(seq![c0@, c1@, c2@], sep@),
{
    let mut out: Vec<char> = Vec::new();
    extend_chars(&mut out, c0);
    let sv = chars_vec(sep);
    extend_chars(&mut out, &sv);
    extend_chars(&mut out, c1);
    extend_chars(&mut out, &sv);
    extend_chars(&mut out, c2);
    proof {
        reveal_with_fuel(join, 4);
        assert(seq![c0@, c1@, c2@].drop_first() =~= seq![c1@, c2@]);
        assert(seq![c1@, c2@].drop_first() =~= seq![c2@]);
        assert(out@ =~= join(seq![c0@, c1@, c2@], sep@));
    }
    out
}

fn join4(c0: &Vec<char>, c1: &Vec<char>, c2: &Vec<char>, c3: &Vec<char>, sep: &str) -> (out: Vec<
    char,
>)
    ensures
        out@ == join(seq![c0@, c1@, c2@, c3@], sep@),
{
    let mut out: Vec<char> = Vec::new();
    extend_chars(&mut out, c0);
    let sv = chars_vec(sep);
    extend_chars(&mut out, &sv);
    extend_chars(&mut out, c1);
    extend_chars(&mut out, &sv);
    extend_chars(&mut out, c2);
    extend_chars(&mut out, &sv);
    extend_chars(&mut out, c3);
    proof {
        reveal_with_fuel(join, 5);
        assert(seq![c0@, c1@, c2@, c3@].drop_first() =~= seq![c1@, c2@, c3@]);
        assert(seq![c1@, c2@, c3@].drop_first() =~= seq![c2@, c3@]);
        assert(seq![c2@, c3@].drop_first() =~= seq![c3@]);
        assert(out@ =~= join(seq![c0@, c1@, c2@, c3@], sep@));
    }
    out
}

/// Renders the RGB channels joined with a separator.
fn rgb_join(c: Rgb, alpha: Option<u16>, sep: &str) -> (out: Vec<char>)
    requires
        alpha is Some ==> alpha->0 <= 100,
    ensures
        out@ == join(rgb_chunks(c, alpha), sep@),
{
    let c0 = dec_str(c.r as u16);
    let c1 = dec_str(c.g as u16);
    let c2 = dec_str(c.b as u16);
    match alpha {
        None => join3(&c0, &c1, &c2, sep),
        Some(n) => {
            let c3 = frac_chars(n);
            join4(&c0, &c1, &c2, &c3, sep)
        },
    }
}

/// Renders the derived HSL channels joined with a separator, saturation
/// and lightness suffixed with a percent sign.
fn hsl_join(c: Rgb, alpha: Option<u16>, sep: &str) -> (out: Vec<char>)
    requires
        alpha is Some ==> alpha->0 <= 100,
    ensures
        out@ == join(hsl_chunks(c, alpha), sep@),
{
    let h = rgb_to_hsl(c);
    let c0 = dec_str(h.h);
    let mut c1 = dec_str(h.s as u16);
    c1.push('%');
    let mut c2 = dec_str(h.l as u16);
    c2.push('%');
    proof {
        reveal_strlit("%");
        assert(c1@ =~= dec_of(h.s as int) + "%"@);
        assert(c2@ =~= dec_of(h.l as int) + "%"@);
    }
    match alpha {
        None => join3(&c0, &c1, &c2, sep),
        Some(n) => {
            let c3 = frac_chars(n);
            join4(&c0, &c1, &c2, &c3, sep)
        },
    }
}

/// The hex digit body, alpha byte appended when opacity is present.
fn hex_append(c: Rgb, alpha: Option<u16>) -> (out: Vec<char>)
    requires
        alpha is Some ==> alpha->0 <= 100,
    ensures
        out@ == hex_body_append(c, alpha),
{
    let mut out = hex6(c);
    if let Some(n) = alpha {
        let piece = hex2_str(alpha_byte_exec(n));
        extend_chars(&mut out, &piece);
    }
    out
}

/// The hex digit body, alpha byte prepended when opacity is present.
fn hex_prepend(c: Rgb, alpha: Option<u16>) -> (out: Vec<char>)
    requires
        alpha is Some ==> alpha->0 <= 100,
    ensures
        out@ == hex_body_prepend(c, alpha),
{
    match alpha {
        None => hex6(c),
        Some(n) => {
            let mut out = hex2_str(alpha_byte_exec(n));
            let body = hex6(c);
            extend_chars(&mut out, &body);
            out
        },
    }
}

fn wrap_prefix(prefix: &str, middle: Vec<char>) -> (out: Vec<char>)
    ensures
        out@ == prefix@ + middle@,
{
    let mut out = chars_vec(prefix);
    extend_chars(&mut out, &middle);
    out
}

fn wrap(prefix: &str, middle: Vec<char>, suffix: &str) -> (out: Vec<char>)
    ensures
        out@ == prefix@ + middle@ + suffix@,
{
    let mut out = chars_vec(prefix);
    extend_chars(&mut out, &middle);
    let tail = chars_vec(suffix);
    extend_chars(&mut out, &tail);
    out
}

impl Format {
    pub fn is_hsl(&self) -> (r: bool)
        ensures
            r == spec_is_hsl(*self),
    {
        matches!(self, Format::Hsl | Format::HslNs | Format::HslArray | Format::HslFunction)
    }

    pub fn is_rgb(&self) -> (r: bool)
        ensures
            r == spec_is_rgb(*self),
    {
        matches!(
            self,
            Format::Rgb | Format::RgbNs | Format::RgbArray | Format::RgbFunction | Format::RgbAnsi
        )
    }

    pub fn is_hex(&self) -> (r: bool)
        ensures
            r == spec_is_hex(*self),
    {
        matches!(self, Format::Hex | Format::HexNs | Format::Ahex | Format::AhexNs)
    }

    /// Renders a color in this format, with an optional opacity
    /// percentage. Returns `None` exactly when the opacity is out of the
    /// `0..=100` range, or when the format's channels are floating point
    /// (`Ron`) and the library does not render it.
    pub fn format_color(&self, color: Rgb, alpha: Option<u16>) -> (res: Option<String>)
        ensures
            match res {
                Some(s) => spec_format_color(*self, color, alpha) == Some(s@),
                None => spec_format_color(*self, color, alpha) is None,
            },
    {
        if matches!(self, Format::Ron) {
            return None;
        }
        if let Some(n) = alpha {
            if n > 100 {
                return None;
            }
        }
        match self {
            Format::Hex => {
                let v = wrap_prefix("#", hex_append(color, alpha));
                return Some(chars_to_string(&v));
            },
            Format::HexNs => {
                let v = hex_append(color, alpha);
                return Some(chars_to_string(&v));
            },
            Format::Ahex => {
                let v = wrap_prefix("#", hex_prepend(color, alpha));
                return Some(chars_to_string(&v));
            },
            Format::AhexNs => {
                let v = hex_prepend(color, alpha);
                return Some(chars_to_string(&v));
            },
            Format::Rgb => {
                let v = rgb_join(color, alpha, ", ");
                return Some(chars_to_string(&v));
            },
            Format::RgbNs => {
                let v = rgb_join(color, alpha, " ");
                return Some(chars_to_string(&v));
            },
            Format::RgbFunction => {
                let v = wrap("rgb(", rgb_join(color, alpha, ", "), ")");
                return Some(chars_to_string(&v));
            },
            Format::RgbArray => {
                let v = wrap("[", rgb_join(color, alpha, ", "), "]");
                return Some(chars_to_string(&v));
            },
            Format::RgbAnsi => {
                let v = rgb_join(color, alpha, ";");
                return Some(chars_to_string(&v));
            },
            Format::Hsl => {
                let v = hsl_join(color, alpha, ", ");
                return Some(chars_to_string(&v));
            },
            Format::HslNs => {
                let v = hsl_join(color, alpha, " ");
                return Some(chars_to_string(&v));
            },
            Format::HslFunction => {
                let v = wrap("hsl(", hsl_join(color, alpha, ", "), ")");
                return Some(chars_to_string(&v));
            },
            Format::HslArray => {
                let v = wrap("[", hsl_join(color, alpha, ", "), "]");
                return Some(chars_to_string(&v));
            },
            Format::Ron => vstd::pervasive::unreached(),
        }
    }
}

} // verus!
