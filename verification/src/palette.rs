//! The palette data model: three theme variants, fifteen semantic color
//! roles, and the fixed RGB value of every (variant, role) pair.
//!
//! HSL values are never authored by hand: they are derived from the RGB
//! table by an integer RGB-to-HSL transform, so that the two color spaces
//! are always consistent with each other.

use vstd::arithmetic::div_mod::{lemma_div_is_ordered, lemma_fundamental_div_mod_converse};
use vstd::prelude::*;
use vstd::string::StringExecFns;

use crate::text::{chars_to_string, extend_chars, hex2_of, hex2_str};

verus! {

/// An RGB triple, each channel in `0..=255`.
#[derive(Clone, Copy, Debug, PartialEq, Eq, Structural)]
pub struct Rgb {
    pub r: u8,
    pub g: u8,
    pub b: u8,
}

/// An HSL triple: hue in `0..=360`, saturation and lightness in `0..=100`.
#[derive(Clone, Copy, Debug, PartialEq, Eq, Structural)]
pub struct Hsl {
    pub h: u16,
    pub s: u8,
    pub l: u8,
}

/// A resolved color: its RGB value, the derived HSL value, and the
/// six-digit lowercase hexadecimal spelling of the RGB value.
#[derive(Clone, Debug)]
pub struct Color {
    pub rgb: Rgb,
    pub hsl: Hsl,
    pub hex: String,
}

impl Rgb {
    pub fn new(r: u8, g: u8, b: u8) -> (c: Rgb)
        ensures
            c == (Rgb { r, g, b }),
    {
        Rgb { r, g, b }
    }
}

impl Hsl {
    pub fn new(h: u16, s: u8, l: u8) -> (c: Hsl)
        ensures
            c == (Hsl { h, s, l }),
    {
        Hsl { h, s, l }
    }
}

pub fn rgb(r: u8, g: u8, b: u8) -> (c: Rgb)
    ensures
        c == (Rgb { r, g, b }),
{
    Rgb { r, g, b }
}

pub fn hsl(h: u16, s: u8, l: u8) -> (c: Hsl)
    ensures
        c == (Hsl { h, s, l }),
{
    Hsl { h, s, l }
}

/// One of the three theme variants, in declaration order.
#[derive(Clone, Copy, Debug, PartialEq, Eq, Structural)]
pub enum Variant {
    Main,
    Moon,
    Dawn,
}

/// Whether a variant is a light or a dark theme; exactly one variant
/// (`Dawn`) is light.
#[derive(Clone, Copy, Debug, PartialEq, Eq, Structural)]
pub enum VariantKind {
    Light,
    Dark,
}

/// One of the fifteen semantic color roles, in declaration order.
#[derive(Clone, Copy, Debug, PartialEq, Eq, Structural)]
pub enum Role {
    Base,
    Surface,
    Overlay,
    Muted,
    Subtle,
    Text,
    Love,
    Gold,
    Rose,
    Pine,
    Foam,
    Iris,
    HighlightLow,
    HighlightMed,
    HighlightHigh,
}

/// A textual attribute of a variant that a placeholder may refer to
/// instead of a color.
#[derive(Clone, Copy, Debug, PartialEq, Eq, Structural)]
pub enum Metadata {
    Id,
    Name,
    Description,
    Key,
    Kind,
}

/// All roles, in declaration order.
pub open spec fn role_list() -> Seq<Role> {
    seq![
        Role::Base,
        Role::Surface,
        Role::Overlay,
        Role::Muted,
        Role::Subtle,
        Role::Text,
        Role::Love,
        Role::Gold,
        Role::Rose,
        Role::Pine,
        Role::Foam,
        Role::Iris,
        Role::HighlightLow,
        Role::HighlightMed,
        Role::HighlightHigh,
    ]
}

/// The snake case spelling under which a role is matched in templates.
pub open spec fn role_token(r: Role) -> Seq<char> {
    match r {
        Role::Base => "base"@,
        Role::Surface => "surface"@,
        Role::Overlay => "overlay"@,
        Role::Muted => "muted"@,
        Role::Subtle => "subtle"@,
        Role::Text => "text"@,
        Role::Love => "love"@,
        Role::Gold => "gold"@,
        Role::Rose => "rose"@,
        Role::Pine => "pine"@,
        Role::Foam => "foam"@,
        Role::Iris => "iris"@,
        Role::HighlightLow => "highlight_low"@,
        Role::HighlightMed => "highlight_med"@,
        Role::HighlightHigh => "highlight_high"@,
    }
}

/// All metadata keys, in declaration order.
pub open spec fn metadata_list() -> Seq<Metadata> {
    seq![Metadata::Id, Metadata::Name, Metadata::Description, Metadata::Key, Metadata::Kind]
}

/// The snake case spelling under which a metadata key is matched.
pub open spec fn metadata_token(m: Metadata) -> Seq<char> {
    match m {
        Metadata::Id => "id"@,
        Metadata::Name => "name"@,
        Metadata::Description => "description"@,
        Metadata::Key => "key"@,
        Metadata::Kind => "kind"@,
    }
}

/// The light/dark classification of each variant.
pub open spec fn spec_kind(v: Variant) -> VariantKind {
    match v {
        Variant::Dawn => VariantKind::Light,
        _ => VariantKind::Dark,
    }
}

/// The fixed RGB value of every (variant, role) pair.
pub open spec fn spec_rgb(v: Variant, role: Role) -> Rgb {
    match v {
        Variant::Main => match role {
            Role::Base => Rgb { r: 25, g: 23, b: 36 },
            Role::Surface => Rgb { r: 31, g: 29, b: 46 },
            Role::Overlay => Rgb { r: 38, g: 35, b: 58 },
            Role::Muted => Rgb { r: 110, g: 106, b: 134 },
            Role::Subtle => Rgb { r: 144, g: 140, b: 170 },
            Role::Text => Rgb { r: 224, g: 222, b: 244 },
            Role::Love => Rgb { r: 235, g: 111, b: 146 },
            Role::Gold => Rgb { r: 246, g: 193, b: 119 },
            Role::Rose => Rgb { r: 235, g: 188, b: 186 },
            Role::Pine => Rgb { r: 49, g: 116, b: 143 },
            Role::Foam => Rgb { r: 156, g: 207, b: 216 },
            Role::Iris => Rgb { r: 196, g: 167, b: 231 },
            Role::HighlightLow => Rgb { r: 33, g: 32, b: 46 },
            Role::HighlightMed => Rgb { r: 64, g: 61, b: 82 },
            Role::HighlightHigh => Rgb { r: 82, g: 79, b: 103 },
        },
        Variant::Moon => match role {
            Role::Base => Rgb { r: 35, g: 33, b: 54 },
            Role::Surface => Rgb { r: 42, g: 39, b: 63 },
            Role::Overlay => Rgb { r: 57, g: 53, b: 82 },
            Role::Muted => Rgb { r: 110, g: 106, b: 134 },
            Role::Subtle => Rgb { r: 144, g: 140, b: 170 },
            Role::Text => Rgb { r: 224, g: 222, b: 244 },
            Role::Love => Rgb { r: 235, g: 111, b: 146 },
            Role::Gold => Rgb { r: 246, g: 193, b: 119 },
            Role::Rose => Rgb { r: 234, g: 154, b: 151 },
            Role::Pine => Rgb { r: 62, g: 143, b: 176 },
            Role::Foam => Rgb { r: 156, g: 207, b: 216 },
            Role::Iris => Rgb { r: 196, g: 167, b: 231 },
            Role::HighlightLow => Rgb { r: 42, g: 40, b: 62 },
            Role::HighlightMed => Rgb { r: 68, g: 65, b: 90 },
            Role::HighlightHigh => Rgb { r: 86, g: 82, b: 110 },
        },
        Variant::Dawn => match role {
            Role::Base => Rgb { r: 250, g: 244, b: 237 },
            Role::Surface => Rgb { r: 255, g: 250, b: 243 },
            Role::Overlay => Rgb { r: 242, g: 233, b: 222 },
            Role::Muted => Rgb { r: 152, g: 147, b: 165 },
            Role::Subtle => Rgb { r: 121, g: 117, b: 147 },
            Role::Text => Rgb { r: 87, g: 82, b: 121 },
            Role::Love => Rgb { r: 180, g: 99, b: 122 },
            Role::Gold => Rgb { r: 234, g: 157, b: 52 },
            Role::Rose => Rgb { r: 215, g: 130, b: 126 },
            Role::Pine => Rgb { r: 40, g: 105, b: 131 },
            Role::Foam => Rgb { r: 86, g: 148, b: 159 },
            Role::Iris => Rgb { r: 144, g: 122, b: 169 },
            Role::HighlightLow => Rgb { r: 244, g: 237, b: 232 },
            Role::HighlightMed => Rgb { r: 223, g: 218, b: 217 },
            Role::HighlightHigh => Rgb { r: 206, g: 202, b: 205 },
        },
    }
}

/// Division rounded to the nearest integer, halves rounded up.
pub open spec fn round_div(a: int, b: int) -> int {
    (2 * a + b) / (2 * b)
}

pub proof fn lemma_round_div_range(a: int, b: int, lo: int, hi: int)
    requires
        1 <= b,
        0 <= lo,
        lo * b <= a,
        a <= hi * b,
    ensures
        lo <= round_div(a, b),
        round_div(a, b) <= hi,
{
    let two_b = 2 * b;
    assert(lo * (2 * b) + b <= 2 * a + b && 2 * a + b <= hi * (2 * b) + b) by (nonlinear_arith)
        requires
            lo * b <= a,
            a <= hi * b,
            1 <= b,
    ;
    lemma_fundamental_div_mod_converse(lo * two_b + b, two_b, lo, b);
    lemma_fundamental_div_mod_converse(hi * two_b + b, two_b, hi, b);
    lemma_div_is_ordered(lo * two_b + b, 2 * a + b, two_b);
    lemma_div_is_ordered(2 * a + b, hi * two_b + b, two_b);
}

/// The RGB-to-HSL transform, with every channel rounded to the nearest
/// integer: hue in degrees (`0..=360`), saturation and lightness in
/// percent (`0..=100`).
#[verifier::opaque]
pub open spec fn spec_rgb_to_hsl(c: Rgb) -> Hsl {
    let r = c.r as int;
    let g = c.g as int;
    let b = c.b as int;
    let mx = if r >= g && r >= b {
        r
    } else if g >= b {
        g
    } else {
        b
    };
    let mn = if r <= g && r <= b {
        r
    } else if g <= b {
        g
    } else {
        b
    };
    let d = mx - mn;
    let sum = mx + mn;
    let l = round_div(100 * sum, 510);
    if d == 0 {
        Hsl { h: 0, s: 0, l: l as u8 }
    } else {
        let denom = if sum >= 255 {
            510 - sum
        } else {
            sum
        };
        let s = round_div(100 * d, denom);
        let h = if mx == r {
            let t = round_div(360 * d + 60 * g - 60 * b, d);
            if t >= 360 {
                t - 360
            } else {
                t
            }
        } else if mx == g {
            round_div(360 * d + 60 * b - 60 * r, d) - 240
        } else {
            round_div(360 * d + 60 * r - 60 * g, d) - 120
        };
        Hsl { h: h as u16, s: s as u8, l: l as u8 }
    }
}

fn round_div_u32(a: u32, b: u32) -> (q: u32)
    requires
        1 <= b,
        2 * a + b <= u32::MAX,
        2 * b <= u32::MAX,
    ensures
        q == round_div(a as int, b as int),
{
    (2 * a + b) / (2 * b)
}

/// Converts an RGB value to the derived HSL value.
pub fn rgb_to_hsl(c: Rgb) -> (res: Hsl)
    ensures
        res == spec_rgb_to_hsl(c),
        res.h <= 420,
        res.s <= 100,
        res.l <= 100,
{
    proof {
        reveal(spec_rgb_to_hsl);
    }
    let r: u32 = c.r as u32;
    let g: u32 = c.g as u32;
    let b: u32 = c.b as u32;
    let mx: u32 = if r >= g && r >= b {
        r
    } else if g >= b {
        g
    } else {
        b
    };
    let mn: u32 = if r <= g && r <= b {
        r
    } else if g <= b {
        g
    } else {
        b
    };
    let d: u32 = mx - mn;
    let sum: u32 = mx + mn;
    let l: u32 = round_div_u32(100 * sum, 510);
    proof {
        lemma_round_div_range(100 * (sum as int), 510, 0, 100);
    }
    if d == 0 {
        Hsl { h: 0, s: 0, l: l as u8 }
    } else {
        let denom: u32 = if sum >= 255 {
            510 - sum
        } else {
            sum
        };
        let s: u32 = round_div_u32(100 * d, denom);
        proof {
            assert(100 * (d as int) <= 100 * (denom as int));
            lemma_round_div_range(100 * (d as int), denom as int, 0, 100);
        }
        let h: u32 = if mx == r {
            let num: u32 = 360 * d + 60 * g - 60 * b;
            let t: u32 = round_div_u32(num, d);
            proof {
                assert(300 * (d as int) <= num as int <= 420 * (d as int));
                lemma_round_div_range(num as int, d as int, 300, 420);
            }
            if t >= 360 {
                t - 360
            } else {
                t
            }
        } else if mx == g {
            let num: u32 = 360 * d + 60 * b - 60 * r;
            let t: u32 = round_div_u32(num, d);
            proof {
                assert(300 * (d as int) <= num as int <= 420 * (d as int));
                lemma_round_div_range(num as int, d as int, 300, 420);
            }
            t - 240
        } else {
            let num: u32 = 360 * d + 60 * r - 60 * g;
            let t: u32 = round_div_u32(num, d);
            proof {
                assert(300 * (d as int) <= num as int <= 420 * (d as int));
                lemma_round_div_range(num as int, d as int, 300, 420);
            }
            t - 120
        };
        Hsl { h: h as u16, s: s as u8, l: l as u8 }
    }
}

/// The six lowercase hexadecimal digits of an RGB value.
pub open spec fn spec_hex6(c: Rgb) -> Seq<char> {
    hex2_of(c.r as int) + hex2_of(c.g as int) + hex2_of(c.b as int)
}

/// Renders an RGB value as its six-digit hexadecimal spelling.
pub fn hex6(c: Rgb) -> (s: Vec<char>)
    ensures
        s@ == spec_hex6(c),
{
    let mut s = hex2_str(c.r);
    let gp = hex2_str(c.g);
    extend_chars(&mut s, &gp);
    let bp = hex2_str(c.b);
    extend_chars(&mut s, &bp);
    s
}

pub type Colors = (Rgb, Hsl);

/// The full color table of one variant.
pub struct Palette {
    base: Colors,
    surface: Colors,
    overlay: Colors,
    muted: Colors,
    subtle: Colors,
    text: Colors,
    love: Colors,
    gold: Colors,
    rose: Colors,
    pine: Colors,
    foam: Colors,
    iris: Colors,
    highlight_low: Colors,
    highlight_med: Colors,
    highlight_high: Colors,
}

impl Palette {
    /// The entry this palette holds for a role.
    pub closed spec fn spec_role(&self, role: Role) -> Colors {
        match role {
            Role::Base => self.base,
            Role::Surface => self.surface,
            Role::Overlay => self.overlay,
            Role::Muted => self.muted,
            Role::Subtle => self.subtle,
            Role::Text => self.text,
            Role::Love => self.love,
            Role::Gold => self.gold,
            Role::Rose => self.rose,
            Role::Pine => self.pine,
            Role::Foam => self.foam,
            Role::Iris => self.iris,
            Role::HighlightLow => self.highlight_low,
            Role::HighlightMed => self.highlight_med,
            Role::HighlightHigh => self.highlight_high,
        }
    }

    /// The palette holds, for every role, the variant's RGB value and
    /// the HSL value derived from it.
    pub open spec fn wf(&self, v: Variant) -> bool {
        forall|role: Role| #[trigger]
            self.spec_role(role) == (spec_rgb(v, role), spec_rgb_to_hsl(spec_rgb(v, role)))
    }

    pub fn get_role(&self, role: &Role) -> (res: Colors)
        ensures
            res == self.spec_role(*role),
    {
        match role {
            Role::Base => self.base,
            Role::Surface => self.surface,
            Role::Overlay => self.overlay,
            Role::Muted => self.muted,
            Role::Subtle => self.subtle,
            Role::Text => self.text,
            Role::Love => self.love,
            Role::Gold => self.gold,
            Role::Rose => self.rose,
            Role::Pine => self.pine,
            Role::Foam => self.foam,
            Role::Iris => self.iris,
            Role::HighlightLow => self.highlight_low,
            Role::HighlightMed => self.highlight_med,
            Role::HighlightHigh => self.highlight_high,
        }
    }

    pub fn get_rgb(&self, role: &Role) -> (res: Rgb)
        ensures
            res == self.spec_role(*role).0,
    {
        self.get_role(role).0
    }

    pub fn get_hsl(&self, role: &Role) -> (res: Hsl)
        ensures
            res == self.spec_role(*role).1,
    {
        self.get_role(role).1
    }
}

fn entry(r: u8, g: u8, b: u8) -> (res: Colors)
    ensures
        res == ((Rgb { r, g, b }), spec_rgb_to_hsl(Rgb { r, g, b })),
{
    let c = Rgb { r, g, b };
    (c, rgb_to_hsl(c))
}

impl Variant {
    /// Builds the full color table of this variant, with HSL derived
    /// from RGB for every role.
    pub fn get_palette(&self) -> (p: Palette)
        ensures
            p.wf(*self),
    {
        match self {
            Variant::Main => Palette {
                base: entry(25, 23, 36),
                surface: entry(31, 29, 46),
                overlay: entry(38, 35, 58),
                muted: entry(110, 106, 134),
                subtle: entry(144, 140, 170),
                text: entry(224, 222, 244),
                love: entry(235, 111, 146),
                gold: entry(246, 193, 119),
                rose: entry(235, 188, 186),
                pine: entry(49, 116, 143),
                foam: entry(156, 207, 216),
                iris: entry(196, 167, 231),
                highlight_low: entry(33, 32, 46),
                highlight_med: entry(64, 61, 82),
                highlight_high: entry(82, 79, 103),
            },
            Variant::Moon => Palette {
                base: entry(35, 33, 54),
                surface: entry(42, 39, 63),
                overlay: entry(57, 53, 82),
                muted: entry(110, 106, 134),
                subtle: entry(144, 140, 170),
                text: entry(224, 222, 244),
                love: entry(235, 111, 146),
                gold: entry(246, 193, 119),
                rose: entry(234, 154, 151),
                pine: entry(62, 143, 176),
                foam: entry(156, 207, 216),
                iris: entry(196, 167, 231),
                highlight_low: entry(42, 40, 62),
                highlight_med: entry(68, 65, 90),
                highlight_high: entry(86, 82, 110),
            },
            Variant::Dawn => Palette {
                base: entry(250, 244, 237),
                surface: entry(255, 250, 243),
                overlay: entry(242, 233, 222),
                muted: entry(152, 147, 165),
                subtle: entry(121, 117, 147),
                text: entry(87, 82, 121),
                love: entry(180, 99, 122),
                gold: entry(234, 157, 52),
                rose: entry(215, 130, 126),
                pine: entry(40, 105, 131),
                foam: entry(86, 148, 159),
                iris: entry(144, 122, 169),
                highlight_low: entry(244, 237, 232),
                highlight_med: entry(223, 218, 217),
                highlight_high: entry(206, 202, 205),
            },
        }
    }

    pub fn get_rgb(&self, role: Role) -> (res: Rgb)
        ensures
            res == spec_rgb(*self, role),
    {
        self.get_palette().get_rgb(&role)
    }

    pub fn get_hsl(&self, role: Role) -> (res: Hsl)
        ensures
            res == spec_rgb_to_hsl(spec_rgb(*self, role)),
    {
        self.get_palette().get_hsl(&role)
    }

    pub fn kind(&self) -> (k: VariantKind)
        ensures
            k == spec_kind(*self),
    {
        match self {
            Variant::Dawn => VariantKind::Light,
            _ => VariantKind::Dark,
        }
    }

    pub fn id(&self) -> (s: String)
        ensures
            s@ == spec_id(*self),
    {
        match self {
            Variant::Main => String::from_str("rose-pine"),
            Variant::Moon => String::from_str("rose-pine-moon"),
            Variant::Dawn => String::from_str("rose-pine-dawn"),
        }
    }

    pub fn key(&self) -> (s: String)
        ensures
            s@ == spec_key(*self),
    {
        match self {
            Variant::Main => String::from_str("main"),
            Variant::Moon => String::from_str("moon"),
            Variant::Dawn => String::from_str("dawn"),
        }
    }

    pub fn name(&self) -> (s: String)
        ensures
            s@ == spec_name(*self),
    {
        match self {
            Variant::Main => String::from_str("Rosé Pine"),
            Variant::Moon => String::from_str("Rosé Pine Moon"),
            Variant::Dawn => String::from_str("Rosé Pine Dawn"),
        }
    }
}

/// The stable identifier of each variant.
pub open spec fn spec_id(v: Variant) -> Seq<char> {
    match v {
        Variant::Main => "rose-pine"@,
        Variant::Moon => "rose-pine-moon"@,
        Variant::Dawn => "rose-pine-dawn"@,
    }
}

/// The short key of each variant.
pub open spec fn spec_key(v: Variant) -> Seq<char> {
    match v {
        Variant::Main => "main"@,
        Variant::Moon => "moon"@,
        Variant::Dawn => "dawn"@,
    }
}

/// The display name of each variant.
pub open spec fn spec_name(v: Variant) -> Seq<char> {
    match v {
        Variant::Main => "Rosé Pine"@,
        Variant::Moon => "Rosé Pine Moon"@,
        Variant::Dawn => "Rosé Pine Dawn"@,
    }
}

/// The shared description of the theme.
pub open spec fn spec_description() -> Seq<char> {
    "All natural pine, faux fur and a bit of soho vibes for the classy minimalist"@
}

/// The lowercase spelling of a variant kind.
pub open spec fn spec_kind_str(k: VariantKind) -> Seq<char> {
    match k {
        VariantKind::Light => "light"@,
        VariantKind::Dark => "dark"@,
    }
}

/// The text a metadata key stands for, per variant.
pub open spec fn spec_metadata_value(m: Metadata, v: Variant) -> Seq<char> {
    match m {
        Metadata::Id => spec_id(v),
        Metadata::Name => spec_name(v),
        Metadata::Description => spec_description(),
        Metadata::Key => spec_key(v),
        Metadata::Kind => spec_kind_str(spec_kind(v)),
    }
}

impl Metadata {
    /// Renders the metadata value of this key for a variant.
    pub fn format(&self, variant: &Variant) -> (s: String)
        ensures
            s@ == spec_metadata_value(*self, *variant),
    {
        match self {
            Metadata::Id => variant.id(),
            Metadata::Name => variant.name(),
            Metadata::Description => String::from_str(
                "All natural pine, faux fur and a bit of soho vibes for the classy minimalist",
            ),
            Metadata::Key => variant.key(),
            Metadata::Kind => match variant.kind() {
                VariantKind::Light => String::from_str("light"),
                VariantKind::Dark => String::from_str("dark"),
            },
        }
    }
}

impl Role {
    pub fn get_rgb(&self, variant: &Variant) -> (res: Rgb)
        ensures
            res == spec_rgb(*variant, *self),
    {
        variant.get_rgb(*self)
    }

    pub fn get_hsl(&self, variant: &Variant) -> (res: Hsl)
        ensures
            res == spec_rgb_to_hsl(spec_rgb(*variant, *self)),
    {
        variant.get_hsl(*self)
    }

    /// Resolves this role against a variant: its RGB value, the derived
    /// HSL value, and the hexadecimal spelling.
    pub fn get_color(&self, v: &Variant) -> (c: Color)
        ensures
            c.rgb == spec_rgb(*v, *self),
            c.hsl == spec_rgb_to_hsl(spec_rgb(*v, *self)),
            c.hex@ == spec_hex6(spec_rgb(*v, *self)),
    {
        let rgb = self.get_rgb(v);
        let hex_chars = hex6(rgb);
        Color { rgb, hsl: self.get_hsl(v), hex: chars_to_string(&hex_chars) }
    }
}

/// For every role of a variant's palette, the stored HSL value is
/// exactly the one derived from the stored RGB value by the rounded
/// RGB-to-HSL transform: the two color spaces can never drift apart.
pub proof fn lemma_hsl_consistent_with_rgb(p: Palette, v: Variant, role: Role)
    requires
        p.wf(v),
    ensures
        p.spec_role(role).1 == spec_rgb_to_hsl(p.spec_role(role).0),
        p.spec_role(role).0 == spec_rgb(v, role),
{
    assert(p.spec_role(role) == (spec_rgb(v, role), spec_rgb_to_hsl(spec_rgb(v, role))));
}

/// A color carries exactly the palette's data for a (variant, role)
/// pair: the RGB value, the derived HSL value and the hex spelling.
pub open spec fn color_matches(c: Color, v: Variant, role: Role) -> bool {
    &&& c.rgb == spec_rgb(v, role)
    &&& c.hsl == spec_rgb_to_hsl(spec_rgb(v, role))
    &&& c.hex@ == spec_hex6(spec_rgb(v, role))
}

impl Variant {
    /// Every metadata key of this variant with its value, under the
    /// keys' snake case spellings, in declaration order.
    pub fn metadata(&self) -> (res: Vec<(String, String)>)
        ensures
            res@.len() == metadata_list().len(),
            forall|j: int|
                0 <= j < res@.len() ==> (#[trigger] res@[j]).0@ == metadata_token(
                    metadata_list()[j],
                ) && res@[j].1@ == spec_metadata_value(metadata_list()[j], *self),
    {
        let mut res: Vec<(String, String)> = Vec::new();
        res.push((String::from_str("id"), Metadata::Id.format(self)));
        res.push((String::from_str("name"), Metadata::Name.format(self)));
        res.push((String::from_str("description"), Metadata::Description.format(self)));
        res.push((String::from_str("key"), Metadata::Key.format(self)));
        res.push((String::from_str("kind"), Metadata::Kind.format(self)));
        res
    }

    /// Every role's resolved color for this variant, under the roles'
    /// snake case spellings, in declaration order.
    pub fn colors(&self) -> (res: Vec<(String, Color)>)
        ensures
            res@.len() == role_list().len(),
            forall|j: int|
                0 <= j < res@.len() ==> (#[trigger] res@[j]).0@ == role_token(role_list()[j])
                    && color_matches(res@[j].1, *self, role_list()[j]),
    {
        let mut res: Vec<(String, Color)> = Vec::new();
        res.push((String::from_str("base"), Role::Base.get_color(self)));
        res.push((String::from_str("surface"), Role::Surface.get_color(self)));
        res.push((String::from_str("overlay"), Role::Overlay.get_color(self)));
        res.push((String::from_str("muted"), Role::Muted.get_color(self)));
        res.push((String::from_str("subtle"), Role::Subtle.get_color(self)));
        res.push((String::from_str("text"), Role::Text.get_color(self)));
        res.push((String::from_str("love"), Role::Love.get_color(self)));
        res.push((String::from_str("gold"), Role::Gold.get_color(self)));
        res.push((String::from_str("rose"), Role::Rose.get_color(self)));
        res.push((String::from_str("pine"), Role::Pine.get_color(self)));
        res.push((String::from_str("foam"), Role::Foam.get_color(self)));
        res.push((String::from_str("iris"), Role::Iris.get_color(self)));
        res.push((String::from_str("highlight_low"), Role::HighlightLow.get_color(self)));
        res.push((String::from_str("highlight_med"), Role::HighlightMed.get_color(self)));
        res.push((String::from_str("highlight_high"), Role::HighlightHigh.get_color(self)));
        res
    }
}

} // verus!
