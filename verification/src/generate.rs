//! The generator: renders every parsed capture for a variant and
//! splices the rendered text back into the document, last capture
//! first, so that the offsets of the captures still to be processed
//! stay valid while the text changes length.

use vstd::prelude::*;

use crate::casing::{apply_case, convert_case, Case};
use crate::config::Config;
use crate::format::{spec_format_color, Format};
use crate::palette::{
    spec_hex6, spec_kind, spec_metadata_value, spec_rgb, spec_rgb_to_hsl, Color, Role, Variant,
    VariantKind,
};
use crate::parse::{
    lemma_scan_all_no_prefix, lemma_scan_all_ordered, models_of, ok_end, ok_start, parse_template, spec_scan_all,
    spec_parse_template, Capture, CaptureModel, ParseError, ParseOptions, RoleCaptures, Template,
    TemplateModel,
};
use crate::text::{chars_vec, substitute};

verus! {

/// How captures are rendered: the default format when a placeholder
/// names none, and whether an alpha value is always emitted.
#[derive(Clone, Copy, Debug, PartialEq, Eq, Structural)]
pub struct Options {
    pub format: Format,
    pub strip_spaces: bool,
    pub force_alpha: bool,
}

impl Default for Options {
    fn default() -> (o: Options)
        ensures
            o == (Options { format: Format::Hex, strip_spaces: false, force_alpha: false }),
    {
        Options { format: Format::Hex, strip_spaces: false, force_alpha: false }
    }
}

/// The role a group of one, two or three roles selects: one role serves
/// every variant; of two, the first serves the dark variants and the
/// second the light one; three are positional, one per variant.
pub open spec fn spec_selected_role(roles: Seq<Role>, v: Variant) -> Role {
    if roles.len() == 2 {
        if spec_kind(v) == VariantKind::Light {
            roles[1]
        } else {
            roles[0]
        }
    } else if roles.len() == 3 {
        match v {
            Variant::Main => roles[0],
            Variant::Moon => roles[1],
            Variant::Dawn => roles[2],
        }
    } else {
        roles[0]
    }
}

pub open spec fn apply_case_opt(c: Option<Case>, s: Seq<char>) -> Seq<char> {
    match c {
        None => s,
        Some(case) => apply_case(case, s),
    }
}

/// What one capture renders to for a variant: metadata text with its
/// optional case conversion, or a formatted color. Nothing is rendered
/// for an out-of-range opacity, for the floating point format, or for
/// a role group whose size is not one to three.
pub open spec fn spec_render(t: TemplateModel, v: Variant, opts: Options) -> Option<Seq<char>> {
    match t {
        TemplateModel::Meta { key, case } => Some(
            apply_case_opt(case, spec_metadata_value(key, v)),
        ),
        TemplateModel::Roles { roles, format, opacity } => {
            let f = match format {
                Some(f) => f,
                None => opts.format,
            };
            let a = if opts.force_alpha {
                Some(
                    match opacity {
                        Some(o) => o,
                        None => 100u16,
                    },
                )
            } else {
                opacity
            };
            if 1 <= roles.len() <= 3 {
                spec_format_color(f, spec_rgb(v, spec_selected_role(roles, v)), a)
            } else {
                None
            }
        },
    }
}

/// One substitution step: an errored or unrenderable capture leaves the
/// text untouched; a rendered one replaces its span.
pub open spec fn spec_splice_one(
    s: Seq<char>,
    r: Result<CaptureModel, ParseError>,
    v: Variant,
    opts: Options,
) -> Seq<char> {
    match r {
        Err(_) => s,
        Ok(c) => match spec_render(c.template, v, opts) {
            None => s,
            Some(txt) => if 0 <= c.start <= c.end <= s.len() {
                s.subrange(0, c.start) + txt + s.subrange(c.end, s.len() as int)
            } else {
                s
            },
        },
    }
}

/// Applies the captures `caps[k..]` to `s`, the last capture first.
pub open spec fn spec_apply_from(
    s: Seq<char>,
    caps: Seq<Result<CaptureModel, ParseError>>,
    k: int,
    v: Variant,
    opts: Options,
) -> Seq<char>
    decreases caps.len() - k,
{
    if k < 0 || k >= caps.len() {
        s
    } else {
        spec_splice_one(spec_apply_from(s, caps, k + 1, v, opts), caps[k], v, opts)
    }
}

/// The document generated for one variant: every placeholder the scan
/// parsed is replaced by its rendered text, back to front; errored
/// spans stay literal.
pub open spec fn spec_generate_variant(v: Variant, config: Config, s: Seq<char>) -> Seq<char> {
    spec_apply_from(s, spec_parse_template(s, config.parse), 0, v, config.generate)
}

impl RoleCaptures {
    /// The role this group selects for a variant, when the group holds
    /// one to three roles.
    fn select_role(&self, variant: &Variant) -> (r: Option<Role>)
        ensures
            r == if 1 <= self.0@.len() <= 3 {
                Some(spec_selected_role(self.0@, *variant))
            } else {
                None::<Role>
            },
    {
        let n = self.0.len();
        if n == 1 {
            Some(self.0[0])
        } else if n == 2 {
            match variant.kind() {
                VariantKind::Light => Some(self.0[1]),
                VariantKind::Dark => Some(self.0[0]),
            }
        } else if n == 3 {
            match variant {
                Variant::Main => Some(self.0[0]),
                Variant::Moon => Some(self.0[1]),
                Variant::Dawn => Some(self.0[2]),
            }
        } else {
            None
        }
    }

    /// Resolves the selected role's color against a variant.
    pub fn get_color(&self, variant: &Variant) -> (c: Color)
        requires
            1 <= self.0@.len() <= 3,
        ensures
            c.rgb == spec_rgb(*variant, spec_selected_role(self.0@, *variant)),
            c.hsl == spec_rgb_to_hsl(spec_rgb(*variant, spec_selected_role(self.0@, *variant))),
            c.hex@ == spec_hex6(spec_rgb(*variant, spec_selected_role(self.0@, *variant))),
    {
        let role = match self.select_role(variant) {
            Some(r) => r,
            None => vstd::pervasive::unreached(),
        };
        role.get_color(variant)
    }
}

impl Capture {
    /// Renders this capture for a variant: a color under the capture's
    /// format (or the caller's default) and opacity, or a metadata
    /// value under its optional case conversion. `None` exactly when
    /// the capture cannot be rendered; the generator then leaves its
    /// span as literal text.
    pub fn format(&self, variant: &Variant, options: &Options) -> (r: Option<String>)
        ensures
            match r {
                Some(t) => spec_render(self.template.model(), *variant, *options) == Some(t@),
                None => spec_render(self.template.model(), *variant, *options) is None,
            },
    {
        match &self.template {
            Template::Metadata(key, case) => {
                let value = key.format(variant);
                match case {
                    Some(c) => Some(convert_case(value.as_str(), *c)),
                    None => Some(value),
                }
            },
            Template::Role(rc, format, opacity) => {
                let f = match format {
                    Some(f) => *f,
                    None => options.format,
                };
                let a: Option<u16> = if options.force_alpha {
                    Some(
                        match opacity {
                            Some(o) => *o,
                            None => 100,
                        },
                    )
                } else {
                    *opacity
                };
                match rc.select_role(variant) {
                    None => None,
                    Some(role) => {
                        let rgb = variant.get_rgb(role);
                        f.format_color(rgb, a)
                    },
                }
            },
        }
    }

    /// Renders this capture under a whole configuration's rendering
    /// options.
    pub fn format_role(&self, variant: Variant, config: &Config) -> (r: Option<String>)
        ensures
            match r {
                Some(t) => spec_render(self.template.model(), variant, config.generate) == Some(
                    t@,
                ),
                None => spec_render(self.template.model(), variant, config.generate) is None,
            },
    {
        self.format(&variant, &config.generate)
    }
}

/// Splices every rendered capture into a copy of the document, the
/// last capture first.
fn replace_captures(
    captures: &Vec<Result<Capture, ParseError>>,
    options: &Options,
    variant: &Variant,
    content: &str,
) -> (out: Vec<char>)
    ensures
        out@ == spec_apply_from(content@, models_of(captures@), 0, *variant, *options),
{
    let ghost caps = models_of(captures@);
    let mut buffer = chars_vec(content);
    let mut k = captures.len();
    proof {
        assert(caps.len() == captures@.len());
    }
    while k > 0
        invariant
            k <= captures@.len(),
            caps == models_of(captures@),
            caps.len() == captures@.len(),
            buffer@ == spec_apply_from(content@, caps, k as int, *variant, *options),
        decreases k,
    {
        k = k - 1;
        match &captures[k] {
            Err(_) => {},
            Ok(capture) => {
                match capture.format(variant, options) {
                    None => {},
                    Some(txt) => {
                        if capture.start <= capture.end && capture.end <= buffer.len() {
                            let txt_chars = chars_vec(txt.as_str());
                            substitute(&mut buffer, &txt_chars, capture.start, capture.end);
                        }
                    },
                }
            },
        }
    }
    buffer
}

/// Generates the document for one variant: scans it once, then replaces
/// every well-formed placeholder, leaving malformed ones literal.
pub fn generate_variant(variant: &Variant, config: &Config, content: &str) -> (out: String)
    ensures
        out@ == spec_generate_variant(*variant, *config, content@),
{
    let captures = parse_template(content, config);
    let chars = replace_captures(&captures, &config.generate, variant, content);
    crate::text::chars_to_string(&chars)
}

/// Generates the document for all three variants, in declaration order.
pub fn generate_variants(config: &Config, content: &str) -> (res: Vec<(Variant, String)>)
    ensures
        res@.len() == 3,
        res@[0].0 == Variant::Main,
        res@[0].1@ == spec_generate_variant(Variant::Main, *config, content@),
        res@[1].0 == Variant::Moon,
        res@[1].1@ == spec_generate_variant(Variant::Moon, *config, content@),
        res@[2].0 == Variant::Dawn,
        res@[2].1@ == spec_generate_variant(Variant::Dawn, *config, content@),
{
    let mut res: Vec<(Variant, String)> = Vec::new();
    res.push((Variant::Main, generate_variant(&Variant::Main, config, content)));
    res.push((Variant::Moon, generate_variant(&Variant::Moon, config, content)));
    res.push((Variant::Dawn, generate_variant(&Variant::Dawn, config, content)));
    res
}

/// A document with no occurrence of the prefix character is returned
/// unchanged, for every variant: the scan finds no placeholder, and an
/// empty capture list substitutes nothing.
pub proof fn lemma_no_placeholder_unchanged(v: Variant, config: Config, s: Seq<char>)
    requires
        forall|i: int| 0 <= i < s.len() ==> s[i] != config.parse.prefix,
    ensures
        spec_generate_variant(v, config, s) == s,
{
    lemma_scan_all_no_prefix(s, 0, config.parse);
}

/// Splicing the captures `caps[j..]` into the document touches nothing
/// left of `b` as long as every successful capture in that suffix
/// starts at or after `b`: the prefix keeps its characters and the text
/// stays at least `b` long.
pub proof fn lemma_apply_from_preserves_prefix(
    s: Seq<char>,
    caps: Seq<Result<CaptureModel, ParseError>>,
    j: int,
    b: int,
    v: Variant,
    opts: Options,
)
    requires
        0 <= b <= s.len(),
        forall|k: int|
            j <= k < caps.len() && #[trigger] caps[k] is Ok ==> b <= ok_start(caps[k]),
    ensures
        spec_apply_from(s, caps, j, v, opts).len() >= b,
        forall|m: int|
            0 <= m < b ==> #[trigger] spec_apply_from(s, caps, j, v, opts)[m] == s[m],
    decreases caps.len() - j,
{
    if j < 0 || j >= caps.len() {
    } else {
        lemma_apply_from_preserves_prefix(s, caps, j + 1, b, v, opts);
        let buf = spec_apply_from(s, caps, j + 1, v, opts);
        let out = spec_apply_from(s, caps, j, v, opts);
        match caps[j] {
            Err(_) => {},
            Ok(c) => {
                match spec_render(c.template, v, opts) {
                    None => {},
                    Some(txt) => {
                        if 0 <= c.start <= c.end <= buf.len() {
                            assert(b <= ok_start(caps[j]));
                            assert forall|m: int| 0 <= m < b implies out[m] == s[m] by {
                                assert(out[m] == buf[m]);
                            }
                        }
                    },
                }
            },
        }
    }
}

/// A capture that failed to parse is contained: it contributes nothing
/// to the substitution, so its span stays literal text in the output of
/// every variant, and the rest of the document is still processed.
pub proof fn lemma_error_capture_changes_nothing(
    s: Seq<char>,
    caps: Seq<Result<CaptureModel, ParseError>>,
    k: int,
    v: Variant,
    opts: Options,
)
    requires
        0 <= k < caps.len(),
        caps[k] is Err,
    ensures
        spec_apply_from(s, caps, k, v, opts) == spec_apply_from(s, caps, k + 1, v, opts),
{
}

/// The point of replacing back to front: when the generator is about to
/// replace the `k`-th capture of the scan, everything the earlier
/// substitutions produced lies strictly to the right of that capture's
/// end, so the text before it — its own span and every earlier
/// capture's offsets included — still reads exactly as in the original
/// document.
pub proof fn lemma_rear_substitution_keeps_left_text(
    s: Seq<char>,
    po: ParseOptions,
    opts: Options,
    v: Variant,
    k: int,
)
    requires
        0 <= k < spec_scan_all(s, 0, po).len(),
        spec_scan_all(s, 0, po)[k] is Ok,
    ensures
        spec_apply_from(s, spec_scan_all(s, 0, po), k + 1, v, opts).len() >= ok_end(
            spec_scan_all(s, 0, po)[k],
        ),
        forall|m: int|
            0 <= m < ok_end(spec_scan_all(s, 0, po)[k]) ==> #[trigger] spec_apply_from(
                s,
                spec_scan_all(s, 0, po),
                k + 1,
                v,
                opts,
            )[m] == s[m],
{
    let caps = spec_scan_all(s, 0, po);
    lemma_scan_all_ordered(s, 0, po);
    let b = ok_end(caps[k]);
    lemma_apply_from_preserves_prefix(s, caps, k + 1, b, v, opts);
}

/// The document from position `from` on, assembled left to right: the
/// literal text up to each renderable capture, then its rendered text,
/// then the rest; errored or unrenderable captures contribute only
/// their literal text.
pub open spec fn spec_pieces(
    s: Seq<char>,
    caps: Seq<Result<CaptureModel, ParseError>>,
    k: int,
    from: int,
    v: Variant,
    opts: Options,
) -> Seq<char>
    decreases caps.len() - k,
{
    if k < 0 || k >= caps.len() {
        s.subrange(from, s.len() as int)
    } else {
        match caps[k] {
            Err(_) => spec_pieces(s, caps, k + 1, from, v, opts),
            Ok(c) => match spec_render(c.template, v, opts) {
                None => spec_pieces(s, caps, k + 1, from, v, opts),
                Some(txt) => if from <= c.start && c.start <= c.end && c.end <= s.len() {
                    s.subrange(from, c.start) + txt + spec_pieces(s, caps, k + 1, c.end, v, opts)
                } else {
                    spec_pieces(s, caps, k + 1, from, v, opts)
                },
            },
        }
    }
}

/// For captures that lie in the text in increasing, non-overlapping
/// order, splicing them back to front equals assembling the document
/// left to right.
proof fn lemma_apply_is_pieces(
    s: Seq<char>,
    caps: Seq<Result<CaptureModel, ParseError>>,
    k: int,
    b: int,
    v: Variant,
    opts: Options,
)
    requires
        0 <= b <= s.len(),
        forall|j: int|
            k <= j < caps.len() && #[trigger] caps[j] is Ok ==> b <= ok_start(caps[j]) && ok_start(
                caps[j],
            ) < ok_end(caps[j]) && ok_end(caps[j]) <= s.len(),
        forall|j1: int, j2: int|
            k <= j1 < j2 < caps.len() && #[trigger] caps[j1] is Ok && #[trigger] caps[j2]
                is Ok ==> ok_end(caps[j1]) <= ok_start(caps[j2]),
    ensures
        spec_apply_from(s, caps, k, v, opts) == s.subrange(0, b) + spec_pieces(
            s,
            caps,
            k,
            b,
            v,
            opts,
        ),
    decreases caps.len() - k,
{
    if k < 0 || k >= caps.len() {
        assert(spec_apply_from(s, caps, k, v, opts) =~= s.subrange(0, b) + spec_pieces(
            s,
            caps,
            k,
            b,
            v,
            opts,
        ));
    } else {
        match caps[k] {
            Err(_) => {
                lemma_apply_is_pieces(s, caps, k + 1, b, v, opts);
            },
            Ok(c) => {
                match spec_render(c.template, v, opts) {
                    None => {
                        lemma_apply_is_pieces(s, caps, k + 1, b, v, opts);
                    },
                    Some(txt) => {
                        assert(caps[k] is Ok);
                        assert(b <= c.start && c.start < c.end && c.end <= s.len());
                        assert forall|j: int|
                            k + 1 <= j < caps.len() && #[trigger] caps[j] is Ok implies c.end
                            <= ok_start(caps[j]) by {
                            assert(caps[k] is Ok && caps[j] is Ok);
                        }
                        lemma_apply_is_pieces(s, caps, k + 1, c.end, v, opts);
                        let buf = spec_apply_from(s, caps, k + 1, v, opts);
                        let rest = spec_pieces(s, caps, k + 1, c.end, v, opts);
                        assert(buf == s.subrange(0, c.end) + rest);
                        assert(buf.len() >= c.end);
                        let out = spec_apply_from(s, caps, k, v, opts);
                        assert(out == buf.subrange(0, c.start) + txt + buf.subrange(
                            c.end,
                            buf.len() as int,
                        ));
                        assert(buf.subrange(0, c.start) =~= s.subrange(0, c.start));
                        assert(buf.subrange(c.end, buf.len() as int) =~= rest);
                        assert(spec_pieces(s, caps, k, b, v, opts) == s.subrange(b, c.start) + txt
                            + rest);
                        assert(out =~= s.subrange(0, b) + spec_pieces(s, caps, k, b, v, opts));
                    },
                }
            },
        }
    }
}

/// The single-pass statement: generating a variant — one scan, then
/// back-to-front substitution — assembles exactly the literal gaps and
/// rendered captures of the document, left to right. Replacing from the
/// rear never corrupts the offsets of the captures to its left.
pub proof fn lemma_generate_is_single_pass(v: Variant, config: Config, s: Seq<char>)
    ensures
        spec_generate_variant(v, config, s) == spec_pieces(
            s,
            spec_parse_template(s, config.parse),
            0,
            0,
            v,
            config.generate,
        ),
{
    let caps = spec_parse_template(s, config.parse);
    lemma_scan_all_ordered(s, 0, config.parse);
    lemma_apply_is_pieces(s, caps, 0, 0, v, config.generate);
    assert(s.subrange(0, 0) + spec_pieces(s, caps, 0, 0, v, config.generate) =~= spec_pieces(
        s,
        caps,
        0,
        0,
        v,
        config.generate,
    ));
}

} // verus!
