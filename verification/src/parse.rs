//! The placeholder mini-language: a lexer over the template text and a
//! recursive-descent parser that recognizes one placeholder at a time.
//!
//! The grammar itself is written down as spec functions over character
//! sequences (`spec_parse_capture`, `spec_scan_all`); the executable
//! parser is proved to produce exactly what the grammar says, including
//! the cursor position at which scanning resumes after each placeholder.

use vstd::prelude::*;

use crate::casing::{case_list, case_token, Case};
use crate::config::Config;
use crate::format::{format_list, format_token, Format};
use crate::palette::{metadata_list, metadata_token, role_list, role_token, Metadata, Role};
use crate::text::chars_vec;

verus! {

/// The bracket pair that encloses a role group.
#[derive(Clone, Copy, Debug, PartialEq, Eq, Structural)]
pub enum Delimiter {
    Parenthesis,
    CurlyBracket,
    AngleBracket,
    SqaureBracket,
}

/// The opening character of a delimiter.
pub open spec fn spec_open(d: Delimiter) -> char {
    match d {
        Delimiter::Parenthesis => '(',
        Delimiter::CurlyBracket => '{',
        Delimiter::AngleBracket => '<',
        Delimiter::SqaureBracket => '[',
    }
}

/// The closing character of a delimiter.
pub open spec fn spec_close(d: Delimiter) -> char {
    match d {
        Delimiter::Parenthesis => ')',
        Delimiter::CurlyBracket => '}',
        Delimiter::AngleBracket => '>',
        Delimiter::SqaureBracket => ']',
    }
}

impl Delimiter {
    pub fn open(&self) -> (c: char)
        ensures
            c == spec_open(*self),
    {
        match self {
            Delimiter::Parenthesis => '(',
            Delimiter::CurlyBracket => '{',
            Delimiter::AngleBracket => '<',
            Delimiter::SqaureBracket => '[',
        }
    }

    pub fn close(&self) -> (c: char)
        ensures
            c == spec_close(*self),
    {
        match self {
            Delimiter::Parenthesis => ')',
            Delimiter::CurlyBracket => '}',
            Delimiter::AngleBracket => '>',
            Delimiter::SqaureBracket => ']',
        }
    }
}

impl Default for Delimiter {
    fn default() -> (d: Delimiter)
        ensures
            d == Delimiter::Parenthesis,
    {
        Delimiter::Parenthesis
    }
}

/// How the parser recognizes placeholders: the prefix character, the
/// separator between grouped roles, and the group delimiter.
#[derive(Clone, Copy, Debug, PartialEq, Eq, Structural)]
pub struct ParseOptions {
    pub prefix: char,
    pub seperator: char,
    pub delimiter: Delimiter,
}

impl Default for ParseOptions {
    fn default() -> (o: ParseOptions)
        ensures
            o == (ParseOptions { prefix: '$', seperator: '|', delimiter: Delimiter::Parenthesis }),
    {
        ParseOptions { prefix: '$', seperator: '|', delimiter: Delimiter::Parenthesis }
    }
}

/// Why one placeholder failed to parse. Every error is local to the
/// placeholder: the document scan reports it and goes on scanning.
#[derive(Clone, Copy, Debug, PartialEq, Eq, Structural)]
pub enum ParseError {
    /// No role, format or metadata spelling matches at this position.
    VariantNotFound,
    /// The parser was invoked on a cursor that is not on the prefix.
    PrefixExpected,
    /// A role group was opened but not by the opening delimiter.
    OpenDelimExpected,
    /// A role group misses its closing delimiter.
    CloseDelimExpected,
    /// A `/` with no digits after it.
    InvalidOpacity,
}

/// The roles captured from one placeholder: one shared by all variants,
/// two selected by dark/light, or three selected positionally.
#[derive(Debug, Clone, PartialEq)]
pub struct RoleCaptures(pub Vec<Role>);

impl RoleCaptures {
    pub fn new() -> (r: RoleCaptures)
        ensures
            r.0@ == Seq::<Role>::empty(),
    {
        RoleCaptures(Vec::new())
    }

    /// Adds a role; a group never grows past three entries.
    pub fn push(&mut self, val: Role)
        ensures
            final(self).0@ == if old(self).0@.len() < 3 {
                old(self).0@.push(val)
            } else {
                old(self).0@
            },
    {
        if self.0.len() < 3 {
            self.0.push(val);
        }
    }
}

/// What one placeholder stands for: a metadata reference with an
/// optional case conversion, or a role group with an optional format
/// override and an optional opacity percentage.
#[derive(Debug, Clone, PartialEq)]
pub enum Template {
    Metadata(Metadata, Option<Case>),
    Role(RoleCaptures, Option<Format>, Option<u16>),
}

/// One parsed placeholder: what it stands for and the character span
/// `[start, end)` it occupies in the source text.
#[derive(Debug, Clone, PartialEq)]
pub struct Capture {
    pub template: Template,
    pub start: usize,
    pub end: usize,
}

/// The mathematical shape of a parsed placeholder.
pub enum TemplateModel {
    Meta { key: Metadata, case: Option<Case> },
    Roles { roles: Seq<Role>, format: Option<Format>, opacity: Option<u16> },
}

pub struct CaptureModel {
    pub template: TemplateModel,
    pub start: int,
    pub end: int,
}

impl Template {
    pub open spec fn model(self) -> TemplateModel {
        match self {
            Template::Metadata(key, case) => TemplateModel::Meta { key, case },
            Template::Role(rc, format, opacity) => TemplateModel::Roles {
                roles: rc.0@,
                format,
                opacity,
            },
        }
    }
}

impl Capture {
    pub open spec fn model(self) -> CaptureModel {
        CaptureModel { template: self.template.model(), start: self.start as int, end: self.end as int }
    }
}

/// `t` occurs literally in `s` at position `i`.
pub open spec fn matches_at(s: Seq<char>, t: Seq<char>, i: int) -> bool {
    &&& 0 <= i
    &&& i + t.len() <= s.len()
    &&& forall|k: int| 0 <= k < t.len() ==> s[i + k] == t[k]
}

/// Among the candidate spellings `toks[j..]`, the index of the longest
/// one that occurs at position `i` (the earliest of equally long ones).
pub open spec fn best_from(s: Seq<char>, i: int, toks: Seq<Seq<char>>, j: int) -> Option<int>
    decreases toks.len() - j,
{
    if j >= toks.len() {
        None
    } else {
        let rest = best_from(s, i, toks, j + 1);
        if matches_at(s, toks[j], i) {
            match rest {
                None => Some(j),
                Some(k) => if toks[k].len() > toks[j].len() {
                    Some(k)
                } else {
                    Some(j)
                },
            }
        } else {
            rest
        }
    }
}

pub proof fn lemma_best_from_matches(s: Seq<char>, i: int, toks: Seq<Seq<char>>, j: int)
    ensures
        match best_from(s, i, toks, j) {
            Some(k) => j <= k < toks.len() && matches_at(s, toks[k], i),
            None => true,
        },
    decreases toks.len() - j,
{
    if j < toks.len() {
        lemma_best_from_matches(s, i, toks, j + 1);
    }
}

/// The views of a list of token vectors.
pub open spec fn views_of(toks: Seq<Vec<char>>) -> Seq<Seq<char>> {
    Seq::new(toks.len(), |j: int| toks[j]@)
}

fn match_token_at(content: &Vec<char>, i: usize, tok: &Vec<char>) -> (r: bool)
    ensures
        r == matches_at(content@, tok@, i as int),
{
    if i > content.len() {
        return false;
    }
    if tok.len() > content.len() - i {
        return false;
    }
    let mut k: usize = 0;
    while k < tok.len()
        invariant
            k <= tok@.len(),
            i + tok@.len() <= content@.len(),
            i + tok@.len() <= usize::MAX,
            forall|t: int| 0 <= t < k ==> content@[i + t] == tok@[t],
        decreases tok@.len() - k,
    {
        if content[i + k] != tok[k] {
            return false;
        }
        k = k + 1;
    }
    true
}

fn best_match_exec(content: &Vec<char>, i: usize, toks: &Vec<Vec<char>>) -> (r: Option<usize>)
    ensures
        match r {
            Some(k) => k < toks@.len() && best_from(content@, i as int, views_of(toks@), 0)
                == Some(k as int),
            None => best_from(content@, i as int, views_of(toks@), 0) is None,
        },
{
    let ghost vt = views_of(toks@);
    let mut best: Option<usize> = None;
    let mut j = toks.len();
    while j > 0
        invariant
            j <= toks@.len(),
            vt == views_of(toks@),
            match best {
                Some(k) => k < toks@.len() && best_from(content@, i as int, vt, j as int)
                    == Some(k as int),
                None => best_from(content@, i as int, vt, j as int) is None,
            },
        decreases j,
    {
        j = j - 1;
        proof {
            assert(vt[j as int] == toks@[j as int]@);
        }
        let m = match_token_at(content, i, &toks[j]);
        if m {
            best = match best {
                None => Some(j),
                Some(k) => {
                    proof {
                        assert(vt[k as int] == toks@[k as int]@);
                    }
                    if toks[k].len() > toks[j].len() {
                        Some(k)
                    } else {
                        Some(j)
                    }
                },
            };
        }
    }
    best
}

/// The role spellings, in declaration order.
pub open spec fn role_tokens() -> Seq<Seq<char>> {
    Seq::new(role_list().len(), |k: int| role_token(role_list()[k]))
}

/// The format spellings, in declaration order.
pub open spec fn format_tokens() -> Seq<Seq<char>> {
    Seq::new(format_list().len(), |k: int| format_token(format_list()[k]))
}

/// The case spellings, in declaration order.
pub open spec fn case_tokens() -> Seq<Seq<char>> {
    Seq::new(case_list().len(), |k: int| case_token(case_list()[k]))
}

/// The metadata spellings, in declaration order.
pub open spec fn metadata_tokens() -> Seq<Seq<char>> {
    Seq::new(metadata_list().len(), |k: int| metadata_token(metadata_list()[k]))
}

/// The role, if any, whose spelling is the longest match at position `i`.
pub open spec fn spec_scan_role(s: Seq<char>, i: int) -> Option<Role> {
    match best_from(s, i, role_tokens(), 0) {
        None => None,
        Some(k) => Some(role_list()[k]),
    }
}

/// The format, if any, whose spelling is the longest match at position `i`.
pub open spec fn spec_scan_format(s: Seq<char>, i: int) -> Option<Format> {
    match best_from(s, i, format_tokens(), 0) {
        None => None,
        Some(k) => Some(format_list()[k]),
    }
}

/// The case, if any, whose spelling is the longest match at position `i`.
pub open spec fn spec_scan_case(s: Seq<char>, i: int) -> Option<Case> {
    match best_from(s, i, case_tokens(), 0) {
        None => None,
        Some(k) => Some(case_list()[k]),
    }
}

/// The metadata key, if any, whose spelling is the longest match at `i`.
pub open spec fn spec_scan_meta(s: Seq<char>, i: int) -> Option<Metadata> {
    match best_from(s, i, metadata_tokens(), 0) {
        None => None,
        Some(k) => Some(metadata_list()[k]),
    }
}

fn role_token_table() -> (t: Vec<Vec<char>>)
    ensures
        t@.len() == role_tokens().len(),
        forall|j: int| 0 <= j < t@.len() ==> t@[j]@ == role_tokens()[j],
{
    let mut t: Vec<Vec<char>> = Vec::new();
    t.push(chars_vec("base"));
    t.push(chars_vec("surface"));
    t.push(chars_vec("overlay"));
    t.push(chars_vec("muted"));
    t.push(chars_vec("subtle"));
    t.push(chars_vec("text"));
    t.push(chars_vec("love"));
    t.push(chars_vec("gold"));
    t.push(chars_vec("rose"));
    t.push(chars_vec("pine"));
    t.push(chars_vec("foam"));
    t.push(chars_vec("iris"));
    t.push(chars_vec("highlight_low"));
    t.push(chars_vec("highlight_med"));
    t.push(chars_vec("highlight_high"));
    t
}

fn format_token_table() -> (t: Vec<Vec<char>>)
    ensures
        t@.len() == format_tokens().len(),
        forall|j: int| 0 <= j < t@.len() ==> t@[j]@ == format_tokens()[j],
{
    let mut t: Vec<Vec<char>> = Vec::new();
    t.push(chars_vec("hex"));
    t.push(chars_vec("hex_ns"));
    t.push(chars_vec("ahex"));
    t.push(chars_vec("ahex_ns"));
    t.push(chars_vec("rgb"));
    t.push(chars_vec("rgb_ns"));
    t.push(chars_vec("rgb_function"));
    t.push(chars_vec("rgb_array"));
    t.push(chars_vec("rgb_ansi"));
    t.push(chars_vec("hsl"));
    t.push(chars_vec("hsl_ns"));
    t.push(chars_vec("hsl_function"));
    t.push(chars_vec("hsl_array"));
    t.push(chars_vec("ron"));
    t
}

fn case_token_table() -> (t: Vec<Vec<char>>)
    ensures
        t@.len() == case_tokens().len(),
        forall|j: int| 0 <= j < t@.len() ==> t@[j]@ == case_tokens()[j],
{
    let mut t: Vec<Vec<char>> = Vec::new();
    t.push(chars_vec("snake"));
    t.push(chars_vec("kebab"));
    t.push(chars_vec("camel"));
    t.push(chars_vec("pascal"));
    t.push(chars_vec("title"));
    t.push(chars_vec("train"));
    t.push(chars_vec("lower"));
    t.push(chars_vec("upper"));
    t
}

fn metadata_token_table() -> (t: Vec<Vec<char>>)
    ensures
        t@.len() == metadata_tokens().len(),
        forall|j: int| 0 <= j < t@.len() ==> t@[j]@ == metadata_tokens()[j],
{
    let mut t: Vec<Vec<char>> = Vec::new();
    t.push(chars_vec("id"));
    t.push(chars_vec("name"));
    t.push(chars_vec("description"));
    t.push(chars_vec("key"));
    t.push(chars_vec("kind"));
    t
}

fn role_from_index(k: usize) -> (r: Role)
    requires
        k < role_list().len(),
    ensures
        r == role_list()[k as int],
{
    match k {
        0 => Role::Base,
        1 => Role::Surface,
        2 => Role::Overlay,
        3 => Role::Muted,
        4 => Role::Subtle,
        5 => Role::Text,
        6 => Role::Love,
        7 => Role::Gold,
        8 => Role::Rose,
        9 => Role::Pine,
        10 => Role::Foam,
        11 => Role::Iris,
        12 => Role::HighlightLow,
        13 => Role::HighlightMed,
        _ => Role::HighlightHigh,
    }
}

fn format_from_index(k: usize) -> (r: Format)
    requires
        k < format_list().len(),
    ensures
        r == format_list()[k as int],
{
    match k {
        0 => Format::Hex,
        1 => Format::HexNs,
        2 => Format::Ahex,
        3 => Format::AhexNs,
        4 => Format::Rgb,
        5 => Format::RgbNs,
        6 => Format::RgbFunction,
        7 => Format::RgbArray,
        8 => Format::RgbAnsi,
        9 => Format::Hsl,
        10 => Format::HslNs,
        11 => Format::HslFunction,
        12 => Format::HslArray,
        _ => Format::Ron,
    }
}

fn case_from_index(k: usize) -> (r: Case)
    requires
        k < case_list().len(),
    ensures
        r == case_list()[k as int],
{
    match k {
        0 => Case::Snake,
        1 => Case::Kebab,
        2 => Case::Camel,
        3 => Case::Pascal,
        4 => Case::Title,
        5 => Case::Train,
        6 => Case::Lower,
        _ => Case::Upper,
    }
}

fn metadata_from_index(k: usize) -> (r: Metadata)
    requires
        k < metadata_list().len(),
    ensures
        r == metadata_list()[k as int],
{
    match k {
        0 => Metadata::Id,
        1 => Metadata::Name,
        2 => Metadata::Description,
        3 => Metadata::Key,
        _ => Metadata::Kind,
    }
}

fn scan_role(content: &Vec<char>, i: usize) -> (r: Option<(Role, usize)>)
    ensures
        match r {
            Some(p) => spec_scan_role(content@, i as int) == Some(p.0) && p.1 == role_token(
                p.0,
            ).len() && matches_at(content@, role_token(p.0), i as int),
            None => spec_scan_role(content@, i as int) is None,
        },
{
    let table = role_token_table();
    proof {
        assert(views_of(table@) =~= role_tokens());
        lemma_best_from_matches(content@, i as int, role_tokens(), 0);
    }
    match best_match_exec(content, i, &table) {
        None => None,
        Some(k) => {
            let role = role_from_index(k);
            Some((role, table[k].len()))
        },
    }
}

fn scan_format(content: &Vec<char>, i: usize) -> (r: Option<(Format, usize)>)
    ensures
        match r {
            Some(p) => spec_scan_format(content@, i as int) == Some(p.0) && p.1 == format_token(
                p.0,
            ).len() && matches_at(content@, format_token(p.0), i as int),
            None => spec_scan_format(content@, i as int) is None,
        },
{
    let table = format_token_table();
    proof {
        assert(views_of(table@) =~= format_tokens());
        lemma_best_from_matches(content@, i as int, format_tokens(), 0);
    }
    match best_match_exec(content, i, &table) {
        None => None,
        Some(k) => {
            let f = format_from_index(k);
            Some((f, table[k].len()))
        },
    }
}

fn scan_case(content: &Vec<char>, i: usize) -> (r: Option<(Case, usize)>)
    ensures
        match r {
            Some(p) => spec_scan_case(content@, i as int) == Some(p.0) && p.1 == case_token(
                p.0,
            ).len() && matches_at(content@, case_token(p.0), i as int),
            None => spec_scan_case(content@, i as int) is None,
        },
{
    let table = case_token_table();
    proof {
        assert(views_of(table@) =~= case_tokens());
        lemma_best_from_matches(content@, i as int, case_tokens(), 0);
    }
    match best_match_exec(content, i, &table) {
        None => None,
        Some(k) => {
            let c = case_from_index(k);
            Some((c, table[k].len()))
        },
    }
}

fn scan_meta(content: &Vec<char>, i: usize) -> (r: Option<(Metadata, usize)>)
    ensures
        match r {
            Some(p) => spec_scan_meta(content@, i as int) == Some(p.0) && p.1 == metadata_token(
                p.0,
            ).len() && matches_at(content@, metadata_token(p.0), i as int),
            None => spec_scan_meta(content@, i as int) is None,
        },
{
    let table = metadata_token_table();
    proof {
        assert(views_of(table@) =~= metadata_tokens());
        lemma_best_from_matches(content@, i as int, metadata_tokens(), 0);
    }
    match best_match_exec(content, i, &table) {
        None => None,
        Some(k) => {
            let m = metadata_from_index(k);
            Some((m, table[k].len()))
        },
    }
}

/// The cursor after skipping the run of spaces that follows position `i`:
/// the last position whose successors up to it hold only spaces.
pub open spec fn spec_skip_ws(s: Seq<char>, i: int) -> int
    decreases s.len() - i,
{
    if i + 1 < s.len() && s[i + 1] == ' ' {
        spec_skip_ws(s, i + 1)
    } else {
        i
    }
}

pub proof fn lemma_skip_ws_bounds(s: Seq<char>, i: int)
    ensures
        i <= spec_skip_ws(s, i),
        i < s.len() ==> spec_skip_ws(s, i) < s.len(),
    decreases s.len() - i,
{
    if i + 1 < s.len() && s[i + 1] == ' ' {
        lemma_skip_ws_bounds(s, i + 1);
    }
}

fn skip_ws_at(content: &Vec<char>, i: usize) -> (j: usize)
    requires
        i < content@.len(),
    ensures
        j as int == spec_skip_ws(content@, i as int),
        i <= j,
        j < content@.len(),
{
    proof {
        lemma_skip_ws_bounds(content@, i as int);
    }
    let n = content.len();
    let mut j = i;
    while j + 1 < n && content[j + 1] == ' '
        invariant
            n == content@.len(),
            i <= j,
            spec_skip_ws(content@, i as int) == spec_skip_ws(content@, j as int),
            j < n,
        decreases content@.len() - j,
    {
        j = j + 1;
    }
    j
}

/// Whether a character is an ASCII digit.
pub open spec fn is_digit(c: char) -> bool {
    48 <= c as int && c as int <= 57
}

/// The numeric value of an ASCII digit character.
pub open spec fn digit_val(c: char) -> int {
    c as int - 48
}

fn is_digit_exec(c: char) -> (r: bool)
    ensures
        r == is_digit(c),
{
    let u = c as u32;
    48 <= u && u <= 57
}

fn digit_val_exec(c: char) -> (r: u16)
    requires
        is_digit(c),
    ensures
        r as int == digit_val(c),
{
    (c as u32 - 48) as u16
}

/// How many digits (at most three) the opacity scanner consumes after
/// the slash at position `islash`.
pub open spec fn spec_opacity_digits(s: Seq<char>, islash: int) -> int {
    if islash + 1 < s.len() && is_digit(s[islash + 1]) {
        if islash + 2 < s.len() && is_digit(s[islash + 2]) {
            if islash + 3 < s.len() && is_digit(s[islash + 3]) {
                3
            } else {
                2
            }
        } else {
            1
        }
    } else {
        0
    }
}

/// The value of the `n` digits after the slash at position `islash`.
pub open spec fn spec_opacity_value(s: Seq<char>, islash: int, n: int) -> int {
    if n == 1 {
        digit_val(s[islash + 1])
    } else if n == 2 {
        10 * digit_val(s[islash + 1]) + digit_val(s[islash + 2])
    } else {
        100 * digit_val(s[islash + 1]) + 10 * digit_val(s[islash + 2]) + digit_val(s[islash + 3])
    }
}

/// Closes a role group: the cursor must sit right before the closing
/// delimiter (after trailing spaces were skipped).
pub open spec fn spec_close_group(s: Seq<char>, w: int, po: ParseOptions, roles: Seq<Role>) -> (
    Result<Seq<Role>, ParseError>,
    int,
) {
    if w + 1 < s.len() && s[w + 1] == spec_close(po.delimiter) {
        (Ok(roles), w + 1)
    } else {
        (Err(ParseError::CloseDelimExpected), w)
    }
}

/// Parses the role reference of a placeholder whose prefix sits at
/// `start`: either a delimited group of one to three roles, or a single
/// bare role.
pub open spec fn spec_parse_roles(s: Seq<char>, start: int, po: ParseOptions) -> (
    Result<Seq<Role>, ParseError>,
    int,
) {
    if start + 1 < s.len() && s[start + 1] == spec_open(po.delimiter) {
        let d = start + 1;
        let w0 = spec_skip_ws(s, d);
        match spec_scan_role(s, w0 + 1) {
            None => (Err(ParseError::VariantNotFound), w0),
            Some(r1) => {
                let p1 = w0 + role_token(r1).len();
                let w1 = spec_skip_ws(s, p1);
                if w1 + 1 < s.len() && s[w1 + 1] == po.seperator {
                    let w2 = spec_skip_ws(s, w1 + 1);
                    match spec_scan_role(s, w2 + 1) {
                        None => (Err(ParseError::VariantNotFound), w2),
                        Some(r2) => {
                            let p2 = w2 + role_token(r2).len();
                            let w3 = spec_skip_ws(s, p2);
                            if w3 + 1 < s.len() && s[w3 + 1] == po.seperator {
                                let w4 = spec_skip_ws(s, w3 + 1);
                                match spec_scan_role(s, w4 + 1) {
                                    None => (Err(ParseError::VariantNotFound), w4),
                                    Some(r3) => {
                                        let p3 = w4 + role_token(r3).len();
                                        let w5 = spec_skip_ws(s, p3);
                                        spec_close_group(s, w5, po, seq![r1, r2, r3])
                                    },
                                }
                            } else {
                                let w5 = spec_skip_ws(s, w3);
                                spec_close_group(s, w5, po, seq![r1, r2])
                            }
                        },
                    }
                } else {
                    spec_close_group(s, w1, po, seq![r1])
                }
            },
        }
    } else {
        match spec_scan_role(s, start + 1) {
            None => (Err(ParseError::VariantNotFound), start),
            Some(r1) => (Ok(seq![r1]), start + role_token(r1).len()),
        }
    }
}

/// Parses the optional `/NNN` opacity suffix, the cursor sitting on the
/// last consumed character at `p`, and assembles the role capture.
pub open spec fn spec_parse_opacity(
    s: Seq<char>,
    start: int,
    p: int,
    roles: Seq<Role>,
    format: Option<Format>,
) -> (Result<CaptureModel, ParseError>, int) {
    if p + 1 < s.len() && s[p + 1] == '/' {
        let islash = p + 1;
        let n = spec_opacity_digits(s, islash);
        if n == 0 {
            (Err(ParseError::InvalidOpacity), islash)
        } else {
            let q = islash + n;
            (
                Ok(
                    CaptureModel {
                        template: TemplateModel::Roles {
                            roles,
                            format,
                            opacity: Some(spec_opacity_value(s, islash, n) as u16),
                        },
                        start,
                        end: q + 1,
                    },
                ),
                q,
            )
        }
    } else {
        (
            Ok(
                CaptureModel {
                    template: TemplateModel::Roles { roles, format, opacity: None },
                    start,
                    end: p + 1,
                },
            ),
            p,
        )
    }
}

/// One placeholder, parsed from the prefix at `start`: the grammar of
/// the mini-language. Returns the parse result and the cursor position
/// (the last consumed character on success) at which scanning resumes.
pub open spec fn spec_parse_capture(s: Seq<char>, start: int, po: ParseOptions) -> (
    Result<CaptureModel, ParseError>,
    int,
) {
    if !(0 <= start && start < s.len() && s[start] == po.prefix) {
        (Err(ParseError::PrefixExpected), start)
    } else {
        match spec_scan_meta(s, start + 1) {
            Some(key) => {
                let p = start + metadata_token(key).len();
                if p + 1 < s.len() && s[p + 1] == ':' && spec_scan_case(s, p + 2) is Some {
                    let case = spec_scan_case(s, p + 2)->0;
                    let q = p + 1 + case_token(case).len();
                    (
                        Ok(
                            CaptureModel {
                                template: TemplateModel::Meta { key, case: Some(case) },
                                start,
                                end: q + 1,
                            },
                        ),
                        q,
                    )
                } else {
                    (
                        Ok(
                            CaptureModel {
                                template: TemplateModel::Meta { key, case: None },
                                start,
                                end: p + 1,
                            },
                        ),
                        p,
                    )
                }
            },
            None => {
                let rr = spec_parse_roles(s, start, po);
                match rr.0 {
                    Err(e) => (Err(e), rr.1),
                    Ok(roles) => {
                        let p = rr.1;
                        if p + 1 < s.len() && s[p + 1] == ':' {
                            match spec_scan_format(s, p + 2) {
                                None => (Err(ParseError::VariantNotFound), p + 1),
                                Some(f) => spec_parse_opacity(
                                    s,
                                    start,
                                    p + 1 + format_token(f).len(),
                                    roles,
                                    Some(f),
                                ),
                            }
                        } else {
                            spec_parse_opacity(s, start, p, roles, None)
                        }
                    },
                }
            },
        }
    }
}

/// Parses the role reference; mirrors `spec_parse_roles`.
#[verifier::rlimit(100)]
fn parse_roles_at(content: &Vec<char>, start: usize, po: ParseOptions) -> (r: (
    Result<RoleCaptures, ParseError>,
    usize,
))
    requires
        start < content@.len(),
    ensures
        ({
            let (sr, sj) = spec_parse_roles(content@, start as int, po);
            &&& r.1 as int == sj
            &&& start <= r.1
            &&& r.1 < content@.len()
            &&& match (r.0, sr) {
                (Ok(rc), Ok(roles)) => rc.0@ == roles,
                (Err(e1), Err(e2)) => e1 == e2,
                _ => false,
            }
        }),
{
    let n = content.len();
    let mut rc = RoleCaptures::new();
    if start + 1 < n && content[start + 1] == po.delimiter.open() {
        let d = start + 1;
        let w0 = skip_ws_at(content, d);
        match scan_role(content, w0 + 1) {
            None => (Err(ParseError::VariantNotFound), w0),
            Some((r1, l1)) => {
                rc.push(r1);
                let p1 = w0 + l1;
                let w1 = skip_ws_at(content, p1);
                if w1 + 1 < n && content[w1 + 1] == po.seperator {
                    let w2 = skip_ws_at(content, w1 + 1);
                    match scan_role(content, w2 + 1) {
                        None => (Err(ParseError::VariantNotFound), w2),
                        Some((r2, l2)) => {
                            rc.push(r2);
                            let p2 = w2 + l2;
                            let w3 = skip_ws_at(content, p2);
                            if w3 + 1 < n && content[w3 + 1] == po.seperator {
                                let w4 = skip_ws_at(content, w3 + 1);
                                match scan_role(content, w4 + 1) {
                                    None => (Err(ParseError::VariantNotFound), w4),
                                    Some((r3, l3)) => {
                                        rc.push(r3);
                                        let p3 = w4 + l3;
                                        let w5 = skip_ws_at(content, p3);
                                        if w5 + 1 < n && content[w5 + 1]
                                            == po.delimiter.close() {
                                            (Ok(rc), w5 + 1)
                                        } else {
                                            (Err(ParseError::CloseDelimExpected), w5)
                                        }
                                    },
                                }
                            } else {
                                let w5 = skip_ws_at(content, w3);
                                if w5 + 1 < n && content[w5 + 1]
                                    == po.delimiter.close() {
                                    (Ok(rc), w5 + 1)
                                } else {
                                    (Err(ParseError::CloseDelimExpected), w5)
                                }
                            }
                        },
                    }
                } else {
                    if w1 + 1 < n && content[w1 + 1] == po.delimiter.close() {
                        (Ok(rc), w1 + 1)
                    } else {
                        (Err(ParseError::CloseDelimExpected), w1)
                    }
                }
            },
        }
    } else {
        match scan_role(content, start + 1) {
            None => (Err(ParseError::VariantNotFound), start),
            Some((r1, l1)) => {
                rc.push(r1);
                (Ok(rc), start + l1)
            },
        }
    }
}

/// Parses one placeholder whose prefix sits at `start`; mirrors
/// `spec_parse_capture`.
fn parse_capture_at(content: &Vec<char>, start: usize, po: ParseOptions) -> (r: (
    Result<Capture, ParseError>,
    usize,
))
    ensures
        ({
            let (sr, sj) = spec_parse_capture(content@, start as int, po);
            &&& r.1 as int == sj
            &&& start <= r.1
            &&& (r.1 < content@.len() || r.1 == start)
            &&& match (r.0, sr) {
                (Ok(c), Ok(m)) => c.model() == m,
                (Err(e1), Err(e2)) => e1 == e2,
                _ => false,
            }
        }),
{
    let n = content.len();
    if !(start < n && content[start] == po.prefix) {
        return (Err(ParseError::PrefixExpected), start);
    }
    // A metadata reference is tried first.
    if let Some((key, klen)) = scan_meta(content, start + 1) {
        let p = start + klen;
        if p + 1 < n && content[p + 1] == ':' {
            if let Some((case, clen)) = scan_case(content, p + 2) {
                let q = p + 1 + clen;
                return (
                    Ok(Capture { template: Template::Metadata(key, Some(case)), start, end: q + 1 }),
                    q,
                );
            }
        }
        return (Ok(Capture { template: Template::Metadata(key, None), start, end: p + 1 }), p);
    }
    // Otherwise a role reference, grouped or bare.
    let (roles, p_roles) = match parse_roles_at(content, start, po) {
        (Err(e), j) => {
            return (Err(e), j);
        },
        (Ok(rc), j) => (rc, j),
    };
    // An optional format override; the colon commits to one.
    let mut format: Option<Format> = None;
    let mut p = p_roles;
    if p + 1 < n && content[p + 1] == ':' {
        match scan_format(content, p + 2) {
            None => {
                return (Err(ParseError::VariantNotFound), p + 1);
            },
            Some((f, flen)) => {
                format = Some(f);
                p = p + 1 + flen;
            },
        }
    }
    // An optional opacity: a slash followed by up to three digits.
    let mut opacity: Option<u16> = None;
    if p + 1 < n && content[p + 1] == '/' {
        let islash = p + 1;
        let mut nd: usize = 0;
        if islash + 1 < n && is_digit_exec(content[islash + 1]) {
            nd = 1;
            if islash + 2 < n && is_digit_exec(content[islash + 2]) {
                nd = 2;
                if islash + 3 < n && is_digit_exec(content[islash + 3]) {
                    nd = 3;
                }
            }
        }
        if nd == 0 {
            return (Err(ParseError::InvalidOpacity), islash);
        }
        let mut v: u16 = digit_val_exec(content[islash + 1]);
        if nd >= 2 {
            v = 10 * v + digit_val_exec(content[islash + 2]);
        }
        if nd == 3 {
            v = 10 * v + digit_val_exec(content[islash + 3]);
        }
        proof {
            assert(v as int == spec_opacity_value(content@, islash as int, nd as int));
        }
        opacity = Some(v);
        p = islash + nd;
    }
    (Ok(Capture { template: Template::Role(roles, format, opacity), start, end: p + 1 }), p)
}

/// A cursor over the template text. The cursor convention: it sits on
/// the last consumed character; scans look at the positions after it,
/// and it never moves past the final character.
pub struct Lexer {
    pub index: usize,
    pub content: Vec<char>,
    pub config: ParseOptions,
}

impl Lexer {
    pub fn new(content: &str, config: &Config) -> (l: Lexer)
        ensures
            l.index == 0,
            l.content@ == content@,
            l.config == config.parse,
    {
        Lexer { index: 0, content: chars_vec(content), config: config.parse }
    }

    /// The character under the cursor, or none past the end.
    pub fn current(&self) -> (r: Option<char>)
        ensures
            r == if self.index < self.content@.len() {
                Some(self.content@[self.index as int])
            } else {
                None::<char>
            },
    {
        if self.index < self.content.len() {
            Some(self.content[self.index])
        } else {
            None
        }
    }

    /// Moves the cursor one position forward, stopping one before the
    /// true end: the final character is only ever inspected by
    /// lookahead, never consumed.
    pub fn advance(&mut self) -> (r: Option<usize>)
        ensures
            if old(self).index + 1 < old(self).content@.len() {
                final(self).index == old(self).index + 1 && r == Some(final(self).index)
            } else {
                final(self).index == old(self).index && r is None
            },
            final(self).content == old(self).content,
            final(self).config == old(self).config,
    {
        let n = self.content.len();
        if n > 0 && self.index < n - 1 {
            self.index = self.index + 1;
            Some(self.index)
        } else {
            None
        }
    }

    /// Moves the cursor forward by `n` positions.
    pub fn advance_n(&mut self, n: usize)
        requires
            old(self).index + n <= usize::MAX,
        ensures
            final(self).index == old(self).index + n,
            final(self).content == old(self).content,
            final(self).config == old(self).config,
    {
        self.index = self.index + n;
    }

    /// The character one past the cursor.
    pub fn lookahead(&self) -> (r: Option<char>)
        requires
            self.index < usize::MAX,
        ensures
            r == if self.index + 1 < self.content@.len() {
                Some(self.content@[self.index + 1])
            } else {
                None::<char>
            },
    {
        if self.index + 1 < self.content.len() {
            Some(self.content[self.index + 1])
        } else {
            None
        }
    }

    /// The character `n` positions past the cursor.
    pub fn lookahead_n(&self, n: usize) -> (r: Option<char>)
        requires
            self.index + n <= usize::MAX,
        ensures
            r == if self.index + n < self.content@.len() {
                Some(self.content@[self.index + n])
            } else {
                None::<char>
            },
    {
        if n < self.content.len() && self.index < self.content.len() - n {
            Some(self.content[self.index + n])
        } else {
            None
        }
    }

    /// Whether `pattern` occurs literally right after the cursor.
    pub fn scan_ahead(&self, pattern: &str) -> (r: bool)
        requires
            self.index < usize::MAX,
        ensures
            r == matches_at(self.content@, pattern@, self.index + 1),
    {
        let pat = chars_vec(pattern);
        match_token_at(&self.content, self.index + 1, &pat)
    }

    /// Advances the cursor over the run of spaces that follows it
    /// (spaces only, not tabs or newlines).
    pub fn skip_whitespace(&mut self)
        requires
            old(self).index < old(self).content@.len(),
        ensures
            final(self).index as int == spec_skip_ws(old(self).content@, old(self).index as int),
            final(self).content == old(self).content,
            final(self).config == old(self).config,
    {
        self.index = skip_ws_at(&self.content, self.index);
    }
}

/// Parses one placeholder at the lexer's cursor, which is expected to
/// sit on the prefix character; the cursor is left where the grammar
/// says scanning resumes.
pub fn parse_capture(lexer: &mut Lexer) -> (r: Result<Capture, ParseError>)
    ensures
        ({
            let (sr, sj) = spec_parse_capture(
                old(lexer).content@,
                old(lexer).index as int,
                old(lexer).config,
            );
            &&& final(lexer).index as int == sj
            &&& old(lexer).index <= final(lexer).index
            &&& (final(lexer).index < final(lexer).content@.len() || final(lexer).index == old(
                lexer,
            ).index)
            &&& final(lexer).content == old(lexer).content
            &&& final(lexer).config == old(lexer).config
            &&& match (r, sr) {
                (Ok(c), Ok(m)) => c.model() == m,
                (Err(e1), Err(e2)) => e1 == e2,
                _ => false,
            }
        }),
{
    let (r, j) = parse_capture_at(&lexer.content, lexer.index, lexer.config);
    lexer.index = j;
    r
}

/// The whole-document scan: from position `i` on, every position that
/// holds the prefix character yields one parse result, and scanning
/// resumes after what the placeholder consumed. The final character is
/// never examined as a prefix.
pub open spec fn spec_scan_all(s: Seq<char>, i: int, po: ParseOptions) -> Seq<
    Result<CaptureModel, ParseError>,
>
    decreases s.len() - i,
{
    if i < 0 || i + 1 >= s.len() {
        Seq::empty()
    } else if s[i] == po.prefix {
        let r = spec_parse_capture(s, i, po);
        let next = if r.1 >= i {
            r.1 + 1
        } else {
            i + 1
        };
        let next2 = if next > s.len() {
            s.len() as int
        } else {
            next
        };
        seq![r.0] + spec_scan_all(s, next2, po)
    } else {
        spec_scan_all(s, i + 1, po)
    }
}

/// The parse of a whole document: every placeholder or error, in
/// left-to-right order.
pub open spec fn spec_parse_template(s: Seq<char>, po: ParseOptions) -> Seq<
    Result<CaptureModel, ParseError>,
> {
    spec_scan_all(s, 0, po)
}

/// The models of a list of parse results.
pub open spec fn models_of(v: Seq<Result<Capture, ParseError>>) -> Seq<
    Result<CaptureModel, ParseError>,
> {
    Seq::new(
        v.len(),
        |i: int|
            match v[i] {
                Ok(c) => Ok(c.model()),
                Err(e) => Err(e),
            },
    )
}

/// Scans the whole document and collects every parse result, in order.
pub fn parse_template(content: &str, config: &Config) -> (res: Vec<Result<Capture, ParseError>>)
    ensures
        models_of(res@) == spec_parse_template(content@, config.parse),
{
    let mut lexer = Lexer::new(content, config);
    let ghost s = lexer.content@;
    let ghost po = lexer.config;
    let mut captures: Vec<Result<Capture, ParseError>> = Vec::new();
    proof {
        assert(models_of(captures@) =~= Seq::<Result<CaptureModel, ParseError>>::empty());
    }
    let n = lexer.content.len();
    while lexer.index + 1 < n
        invariant
            n == s.len(),
            lexer.content@ == s,
            lexer.config == po,
            po == config.parse,
            n == 0 ==> lexer.index == 0,
            n > 0 ==> lexer.index < n,
            spec_parse_template(s, po) == models_of(captures@) + spec_scan_all(
                s,
                lexer.index as int,
                po,
            ),
        decreases s.len() - lexer.index,
    {
        let ghost i = lexer.index as int;
        let ghost caps_pre = captures@;
        let cur = lexer.current();
        let is_prefix = match cur {
            Some(c) => c == config.parse.prefix,
            None => false,
        };
        if is_prefix {
            let r = parse_capture(&mut lexer);
            captures.push(r);
            lexer.advance();
            proof {
                let (sr, sj) = spec_parse_capture(s, i, po);
                let next2 = if sj + 1 > s.len() {
                    s.len() as int
                } else {
                    sj + 1
                };
                assert(spec_scan_all(s, i, po) == seq![sr] + spec_scan_all(s, next2, po));
                assert(models_of(captures@) =~= models_of(caps_pre) + seq![sr]);
                assert(models_of(caps_pre) + (seq![sr] + spec_scan_all(s, next2, po)) =~= (
                models_of(caps_pre) + seq![sr]) + spec_scan_all(s, next2, po));
                if sj + 1 >= s.len() {
                    assert(spec_scan_all(s, next2, po) == Seq::<
                        Result<CaptureModel, ParseError>,
                    >::empty());
                    assert(spec_scan_all(s, lexer.index as int, po) == Seq::<
                        Result<CaptureModel, ParseError>,
                    >::empty());
                }
            }
        } else {
            lexer.advance();
            proof {
                assert(spec_scan_all(s, i, po) == spec_scan_all(s, i + 1, po));
            }
        }
    }
    captures
}

/// The start offset of a successful capture (zero for an error).
pub open spec fn ok_start(r: Result<CaptureModel, ParseError>) -> int {
    match r {
        Ok(m) => m.start,
        Err(_) => 0,
    }
}

/// The end offset of a successful capture (zero for an error).
pub open spec fn ok_end(r: Result<CaptureModel, ParseError>) -> int {
    match r {
        Ok(m) => m.end,
        Err(_) => 0,
    }
}

/// Bounds of one role-reference parse: the cursor never moves left and
/// stays on the text, and a successful group holds one to three roles.
pub proof fn lemma_parse_roles_bounds(s: Seq<char>, i: int, po: ParseOptions)
    requires
        0 <= i < s.len(),
    ensures
        ({
            let (r, j) = spec_parse_roles(s, i, po);
            &&& i <= j
            &&& j < s.len()
            &&& match r {
                Ok(roles) => 1 <= roles.len() <= 3,
                Err(_) => true,
            }
        }),
{
    if i + 1 < s.len() && s[i + 1] == spec_open(po.delimiter) {
        let d = i + 1;
        let w0 = spec_skip_ws(s, d);
        lemma_skip_ws_bounds(s, d);
        if spec_scan_role(s, w0 + 1) is Some {
            let r1 = spec_scan_role(s, w0 + 1)->0;
            lemma_best_from_matches(s, w0 + 1, role_tokens(), 0);
            let p1 = w0 + role_token(r1).len();
            let w1 = spec_skip_ws(s, p1);
            lemma_skip_ws_bounds(s, p1);
            if w1 + 1 < s.len() && s[w1 + 1] == po.seperator {
                let w2 = spec_skip_ws(s, w1 + 1);
                lemma_skip_ws_bounds(s, w1 + 1);
                if spec_scan_role(s, w2 + 1) is Some {
                    let r2 = spec_scan_role(s, w2 + 1)->0;
                    lemma_best_from_matches(s, w2 + 1, role_tokens(), 0);
                    let p2 = w2 + role_token(r2).len();
                    let w3 = spec_skip_ws(s, p2);
                    lemma_skip_ws_bounds(s, p2);
                    if w3 + 1 < s.len() && s[w3 + 1] == po.seperator {
                        let w4 = spec_skip_ws(s, w3 + 1);
                        lemma_skip_ws_bounds(s, w3 + 1);
                        if spec_scan_role(s, w4 + 1) is Some {
                            let r3 = spec_scan_role(s, w4 + 1)->0;
                            lemma_best_from_matches(s, w4 + 1, role_tokens(), 0);
                            let p3 = w4 + role_token(r3).len();
                            let w5 = spec_skip_ws(s, p3);
                            lemma_skip_ws_bounds(s, p3);
                        }
                    } else {
                        let w5 = spec_skip_ws(s, w3);
                        lemma_skip_ws_bounds(s, w3);
                    }
                }
            }
        }
    } else {
        if spec_scan_role(s, i + 1) is Some {
            lemma_best_from_matches(s, i + 1, role_tokens(), 0);
        }
    }
}

/// Bounds of one placeholder parse: the cursor never moves left and
/// stays on the text; a successful capture starts at the prefix, ends
/// one past the cursor, and spans at least one character.
pub proof fn lemma_parse_capture_bounds(s: Seq<char>, i: int, po: ParseOptions)
    ensures
        ({
            let (r, j) = spec_parse_capture(s, i, po);
            &&& i <= j
            &&& (j < s.len() || j == i)
            &&& match r {
                Ok(m) => m.start == i && m.end == j + 1 && i < m.end && m.end <= s.len(),
                Err(_) => true,
            }
        }),
{
    if 0 <= i && i < s.len() && s[i] == po.prefix {
        match spec_scan_meta(s, i + 1) {
            Some(key) => {
                lemma_best_from_matches(s, i + 1, metadata_tokens(), 0);
                let p = i + metadata_token(key).len();
                if p + 1 < s.len() && s[p + 1] == ':' && spec_scan_case(s, p + 2) is Some {
                    let case = spec_scan_case(s, p + 2)->0;
                    lemma_best_from_matches(s, p + 2, case_tokens(), 0);
                }
            },
            None => {
                lemma_parse_roles_bounds(s, i, po);
                let rr = spec_parse_roles(s, i, po);
                match rr.0 {
                    Err(_) => {},
                    Ok(roles) => {
                        let p = rr.1;
                        if p + 1 < s.len() && s[p + 1] == ':' {
                            match spec_scan_format(s, p + 2) {
                                None => {},
                                Some(f) => {
                                    lemma_best_from_matches(s, p + 2, format_tokens(), 0);
                                },
                            }
                        }
                    },
                }
            },
        }
    }
}

/// Every capture of the document scan lies within the text, after the
/// position the scan started from, and successful captures do not
/// overlap: each ends at or before the next one starts. This is what
/// lets the generator replace them back to front without recomputing
/// offsets.
pub proof fn lemma_scan_all_ordered(s: Seq<char>, i: int, po: ParseOptions)
    ensures
        forall|k: int|
            0 <= k < spec_scan_all(s, i, po).len() && #[trigger] spec_scan_all(s, i, po)[k]
                is Ok ==> i <= ok_start(spec_scan_all(s, i, po)[k]) && ok_start(
                spec_scan_all(s, i, po)[k],
            ) < ok_end(spec_scan_all(s, i, po)[k]) && ok_end(spec_scan_all(s, i, po)[k]) <= s.len(),
        forall|k1: int, k2: int|
            0 <= k1 < k2 < spec_scan_all(s, i, po).len() && #[trigger] spec_scan_all(s, i, po)[k1]
                is Ok && #[trigger] spec_scan_all(s, i, po)[k2] is Ok ==> ok_end(
                spec_scan_all(s, i, po)[k1],
            ) <= ok_start(spec_scan_all(s, i, po)[k2]),
    decreases s.len() - i,
{
    let caps = spec_scan_all(s, i, po);
    if i < 0 || i + 1 >= s.len() {
    } else if s[i] == po.prefix {
        let r = spec_parse_capture(s, i, po);
        lemma_parse_capture_bounds(s, i, po);
        let next = if r.1 >= i {
            r.1 + 1
        } else {
            i + 1
        };
        let next2 = if next > s.len() {
            s.len() as int
        } else {
            next
        };
        lemma_scan_all_ordered(s, next2, po);
        let tail = spec_scan_all(s, next2, po);
        assert(caps == seq![r.0] + tail);
        assert forall|k: int| 1 <= k < caps.len() implies caps[k] == tail[k - 1] by {}
        assert(r.0 is Ok ==> ok_end(r.0) <= next2);
    } else {
        lemma_scan_all_ordered(s, i + 1, po);
        let tail = spec_scan_all(s, i + 1, po);
        assert(caps == tail);
    }
}

/// When the text before position `i` holds no prefix character, the
/// scan finds nothing before `i`.
pub proof fn lemma_scan_all_no_prefix(s: Seq<char>, i: int, po: ParseOptions)
    requires
        forall|k: int| 0 <= k < s.len() ==> s[k] != po.prefix,
    ensures
        spec_scan_all(s, i, po) == Seq::<Result<CaptureModel, ParseError>>::empty(),
    decreases s.len() - i,
{
    if i < 0 || i + 1 >= s.len() {
    } else {
        lemma_scan_all_no_prefix(s, i + 1, po);
    }
}

} // verus!
