//! Naming-convention conversion for metadata values, on top of the
//! `heck` case conversion crate and std's Unicode case mapping.
//!
//! What each conversion returns is a pure function of the input
//! characters; the library gives each one a name (`snake_of`, ...) and
//! states every contract over those names.

use heck::{ToKebabCase, ToLowerCamelCase, ToPascalCase, ToSnakeCase, ToTitleCase, ToTrainCase};
use vstd::prelude::*;

verus! {

/// A naming convention a metadata value can be converted to.
#[derive(Clone, Copy, Debug, PartialEq, Eq, Structural)]
pub enum Case {
    Snake,
    Kebab,
    Camel,
    Pascal,
    Title,
    Train,
    Lower,
    Upper,
}

impl Default for Case {
    fn default() -> (c: Case)
        ensures
            c == Case::Snake,
    {
        Case::Snake
    }
}

/// All cases, in declaration order.
pub open spec fn case_list() -> Seq<Case> {
    seq![
        Case::Snake,
        Case::Kebab,
        Case::Camel,
        Case::Pascal,
        Case::Title,
        Case::Train,
        Case::Lower,
        Case::Upper,
    ]
}

/// The snake case spelling under which a case name is matched.
pub open spec fn case_token(c: Case) -> Seq<char> {
    match c {
        Case::Snake => "snake"@,
        Case::Kebab => "kebab"@,
        Case::Camel => "camel"@,
        Case::Pascal => "pascal"@,
        Case::Title => "title"@,
        Case::Train => "train"@,
        Case::Lower => "lower"@,
        Case::Upper => "upper"@,
    }
}

pub uninterp spec fn snake_of(s: Seq<char>) -> Seq<char>;

pub uninterp spec fn kebab_of(s: Seq<char>) -> Seq<char>;

pub uninterp spec fn camel_of(s: Seq<char>) -> Seq<char>;

pub uninterp spec fn pascal_of(s: Seq<char>) -> Seq<char>;

pub uninterp spec fn title_of(s: Seq<char>) -> Seq<char>;

pub uninterp spec fn train_of(s: Seq<char>) -> Seq<char>;

pub uninterp spec fn lower_of(s: Seq<char>) -> Seq<char>;

pub uninterp spec fn upper_of(s: Seq<char>) -> Seq<char>;

/// Relies on heck's `ToSnakeCase::to_snake_case` for `str`: the result
/// depends on the input characters alone.
#[verifier::external_body]
fn apply_snake(s: &str) -> (r: String)
    ensures
        r@ == snake_of(s@),
{
    s.to_snake_case()
}

/// Relies on heck's `ToKebabCase::to_kebab_case` for `str`: the result
/// depends on the input characters alone.
#[verifier::external_body]
fn apply_kebab(s: &str) -> (r: String)
    ensures
        r@ == kebab_of(s@),
{
    s.to_kebab_case()
}

/// Relies on heck's `ToLowerCamelCase::to_lower_camel_case` for `str`:
/// the result depends on the input characters alone.
#[verifier::external_body]
fn apply_camel(s: &str) -> (r: String)
    ensures
        r@ == camel_of(s@),
{
    s.to_lower_camel_case()
}

/// Relies on heck's `ToPascalCase::to_pascal_case` for `str`: the result
/// depends on the input characters alone.
#[verifier::external_body]
fn apply_pascal(s: &str) -> (r: String)
    ensures
        r@ == pascal_of(s@),
{
    s.to_pascal_case()
}

/// Relies on heck's `ToTitleCase::to_title_case` for `str`: the result
/// depends on the input characters alone.
#[verifier::external_body]
fn apply_title(s: &str) -> (r: String)
    ensures
        r@ == title_of(s@),
{
    s.to_title_case()
}

/// Relies on heck's `ToTrainCase::to_train_case` for `str`: the result
/// depends on the input characters alone.
#[verifier::external_body]
fn apply_train(s: &str) -> (r: String)
    ensures
        r@ == train_of(s@),
{
    s.to_train_case()
}

/// Relies on `str::to_lowercase`: the result depends on the input
/// characters alone.
#[verifier::external_body]
fn apply_lower(s: &str) -> (r: String)
    ensures
        r@ == lower_of(s@),
{
    s.to_lowercase()
}

/// Relies on `str::to_uppercase`: the result depends on the input
/// characters alone.
#[verifier::external_body]
fn apply_upper(s: &str) -> (r: String)
    ensures
        r@ == upper_of(s@),
{
    s.to_uppercase()
}

/// The conversion each case stands for.
pub open spec fn apply_case(c: Case, s: Seq<char>) -> Seq<char> {
    match c {
        Case::Snake => snake_of(s),
        Case::Kebab => kebab_of(s),
        Case::Camel => camel_of(s),
        Case::Pascal => pascal_of(s),
        Case::Title => title_of(s),
        Case::Train => train_of(s),
        Case::Lower => lower_of(s),
        Case::Upper => upper_of(s),
    }
}

/// Converts a string to the given naming convention.
pub fn convert_case(s: &str, case: Case) -> (r: String)
    ensures
        r@ == apply_case(case, s@),
{
    match case {
        Case::Snake => apply_snake(s),
        Case::Kebab => apply_kebab(s),
        Case::Camel => apply_camel(s),
        Case::Pascal => apply_pascal(s),
        Case::Title => apply_title(s),
        Case::Train => apply_train(s),
        Case::Lower => apply_lower(s),
        Case::Upper => apply_upper(s),
    }
}

/// Conversion between naming conventions.
pub trait Casing {
    fn to_case(&self, case: Case) -> String;
}

impl Casing for String {
    fn to_case(&self, case: Case) -> String {
        convert_case(self.as_str(), case)
    }
}

} // verus!
