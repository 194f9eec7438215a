//! The configuration threaded through parsing and generation, and the
//! plain-value model of the command line arguments.

use vstd::prelude::*;

use crate::format::Format;
use crate::generate::Options;
use crate::parse::{Delimiter, ParseOptions};

verus! {

/// Everything the generator needs to know: how placeholders look and
/// how captures are rendered.
#[derive(Clone, Copy, Debug, PartialEq, Eq, Structural)]
pub struct Config {
    pub parse: ParseOptions,
    pub generate: Options,
}

impl Default for Config {
    fn default() -> (c: Config)
        ensures
            c.parse == (ParseOptions {
                prefix: '$',
                seperator: '|',
                delimiter: Delimiter::Parenthesis,
            }),
            c.generate == (Options {
                format: Format::Hex,
                strip_spaces: false,
                force_alpha: false,
            }),
    {
        Config {
            parse: ParseOptions { prefix: '$', seperator: '|', delimiter: Delimiter::Parenthesis },
            generate: Options { format: Format::Hex, strip_spaces: false, force_alpha: false },
        }
    }
}

/// The command line arguments, as plain values; reading them from the
/// real command line is the caller's business.
#[derive(Clone, Debug)]
pub struct Args {
    pub out: String,
    pub format: Option<Format>,
    pub delimiter: Option<Delimiter>,
    pub seperator: Option<char>,
    pub force_alpha: bool,
    pub prefix: Option<char>,
    pub template_source: String,
}

impl Args {
    /// True when no parsing or formatting option was given.
    pub fn no_options(&self) -> (r: bool)
        ensures
            r == (self.format is None && self.delimiter is None && self.seperator is None
                && self.prefix is None && !self.force_alpha),
    {
        self.format.is_none() && self.delimiter.is_none() && self.seperator.is_none()
            && self.prefix.is_none() && !self.force_alpha
    }
}

impl Config {
    /// The configuration the arguments ask for, defaults filled in.
    pub fn from_args(args: &Args) -> (c: Config)
        ensures
            c.parse.prefix == args.prefix.unwrap_or('$'),
            c.parse.seperator == args.seperator.unwrap_or('|'),
            c.parse.delimiter == args.delimiter.unwrap_or(Delimiter::Parenthesis),
            c.generate.format == args.format.unwrap_or(Format::Hex),
            c.generate.strip_spaces == false,
            c.generate.force_alpha == args.force_alpha,
    {
        Config {
            parse: ParseOptions {
                prefix: match args.prefix {
                    Some(c) => c,
                    None => '$',
                },
                seperator: match args.seperator {
                    Some(c) => c,
                    None => '|',
                },
                delimiter: match args.delimiter {
                    Some(d) => d,
                    None => Delimiter::Parenthesis,
                },
            },
            generate: Options {
                format: match args.format {
                    Some(f) => f,
                    None => Format::Hex,
                },
                strip_spaces: false,
                force_alpha: args.force_alpha,
            },
        }
    }
}

} // verus!
