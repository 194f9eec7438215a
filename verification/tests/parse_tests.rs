use rosepine::casing::Case;
use rosepine::config::Config;
use rosepine::format::Format;
use rosepine::palette::{Metadata, Role};
use rosepine::parse::{
    parse_capture, parse_template, Capture, Lexer, ParseError, RoleCaptures, Template,
};

fn parse_one(content: &str) -> Result<Capture, ParseError> {
    let config = Config::default();
    let mut lexer = Lexer::new(content, &config);
    parse_capture(&mut lexer)
}

fn assert_role(content: &str, roles: Vec<Role>, format: Option<Format>, alpha: Option<u16>) {
    match parse_one(content) {
        Ok(capture) => assert_eq!(
            capture.template,
            Template::Role(RoleCaptures(roles), format, alpha),
            "parsing {content:?}"
        ),
        Err(e) => panic!("unable to parse {content:?}, error: {e:?}"),
    }
}

fn assert_role_with_pos(
    content: &str,
    roles: Vec<Role>,
    format: Option<Format>,
    alpha: Option<u16>,
    start: usize,
    end: usize,
) {
    let correct = Capture {
        template: Template::Role(RoleCaptures(roles), format, alpha),
        start,
        end,
    };
    match parse_one(content) {
        Ok(capture) => assert_eq!(correct, capture, "parsing {content:?}"),
        Err(e) => panic!("unable to parse {content:?}, error: {e:?}"),
    }
}

fn assert_metadata(content: &str, key: Metadata, case: Option<Case>, start: usize, end: usize) {
    let correct = Capture {
        template: Template::Metadata(key, case),
        start,
        end,
    };
    match parse_one(content) {
        Ok(capture) => assert_eq!(correct, capture, "parsing {content:?}"),
        Err(e) => panic!("unable to parse {content:?}, error: {e:?}"),
    }
}

#[test]
fn test_role_variants() {
    assert_role_with_pos(
        "$love:hex_ns",
        vec![Role::Love],
        Some(Format::HexNs),
        None,
        0,
        12,
    );
    assert_role_with_pos("$pine", vec![Role::Pine], None, None, 0, 5);
    assert_role("$(pine)", vec![Role::Pine], None, None);
    assert_role_with_pos(
        "$love:rgb_function",
        vec![Role::Love],
        Some(Format::RgbFunction),
        None,
        0,
        18,
    );
    assert_role("$(rose|love)", vec![Role::Rose, Role::Love], None, None);
    assert_role(
        "$(foam|pine|iris)",
        vec![Role::Foam, Role::Pine, Role::Iris],
        None,
        None,
    );
    assert_role(
        "$(rose|love):hex",
        vec![Role::Rose, Role::Love],
        Some(Format::Hex),
        None,
    );
}

#[test]
fn test_role_variants_whitespace() {
    assert_role("$( pine )", vec![Role::Pine], None, None);
    assert_role("$( rose | love )", vec![Role::Rose, Role::Love], None, None);
    assert_role(
        "$( foam | pine | iris )",
        vec![Role::Foam, Role::Pine, Role::Iris],
        None,
        None,
    );
    assert_role(
        "$(    rose   |   love )",
        vec![Role::Rose, Role::Love],
        None,
        None,
    );
}

#[test]
fn test_format() {
    assert_role("$base:rgb", vec![Role::Base], Some(Format::Rgb), None);
    assert_role("$base:rgb_ns", vec![Role::Base], Some(Format::RgbNs), None);
    assert_role(
        "$base:rgb_function",
        vec![Role::Base],
        Some(Format::RgbFunction),
        None,
    );
    assert_role(
        "$base:rgb_array",
        vec![Role::Base],
        Some(Format::RgbArray),
        None,
    );
    assert_role(
        "$base:rgb_ansi",
        vec![Role::Base],
        Some(Format::RgbAnsi),
        None,
    );
    assert_role("$base:hsl", vec![Role::Base], Some(Format::Hsl), None);
    assert_role("$base:hsl_ns", vec![Role::Base], Some(Format::HslNs), None);
    assert_role(
        "$base:hsl_function",
        vec![Role::Base],
        Some(Format::HslFunction),
        None,
    );
    assert_role(
        "$base:hsl_array",
        vec![Role::Base],
        Some(Format::HslArray),
        None,
    );
    assert_role("$base:hex", vec![Role::Base], Some(Format::Hex), None);
    assert_role("$base:ahex", vec![Role::Base], Some(Format::Ahex), None);
    assert_role("$base:hex_ns", vec![Role::Base], Some(Format::HexNs), None);
    assert_role("$base:ahex_ns", vec![Role::Base], Some(Format::AhexNs), None);
}

#[test]
fn test_opacity() {
    assert_role("$base/100", vec![Role::Base], None, Some(100));
    assert_role("$base/28", vec![Role::Base], None, Some(28));
    assert_role("$base/50", vec![Role::Base], None, Some(50));
    assert_role("$base/0", vec![Role::Base], None, Some(0));
    assert_role(
        "$base:rgb_function/75",
        vec![Role::Base],
        Some(Format::RgbFunction),
        Some(75),
    );
    assert_role_with_pos(
        "$pine:rgb_function/80",
        vec![Role::Pine],
        Some(Format::RgbFunction),
        Some(80),
        0,
        21,
    );
}

#[test]
fn test_metadata() {
    assert_metadata("$name", Metadata::Name, None, 0, 5);
    assert_metadata("$name:title", Metadata::Name, Some(Case::Title), 0, 11);
    // an unknown case name after the colon is ignored, not an error
    assert_metadata("$name:hello_world", Metadata::Name, None, 0, 5);
    assert_metadata("$name:", Metadata::Name, None, 0, 5);
    assert_metadata("$name:", Metadata::Name, None, 0, 5);
}

#[test]
fn parse_role_variants() {
    assert_role("$(pine)", vec![Role::Pine], None, None);
    assert_role("$(rose|love)", vec![Role::Rose, Role::Love], None, None);
    assert_role(
        "$(foam|pine|iris)",
        vec![Role::Foam, Role::Pine, Role::Iris],
        None,
        None,
    );
}

#[test]
fn parse_role_variants_whitespace() {
    assert_role("$( pine )", vec![Role::Pine], None, None);
    assert_role("$( rose | love )", vec![Role::Rose, Role::Love], None, None);
    assert_role(
        "$( foam | pine | iris )",
        vec![Role::Foam, Role::Pine, Role::Iris],
        None,
        None,
    );
    assert_role(
        "$(    rose   |   love )",
        vec![Role::Rose, Role::Love],
        None,
        None,
    );
}

#[test]
fn parse_format() {
    assert_role("$base:rgb", vec![Role::Base], Some(Format::Rgb), None);
    assert_role("$base:rgb_ns", vec![Role::Base], Some(Format::RgbNs), None);
    assert_role(
        "$base:rgb_function",
        vec![Role::Base],
        Some(Format::RgbFunction),
        None,
    );
    assert_role(
        "$base:rgb_array",
        vec![Role::Base],
        Some(Format::RgbArray),
        None,
    );
    assert_role(
        "$base:rgb_ansi",
        vec![Role::Base],
        Some(Format::RgbAnsi),
        None,
    );
    assert_role("$base:hsl", vec![Role::Base], Some(Format::Hsl), None);
    assert_role("$base:hsl_ns", vec![Role::Base], Some(Format::HslNs), None);
    assert_role(
        "$base:hsl_function",
        vec![Role::Base],
        Some(Format::HslFunction),
        None,
    );
    assert_role(
        "$base:hsl_array",
        vec![Role::Base],
        Some(Format::HslArray),
        None,
    );
    assert_role("$base:hex", vec![Role::Base], Some(Format::Hex), None);
    assert_role("$base:ahex", vec![Role::Base], Some(Format::Ahex), None);
    assert_role("$base:hex_ns", vec![Role::Base], Some(Format::HexNs), None);
    assert_role("$base:ahex_ns", vec![Role::Base], Some(Format::AhexNs), None);
}

#[test]
fn parse_opacity() {
    assert_role("$base/100", vec![Role::Base], None, Some(100));
    assert_role("$base/50", vec![Role::Base], None, Some(50));
    assert_role("$base/0", vec![Role::Base], None, Some(0));
    assert_role(
        "$base:rgb_function/75",
        vec![Role::Base],
        Some(Format::RgbFunction),
        Some(75),
    );
}

#[test]
fn parse_test_role_variants() {
    assert_role("$(pine)", vec![Role::Pine], None, None);
    assert_role("$(rose|love)", vec![Role::Rose, Role::Love], None, None);
    assert_role(
        "$(foam|pine|iris)",
        vec![Role::Foam, Role::Pine, Role::Iris],
        None,
        None,
    );
    assert_role(
        "$(rose|love):hex",
        vec![Role::Rose, Role::Love],
        Some(Format::Hex),
        None,
    );
}

#[test]
fn parse_test_role_variants_whitespace() {
    assert_role("$( pine )", vec![Role::Pine], None, None);
    assert_role("$( rose | love )", vec![Role::Rose, Role::Love], None, None);
    assert_role(
        "$( foam | pine | iris )",
        vec![Role::Foam, Role::Pine, Role::Iris],
        None,
        None,
    );
    assert_role(
        "$(    rose   |   love )",
        vec![Role::Rose, Role::Love],
        None,
        None,
    );
}

#[test]
fn parse_test_format() {
    assert_role("$base:rgb", vec![Role::Base], Some(Format::Rgb), None);
    assert_role("$base:rgb_ns", vec![Role::Base], Some(Format::RgbNs), None);
    assert_role(
        "$base:rgb_function",
        vec![Role::Base],
        Some(Format::RgbFunction),
        None,
    );
    assert_role(
        "$base:rgb_array",
        vec![Role::Base],
        Some(Format::RgbArray),
        None,
    );
    assert_role(
        "$base:rgb_ansi",
        vec![Role::Base],
        Some(Format::RgbAnsi),
        None,
    );
    assert_role("$base:hsl", vec![Role::Base], Some(Format::Hsl), None);
    assert_role("$base:hsl_ns", vec![Role::Base], Some(Format::HslNs), None);
    assert_role(
        "$base:hsl_function",
        vec![Role::Base],
        Some(Format::HslFunction),
        None,
    );
    assert_role(
        "$base:hsl_array",
        vec![Role::Base],
        Some(Format::HslArray),
        None,
    );
    assert_role("$base:hex", vec![Role::Base], Some(Format::Hex), None);
    assert_role("$base:ahex", vec![Role::Base], Some(Format::Ahex), None);
    assert_role("$base:hex_ns", vec![Role::Base], Some(Format::HexNs), None);
    assert_role("$base:ahex_ns", vec![Role::Base], Some(Format::AhexNs), None);
}

#[test]
fn parse_test_opacity() {
    assert_role("$base/100", vec![Role::Base], None, Some(100));
    assert_role("$base/28", vec![Role::Base], None, Some(28));
    assert_role("$base/50", vec![Role::Base], None, Some(50));
    assert_role("$base/0", vec![Role::Base], None, Some(0));
    assert_role(
        "$base:rgb_function/75",
        vec![Role::Base],
        Some(Format::RgbFunction),
        Some(75),
    );
}

#[test]
fn capture_span_is_start_inclusive_end_exclusive() {
    // "$love:rgb": the capture starts at the prefix and ends one past
    // the last consumed character.
    match parse_one("$love:rgb") {
        Ok(capture) => {
            assert_eq!(capture.start, 0);
            assert_eq!(capture.end, 9);
        }
        Err(e) => panic!("unable to parse: {e:?}"),
    }
}

#[test]
fn parse_errors() {
    assert!(matches!(parse_one("love"), Err(ParseError::PrefixExpected)));
    assert!(matches!(parse_one("$zzz"), Err(ParseError::VariantNotFound)));
    assert!(matches!(
        parse_one("$base:zzz"),
        Err(ParseError::VariantNotFound)
    ));
    assert!(matches!(
        parse_one("$(rose"),
        Err(ParseError::CloseDelimExpected)
    ));
    assert!(matches!(
        parse_one("$base/x"),
        Err(ParseError::InvalidOpacity)
    ));
    assert!(matches!(parse_one("$base/"), Err(ParseError::InvalidOpacity)));
}

#[test]
fn opacity_stops_after_three_digits() {
    // The scanner consumes at most three digits; the fourth stays in
    // the document.
    match parse_one("$base/1234") {
        Ok(capture) => {
            assert_eq!(
                capture.template,
                Template::Role(RoleCaptures(vec![Role::Base]), None, Some(123))
            );
            assert_eq!(capture.end, 9);
        }
        Err(e) => panic!("unable to parse: {e:?}"),
    }
}

#[test]
fn scan_collects_all_captures_in_order() {
    let config = Config::default();
    let results = parse_template("$love:hex and $zzz and $pine", &config);
    assert_eq!(results.len(), 3);
    assert!(results[0].is_ok());
    assert!(results[1].is_err());
    assert!(results[2].is_ok());
    let first = results[0].as_ref().unwrap();
    let third = results[2].as_ref().unwrap();
    assert_eq!((first.start, first.end), (0, 9));
    assert_eq!(third.start, 23);
    // A prefix as the very last character is never examined.
    let trailing = parse_template("abc$", &config);
    assert_eq!(trailing.len(), 0);
    let empty = parse_template("", &config);
    assert_eq!(empty.len(), 0);
}

#[test]
fn lexer_cursor_walk() {
    let config = Config::default();
    let mut lexer = Lexer::new("ab c", &config);
    assert_eq!(lexer.current(), Some('a'));
    assert_eq!(lexer.lookahead(), Some('b'));
    assert_eq!(lexer.lookahead_n(2), Some(' '));
    assert!(lexer.scan_ahead("b c"));
    assert!(!lexer.scan_ahead("bc"));
    assert_eq!(lexer.advance(), Some(1));
    lexer.skip_whitespace();
    assert_eq!(lexer.current(), Some(' '));
    assert_eq!(lexer.lookahead(), Some('c'));
    // The cursor stops one before the true end.
    assert_eq!(lexer.advance(), Some(3));
    assert_eq!(lexer.advance(), None);
    assert_eq!(lexer.current(), Some('c'));
}
