use rosepine::config::Config;
use rosepine::format::Format;
use rosepine::generate::{generate_variant, generate_variants, Options};
use rosepine::palette::Variant;
use rosepine::parse::{Delimiter, ParseOptions};

fn gen(variant: Variant, content: &str) -> String {
    generate_variant(&variant, &Config::default(), content)
}

#[test]
fn generate_generate_rgb() {
    assert_eq!(gen(Variant::Moon, "$love:rgb"), "235, 111, 146");
    assert_eq!(gen(Variant::Moon, "$love:rgb_function"), "rgb(235, 111, 146)");
    assert_eq!(
        gen(Variant::Moon, "$pine:rgb_function/80"),
        "rgb(62, 143, 176, 0.8)"
    );
}

#[test]
fn generate_format_parse_order() {
    assert_eq!(
        gen(
            Variant::Moon,
            "$love:rgb_function; $love:rgb; $love:hex_ns; $love:hex",
        ),
        "rgb(235, 111, 146); 235, 111, 146; eb6f92; #eb6f92"
    );
}

#[test]
fn generate_format_hsl() {
    assert_eq!(gen(Variant::Moon, "$love:hsl_function"), "hsl(343, 76%, 68%)");
}

#[test]
fn generate_opacity() {
    assert_eq!(
        gen(Variant::Moon, "$love:rgb_function/50"),
        "rgb(235, 111, 146, 0.5)"
    );
    assert_eq!(
        gen(Variant::Moon, "$love:hsl_function/50"),
        "hsl(343, 76%, 68%, 0.5)"
    );
    assert_eq!(gen(Variant::Moon, "$love:hex/100"), "#eb6f92ff");
    assert_eq!(gen(Variant::Moon, "$love:hex/0"), "#eb6f9200");
    assert_eq!(gen(Variant::Moon, "$love:ahex_ns/50"), "80eb6f92");
    assert_eq!(gen(Variant::Moon, "$love:ahex_ns/100"), "ffeb6f92");
}

#[test]
fn generate_role_variation() {
    assert_eq!(gen(Variant::Main, "$(pine|foam)"), "#31748f");
    assert_eq!(gen(Variant::Main, "$(rose|love):hex"), "#ebbcba");
    assert_eq!(gen(Variant::Dawn, "$(rose|love):hex"), "#b4637a");
}

#[test]
fn replace_generate_rgb() {
    assert_eq!(gen(Variant::Moon, "$love:rgb"), "235, 111, 146");
    assert_eq!(gen(Variant::Moon, "$love:rgb_function"), "rgb(235, 111, 146)");
    assert_eq!(
        gen(Variant::Moon, "$pine:rgb_function/80"),
        "rgb(62, 143, 176, 0.8)"
    );
}

#[test]
fn replace_format_parse_order() {
    assert_eq!(
        gen(
            Variant::Moon,
            "$love:rgb_function; $love:rgb; $love:hex_ns; $love:hex",
        ),
        "rgb(235, 111, 146); 235, 111, 146; eb6f92; #eb6f92"
    );
}

#[test]
fn replace_format_hsl() {
    assert_eq!(gen(Variant::Moon, "$love:hsl_function"), "hsl(343, 76%, 68%)");
}

#[test]
fn replace_opacity() {
    assert_eq!(
        gen(Variant::Moon, "$love:rgb_function/50"),
        "rgb(235, 111, 146, 0.5)"
    );
    assert_eq!(
        gen(Variant::Moon, "$love:hsl_function/50"),
        "hsl(343, 76%, 68%, 0.5)"
    );
    assert_eq!(gen(Variant::Moon, "$love:hex/100"), "#eb6f92ff");
    assert_eq!(gen(Variant::Moon, "$love:hex/0"), "#eb6f9200");
    assert_eq!(gen(Variant::Moon, "$love:ahex_ns/50"), "80eb6f92");
    assert_eq!(gen(Variant::Moon, "$love:ahex_ns/100"), "ffeb6f92");
}

#[test]
fn replace_role_variation() {
    assert_eq!(gen(Variant::Main, "$(pine|foam)"), "#31748f");
    assert_eq!(gen(Variant::Main, "$(rose|love):hex"), "#ebbcba");
    assert_eq!(gen(Variant::Dawn, "$(rose|love):hex"), "#b4637a");
}

#[test]
fn replace_metadata() {
    assert_eq!(gen(Variant::Main, "$id"), "rose-pine");
    assert_eq!(gen(Variant::Moon, "$id"), "rose-pine-moon");
    assert_eq!(gen(Variant::Moon, "$id:snake"), "rose_pine_moon");
    assert_eq!(gen(Variant::Moon, "$id:camel"), "rosePineMoon");
    assert_eq!(gen(Variant::Moon, "$name"), "Rosé Pine Moon");
    assert_eq!(gen(Variant::Moon, "$name:lower"), "rosé pine moon");
    assert_eq!(
        gen(Variant::Main, "$description"),
        "All natural pine, faux fur and a bit of soho vibes for the classy minimalist"
    );
    assert_eq!(gen(Variant::Main, "$kind"), "dark");
}

#[test]
fn three_way_group_is_positional() {
    assert_eq!(gen(Variant::Main, "$(foam|pine|iris)"), "#9ccfd8");
    assert_eq!(gen(Variant::Moon, "$(foam|pine|iris)"), "#3e8fb0");
    assert_eq!(gen(Variant::Dawn, "$(foam|pine|iris)"), "#907aa9");
}

#[test]
fn text_without_placeholders_is_unchanged() {
    let doc = "no placeholders here, just text with love and pine words";
    for (_, out) in generate_variants(&Config::default(), doc) {
        assert_eq!(out, doc);
    }
    for (_, out) in generate_variants(&Config::default(), "") {
        assert_eq!(out, "");
    }
}

#[test]
fn malformed_placeholder_is_left_literal() {
    for (variant, out) in generate_variants(&Config::default(), "$zzz and $love:hex") {
        match variant {
            Variant::Main => assert_eq!(out, "$zzz and #eb6f92"),
            Variant::Moon => assert_eq!(out, "$zzz and #eb6f92"),
            Variant::Dawn => assert_eq!(out, "$zzz and #b4637a"),
        }
    }
}

#[test]
fn out_of_range_opacity_is_left_literal() {
    // The scanner accepts up to three digits; values above 100 are a
    // validation error at formatting time and the span stays literal.
    assert_eq!(gen(Variant::Moon, "$love:hex/200"), "$love:hex/200");
}

#[test]
fn ron_placeholder_is_left_literal() {
    assert_eq!(gen(Variant::Moon, "$love:ron"), "$love:ron");
}

#[test]
fn trailing_prefix_is_left_alone() {
    assert_eq!(gen(Variant::Moon, "x$"), "x$");
    assert_eq!(gen(Variant::Moon, "$"), "$");
}

#[test]
fn force_alpha_defaults_opacity_to_full() {
    let mut config = Config::default();
    config.generate.force_alpha = true;
    assert_eq!(
        generate_variant(&Variant::Moon, &config, "$love:hex"),
        "#eb6f92ff"
    );
    assert_eq!(
        generate_variant(&Variant::Moon, &config, "$love:hex/50"),
        "#eb6f9280"
    );
}

#[test]
fn default_format_applies_without_override() {
    assert_eq!(gen(Variant::Moon, "$love"), "#eb6f92");
    let config = Config {
        parse: ParseOptions::default(),
        generate: Options {
            format: Format::RgbFunction,
            strip_spaces: false,
            force_alpha: false,
        },
    };
    assert_eq!(
        generate_variant(&Variant::Moon, &config, "$love"),
        "rgb(235, 111, 146)"
    );
}

#[test]
fn custom_prefix_and_delimiter() {
    let config = Config {
        parse: ParseOptions {
            prefix: '%',
            seperator: ';',
            delimiter: Delimiter::CurlyBracket,
        },
        generate: Options::default(),
    };
    assert_eq!(
        generate_variant(&Variant::Main, &config, "%{rose;love}:hex and $love"),
        "#ebbcba and $love"
    );
}

#[test]
fn generate_variants_covers_all_three() {
    let res = generate_variants(&Config::default(), "$love:hex");
    assert_eq!(res.len(), 3);
    assert!(matches!(res[0].0, Variant::Main));
    assert!(matches!(res[1].0, Variant::Moon));
    assert!(matches!(res[2].0, Variant::Dawn));
    assert_eq!(res[0].1, "#eb6f92");
    assert_eq!(res[1].1, "#eb6f92");
    assert_eq!(res[2].1, "#b4637a");
}
