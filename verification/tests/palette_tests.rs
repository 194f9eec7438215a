use rosepine::casing::{convert_case, Case, Casing};
use rosepine::config::{Args, Config};
use rosepine::format::Format;
use rosepine::palette::{rgb_to_hsl, Hsl, Metadata, Rgb, Role, Variant, VariantKind};
use rosepine::parse::Delimiter;

const ALL_ROLES: [Role; 15] = [
    Role::Base,
    Role::Surface,
    Role::Overlay,
    Role::Muted,
    Role::Subtle,
    Role::Text,
    Role::Love,
    Role::Gold,
    Role::Rose,
    Role::Pine,
    Role::Foam,
    Role::Iris,
    Role::HighlightLow,
    Role::HighlightMed,
    Role::HighlightHigh,
];

const ALL_VARIANTS: [Variant; 3] = [Variant::Main, Variant::Moon, Variant::Dawn];

#[test]
fn hsl_is_derived_from_rgb_everywhere() {
    // For every (variant, role) pair the palette's HSL value is exactly
    // the rounded transform of its RGB value.
    for variant in ALL_VARIANTS {
        for role in ALL_ROLES {
            let rgb = variant.get_rgb(role);
            let hsl = variant.get_hsl(role);
            assert_eq!(hsl, rgb_to_hsl(rgb));
            assert!(hsl.h <= 360, "hue out of range for {role:?}/{variant:?}");
            assert!(hsl.s <= 100);
            assert!(hsl.l <= 100);
        }
    }
}

#[test]
fn known_hsl_values() {
    let hsl = Role::Love.get_hsl(&Variant::Moon);
    assert_eq!((hsl.h, hsl.s, hsl.l), (343, 76, 68));
    let hsl = Role::Pine.get_hsl(&Variant::Main);
    assert_eq!((hsl.h, hsl.s, hsl.l), (197, 49, 38));
    let gray = rgb_to_hsl(Rgb::new(17, 17, 17));
    assert_eq!((gray.h, gray.s, gray.l), (0, 0, 7));
}

#[test]
fn color_carries_hex_spelling() {
    let color = Role::Love.get_color(&Variant::Moon);
    assert_eq!(color.hex, "eb6f92");
    assert_eq!((color.rgb.r, color.rgb.g, color.rgb.b), (235, 111, 146));
    let color = Role::HighlightLow.get_color(&Variant::Dawn);
    assert_eq!(color.hex, "f4ede8");
}

#[test]
fn palette_lookup_matches_direct_lookup() {
    for variant in ALL_VARIANTS {
        let palette = variant.get_palette();
        for role in ALL_ROLES {
            let (rgb, hsl) = palette.get_role(&role);
            assert_eq!(rgb, variant.get_rgb(role));
            assert_eq!(hsl, variant.get_hsl(role));
            assert_eq!(palette.get_rgb(&role), rgb);
            assert_eq!(palette.get_hsl(&role), hsl);
            assert_eq!(role.get_rgb(&variant), rgb);
            assert_eq!(role.get_hsl(&variant), hsl);
        }
    }
}

#[test]
fn variant_identity() {
    assert_eq!(Variant::Main.id(), "rose-pine");
    assert_eq!(Variant::Moon.id(), "rose-pine-moon");
    assert_eq!(Variant::Dawn.id(), "rose-pine-dawn");
    assert_eq!(Variant::Main.key(), "main");
    assert_eq!(Variant::Moon.key(), "moon");
    assert_eq!(Variant::Dawn.key(), "dawn");
    assert_eq!(Variant::Main.name(), "Rosé Pine");
    assert_eq!(Variant::Dawn.name(), "Rosé Pine Dawn");
    assert!(matches!(Variant::Dawn.kind(), VariantKind::Light));
    assert!(matches!(Variant::Main.kind(), VariantKind::Dark));
    assert!(matches!(Variant::Moon.kind(), VariantKind::Dark));
}

#[test]
fn metadata_values() {
    assert_eq!(Metadata::Id.format(&Variant::Moon), "rose-pine-moon");
    assert_eq!(Metadata::Name.format(&Variant::Main), "Rosé Pine");
    assert_eq!(Metadata::Key.format(&Variant::Dawn), "dawn");
    assert_eq!(Metadata::Kind.format(&Variant::Dawn), "light");
    assert_eq!(Metadata::Kind.format(&Variant::Moon), "dark");
    assert_eq!(
        Metadata::Description.format(&Variant::Main),
        "All natural pine, faux fur and a bit of soho vibes for the classy minimalist"
    );
}

#[test]
fn variant_metadata_table() {
    let meta = Variant::Moon.metadata();
    assert_eq!(meta.len(), 5);
    assert_eq!(meta[0], ("id".to_string(), "rose-pine-moon".to_string()));
    assert_eq!(meta[4], ("kind".to_string(), "dark".to_string()));
}

#[test]
fn variant_colors_table() {
    let colors = Variant::Main.colors();
    assert_eq!(colors.len(), 15);
    assert_eq!(colors[0].0, "base");
    assert_eq!(colors[6].0, "love");
    assert_eq!(colors[6].1.hex, "eb6f92");
    assert_eq!(colors[12].0, "highlight_low");
}

#[test]
fn case_conversions() {
    assert_eq!(convert_case("rose-pine-moon", Case::Snake), "rose_pine_moon");
    assert_eq!(convert_case("rose-pine-moon", Case::Camel), "rosePineMoon");
    assert_eq!(convert_case("rose-pine-moon", Case::Pascal), "RosePineMoon");
    assert_eq!(convert_case("rose-pine-moon", Case::Kebab), "rose-pine-moon");
    assert_eq!(convert_case("rose pine", Case::Title), "Rose Pine");
    assert_eq!(convert_case("rose pine", Case::Train), "Rose-Pine");
    assert_eq!(convert_case("Rosé Pine", Case::Lower), "rosé pine");
    assert_eq!(convert_case("Rosé Pine", Case::Upper), "ROSÉ PINE");
    assert_eq!(String::from("Rosé Pine Moon").to_case(Case::Snake), "rosé_pine_moon");
}

#[test]
fn delimiters() {
    assert_eq!(Delimiter::Parenthesis.open(), '(');
    assert_eq!(Delimiter::Parenthesis.close(), ')');
    assert_eq!(Delimiter::CurlyBracket.open(), '{');
    assert_eq!(Delimiter::CurlyBracket.close(), '}');
    assert_eq!(Delimiter::AngleBracket.open(), '<');
    assert_eq!(Delimiter::AngleBracket.close(), '>');
    assert_eq!(Delimiter::SqaureBracket.open(), '[');
    assert_eq!(Delimiter::SqaureBracket.close(), ']');
}

#[test]
fn args_to_config() {
    let args = Args {
        out: "dist".to_string(),
        format: None,
        delimiter: None,
        seperator: None,
        force_alpha: false,
        prefix: None,
        template_source: "template.txt".to_string(),
    };
    assert!(args.no_options());
    let config = Config::from_args(&args);
    assert_eq!(config.parse.prefix, '$');
    assert_eq!(config.parse.seperator, '|');
    assert!(matches!(config.parse.delimiter, Delimiter::Parenthesis));
    assert!(matches!(config.generate.format, Format::Hex));
    assert!(!config.generate.force_alpha);

    let args = Args {
        out: "out".to_string(),
        format: Some(Format::RgbFunction),
        delimiter: Some(Delimiter::AngleBracket),
        seperator: Some(','),
        force_alpha: true,
        prefix: Some('%'),
        template_source: "t".to_string(),
    };
    assert!(!args.no_options());
    let config = Config::from_args(&args);
    assert_eq!(config.parse.prefix, '%');
    assert_eq!(config.parse.seperator, ',');
    assert!(matches!(config.parse.delimiter, Delimiter::AngleBracket));
    assert!(matches!(config.generate.format, Format::RgbFunction));
    assert!(config.generate.force_alpha);
}

#[test]
fn constructors() {
    let c = Rgb::new(1, 2, 3);
    assert_eq!((c.r, c.g, c.b), (1, 2, 3));
    let h = Hsl::new(350, 20, 30);
    assert_eq!((h.h, h.s, h.l), (350, 20, 30));
}
