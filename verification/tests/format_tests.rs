use rosepine::format::Format;
use rosepine::palette::{Role, Variant};

fn assert_format(format: Format, alpha: Option<u16>, val: &str) {
    let color = Role::Love.get_color(&Variant::Moon);
    assert_eq!(val, format.format_color(color.rgb, alpha).unwrap());
}

#[test]
fn format_rgb() {
    assert_format(Format::Rgb, None, "235, 111, 146");
    assert_format(Format::RgbFunction, None, "rgb(235, 111, 146)");
    assert_format(Format::RgbFunction, Some(80), "rgb(235, 111, 146, 0.8)");
    assert_format(Format::RgbArray, None, "[235, 111, 146]");
}

#[test]
fn format_format_hsl() {
    assert_format(Format::HslFunction, None, "hsl(343, 76%, 68%)");
    assert_format(Format::HslFunction, Some(70), "hsl(343, 76%, 68%, 0.7)");
}

#[test]
fn format_hex() {
    assert_format(Format::Hex, None, "#eb6f92");
    assert_format(Format::Hex, Some(100), "#eb6f92ff");
    assert_format(Format::Ahex, None, "#eb6f92");
    assert_format(Format::Ahex, Some(100), "#ffeb6f92");
    assert_format(Format::HexNs, None, "eb6f92");
    assert_format(Format::HexNs, Some(100), "eb6f92ff");
    assert_format(Format::AhexNs, Some(100), "ffeb6f92");
}

#[test]
fn format_remaining_variants() {
    assert_format(Format::RgbNs, None, "235 111 146");
    assert_format(Format::RgbAnsi, None, "235;111;146");
    assert_format(Format::Hsl, None, "343, 76%, 68%");
    assert_format(Format::HslNs, None, "343 76% 68%");
    assert_format(Format::HslArray, None, "[343, 76%, 68%]");
    assert_format(Format::Hsl, Some(25), "343, 76%, 68%, 0.25");
    assert_format(Format::HexNs, Some(5), "eb6f920d");
}

#[test]
fn format_alpha_byte_rounds_to_nearest() {
    // 70% of 255 is 178.5; halves round up.
    assert_format(Format::Hex, Some(70), "#eb6f92b3");
    assert_format(Format::Hex, Some(0), "#eb6f9200");
    assert_format(Format::Hex, Some(50), "#eb6f9280");
}

#[test]
fn format_rejects_out_of_range_opacity() {
    assert_eq!(Format::Hex.format_color(Role::Love.get_rgb(&Variant::Moon), Some(101)), None);
    assert_eq!(Format::Rgb.format_color(Role::Love.get_rgb(&Variant::Moon), Some(999)), None);
}

#[test]
fn format_does_not_render_ron() {
    assert_eq!(Format::Ron.format_color(Role::Love.get_rgb(&Variant::Moon), None), None);
}

#[test]
fn format_classification() {
    assert!(Format::Hsl.is_hsl());
    assert!(Format::HslFunction.is_hsl());
    assert!(!Format::RgbAnsi.is_hsl());
    assert!(Format::RgbAnsi.is_rgb());
    assert!(Format::RgbFunction.is_rgb());
    assert!(!Format::Hex.is_rgb());
    assert!(Format::AhexNs.is_hex());
    assert!(!Format::Ron.is_hex());
    assert!(!Format::Ron.is_rgb());
    assert!(!Format::Ron.is_hsl());
}
