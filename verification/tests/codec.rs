use alienware::codec::{colour_from_captures, group_text, parse_u8, render_colour};
use alienware::{Alienware, HDMICableState, HDMISource, RGBZone, Zone};

fn groups(texts: &[Option<&str>]) -> Option<Vec<Option<String>>> {
    Some(texts.iter().map(|text| text.map(|text| text.to_string())).collect())
}

#[test]
fn colour_is_read_from_its_three_numbers() {
    assert_eq!(Alienware::parse_sys_rgb_file("red: 0, green: 0, blue: 15"), (0, 0, 15));
    assert_eq!(Alienware::parse_sys_rgb_file("red: 0, green: 15, blue: 0"), (0, 15, 0));
    assert_eq!(Alienware::parse_sys_rgb_file("red: 1, green: 2, blue: 3"), (1, 2, 3));
    assert_eq!(Alienware::parse_sys_rgb_file("red: 255, green: 255, blue: 255"), (255, 255, 255));
}

#[test]
fn garbage_reads_as_black() {
    assert_eq!(Alienware::parse_sys_rgb_file("garbage"), (0, 0, 0));
    assert_eq!(Alienware::parse_sys_rgb_file(""), (0, 0, 0));
    assert_eq!(Alienware::parse_sys_rgb_file("000f00"), (0, 0, 0));
}

#[test]
fn colour_pattern_starts_at_the_start() {
    assert_eq!(Alienware::parse_sys_rgb_file(" red: 1, green: 2, blue: 3"), (0, 0, 0));
    assert_eq!(Alienware::parse_sys_rgb_file("xred: 1, green: 2, blue: 3"), (0, 0, 0));
    assert_eq!(Alienware::parse_sys_rgb_file("\nred: 1, green: 2, blue: 3"), (0, 0, 0));
}

#[test]
fn colour_pattern_allows_what_follows() {
    assert_eq!(Alienware::parse_sys_rgb_file("red: 1, green: 2, blue: 3\n"), (1, 2, 3));
    assert_eq!(Alienware::parse_sys_rgb_file("red: 1, green: 2, blue: 3, alpha: 4"), (1, 2, 3));
}

#[test]
fn colour_with_a_number_out_of_range_reads_as_black() {
    assert_eq!(Alienware::parse_sys_rgb_file("red: 256, green: 0, blue: 15"), (0, 0, 0));
    assert_eq!(Alienware::parse_sys_rgb_file("red: 1, green: 999, blue: 15"), (0, 0, 0));
    assert_eq!(Alienware::parse_sys_rgb_file("red: 1, green: 2, blue: 300"), (0, 0, 0));
    assert_eq!(
        Alienware::parse_sys_rgb_file("red: 1, green: 2, blue: 99999999999999999999999999"),
        (0, 0, 0)
    );
}

#[test]
fn colour_with_a_field_missing_or_misspelt_reads_as_black() {
    assert_eq!(Alienware::parse_sys_rgb_file("red: 1, green: 2"), (0, 0, 0));
    assert_eq!(Alienware::parse_sys_rgb_file("red: 1, blue: 3, green: 2"), (0, 0, 0));
    assert_eq!(Alienware::parse_sys_rgb_file("red:1, green:2, blue:3"), (0, 0, 0));
    assert_eq!(Alienware::parse_sys_rgb_file("Red: 1, Green: 2, Blue: 3"), (0, 0, 0));
    assert_eq!(Alienware::parse_sys_rgb_file("red: , green: 2, blue: 3"), (0, 0, 0));
    assert_eq!(Alienware::parse_sys_rgb_file("red: -1, green: 2, blue: 3"), (0, 0, 0));
}

#[test]
fn colour_numbers_may_have_leading_zeros() {
    assert_eq!(Alienware::parse_sys_rgb_file("red: 007, green: 00, blue: 0255"), (7, 0, 255));
}

#[test]
fn colour_in_other_digits_than_ascii_reads_as_black() {
    // The pattern takes any decimal digit; only 0 to 9 write a number here.
    assert_eq!(
        Alienware::parse_sys_rgb_file("red: \u{661}, green: \u{662}, blue: \u{663}"),
        (0, 0, 0)
    );
    assert_eq!(Alienware::parse_sys_rgb_file("red: 1, green: 2, blue: 3\u{664}"), (0, 0, 0));
}

#[test]
fn colour_is_rendered_as_six_hex_digits() {
    assert_eq!(render_colour(0, 15, 0), "000f00");
    assert_eq!(render_colour(15, 0, 0), "0f0000");
    assert_eq!(render_colour(15, 7, 0), "0f0700");
    assert_eq!(render_colour(0, 0, 0), "000000");
    assert_eq!(render_colour(255, 255, 255), "ffffff");
    assert_eq!(render_colour(171, 205, 239), "abcdef");
    assert_eq!(render_colour(1, 35, 69), "012345");
    assert_eq!(render_colour(103, 137, 16), "678910");
}

#[test]
fn rendering_agrees_with_lower_hex_formatting() {
    for value in 0..=255u8 {
        assert_eq!(render_colour(value, 0, 0), format!("{value:02x}0000"));
        assert_eq!(render_colour(0, value, 0), format!("00{value:02x}00"));
        assert_eq!(render_colour(0, 0, value), format!("0000{value:02x}"));
    }
}

#[test]
fn rendered_black_reads_back_as_black() {
    let (red, green, blue) = Alienware::parse_sys_rgb_file(render_colour(0, 0, 0).as_str());
    assert_eq!(render_colour(red, green, blue), render_colour(0, 0, 0));
}

#[test]
fn rendered_colour_is_not_in_the_format_that_is_read() {
    // What is written is hexadecimal, what is read is the driver's own
    // wording: a rendered colour reads back as black.
    for value in 0..=255u8 {
        assert_eq!(Alienware::parse_sys_rgb_file(render_colour(value, 0, 0).as_str()), (0, 0, 0));
        assert_eq!(Alienware::parse_sys_rgb_file(render_colour(0, value, 0).as_str()), (0, 0, 0));
        assert_eq!(Alienware::parse_sys_rgb_file(render_colour(0, 0, value).as_str()), (0, 0, 0));
    }
    let (red, green, blue) = Alienware::parse_sys_rgb_file(render_colour(0, 15, 0).as_str());
    assert_eq!(render_colour(red, green, blue), "000000");
}

#[test]
fn bracketed_word_is_found() {
    assert_eq!(Alienware::parse_sys_file("cable [gpu] unknown"), Some("gpu".to_string()));
    assert_eq!(
        Alienware::parse_sys_file("unconnected [connected] unknown"),
        Some("connected".to_string())
    );
    assert_eq!(Alienware::parse_sys_file("[cable] gpu unknown"), Some("cable".to_string()));
    assert_eq!(Alienware::parse_sys_file("cable gpu [unknown]"), Some("unknown".to_string()));
    assert_eq!(Alienware::parse_sys_file("cable [gpu] unknown,"), Some("gpu".to_string()));
    assert_eq!(Alienware::parse_sys_file("cable [gpu] unknown\n"), Some("gpu".to_string()));
}

#[test]
fn no_brackets_no_word() {
    assert_eq!(Alienware::parse_sys_file("cable gpu unknown"), None);
    assert_eq!(Alienware::parse_sys_file(""), None);
    assert_eq!(Alienware::parse_sys_file("[]"), None);
    assert_eq!(Alienware::parse_sys_file("cable [gpu unknown"), None);
    assert_eq!(Alienware::parse_sys_file("cable gpu] unknown"), None);
    assert_eq!(Alienware::parse_sys_file("cable ]gpu[ unknown"), None);
}

#[test]
fn bracketed_word_is_closed_by_either_bracket() {
    assert_eq!(Alienware::parse_sys_file("cable [gpu) unknown"), Some("gpu".to_string()));
    assert_eq!(Alienware::parse_sys_file("cable [gpu) unknown]"), Some("gpu".to_string()));
    assert_eq!(Alienware::parse_sys_file("[a) [b]"), Some("a".to_string()));
    assert_eq!(Alienware::parse_source("cable [gpu) unknown"), HDMISource::Gpu);
    assert_eq!(
        Alienware::parse_cable_state("unconnected [connected) unknown"),
        HDMICableState::Connected
    );
}

#[test]
fn bracketed_word_ends_at_the_next_closing_bracket() {
    assert_eq!(Alienware::parse_sys_file("cable [gpu] unknown [x]"), Some("gpu".to_string()));
    assert_eq!(Alienware::parse_sys_file("[cable] [gpu]"), Some("cable".to_string()));
    assert_eq!(Alienware::parse_sys_file("[cable] gpu)"), Some("cable".to_string()));
    assert_eq!(Alienware::parse_source("cable [gpu] unknown [x]"), HDMISource::Gpu);
    assert_eq!(
        Alienware::parse_cable_state("[unconnected] connected [unknown]"),
        HDMICableState::Unconnected
    );
}

#[test]
fn bracketed_word_is_the_first_that_is_not_empty() {
    assert_eq!(Alienware::parse_sys_file("[] [gpu]"), Some("gpu".to_string()));
    assert_eq!(Alienware::parse_sys_file("[) [gpu]"), Some("gpu".to_string()));
    assert_eq!(Alienware::parse_sys_file("[)"), None);
    assert_eq!(Alienware::parse_sys_file("[[gpu]"), Some("[gpu".to_string()));
    assert_eq!(Alienware::parse_sys_file("(gpu)"), None);
    assert_eq!(Alienware::parse_sys_file("[a\nb]"), Some("a\nb".to_string()));
}

#[test]
fn source_of_a_word() {
    assert_eq!(HDMISource::from_token(Some("cable")), HDMISource::Cable);
    assert_eq!(HDMISource::from_token(Some("gpu")), HDMISource::Gpu);
    assert_eq!(HDMISource::from_token(Some("unknown")), HDMISource::Unknown);
    assert_eq!(HDMISource::from_token(Some("Gpu")), HDMISource::Unknown);
    assert_eq!(HDMISource::from_token(Some("gpu ")), HDMISource::Unknown);
    assert_eq!(HDMISource::from_token(Some("")), HDMISource::Unknown);
    assert_eq!(HDMISource::from_token(Some("connected")), HDMISource::Unknown);
    assert_eq!(HDMISource::from_token(None), HDMISource::Unknown);
}

#[test]
fn cable_state_of_a_word() {
    assert_eq!(HDMICableState::from_token(Some("connected")), HDMICableState::Connected);
    assert_eq!(HDMICableState::from_token(Some("unconnected")), HDMICableState::Unconnected);
    assert_eq!(HDMICableState::from_token(Some("unknown")), HDMICableState::Unknown);
    assert_eq!(HDMICableState::from_token(Some("CONNECTED")), HDMICableState::Unknown);
    assert_eq!(HDMICableState::from_token(Some("disconnected")), HDMICableState::Unknown);
    assert_eq!(HDMICableState::from_token(Some("cable")), HDMICableState::Unknown);
    assert_eq!(HDMICableState::from_token(None), HDMICableState::Unknown);
}

#[test]
fn source_is_decoded() {
    assert_eq!(Alienware::parse_source("cable [gpu] unknown"), HDMISource::Gpu);
    assert_eq!(Alienware::parse_source("[cable] gpu unknown"), HDMISource::Cable);
    assert_eq!(Alienware::parse_source("cable gpu [unknown]"), HDMISource::Unknown);
}

#[test]
fn source_without_brackets_is_unknown() {
    assert_eq!(Alienware::parse_source("cable gpu unknown"), HDMISource::Unknown);
    assert_eq!(Alienware::parse_source(""), HDMISource::Unknown);
}

#[test]
fn source_of_another_word_is_unknown() {
    assert_eq!(Alienware::parse_source("cable [hdmi] gpu"), HDMISource::Unknown);
    assert_eq!(Alienware::parse_source("cable [GPU] unknown"), HDMISource::Unknown);
    assert_eq!(Alienware::parse_source("[ gpu] cable"), HDMISource::Unknown);
    assert_eq!(Alienware::parse_source("[connected]"), HDMISource::Unknown);
}

#[test]
fn cable_state_is_decoded() {
    assert_eq!(
        Alienware::parse_cable_state("unconnected [connected] unknown"),
        HDMICableState::Connected
    );
    assert_eq!(
        Alienware::parse_cable_state("[unconnected] connected unknown"),
        HDMICableState::Unconnected
    );
    assert_eq!(
        Alienware::parse_cable_state("unconnected connected [unknown]"),
        HDMICableState::Unknown
    );
}

#[test]
fn cable_state_without_brackets_is_unknown() {
    assert_eq!(
        Alienware::parse_cable_state("unconnected connected unknown"),
        HDMICableState::Unknown
    );
}

#[test]
fn cable_state_of_another_word_is_unknown() {
    assert_eq!(Alienware::parse_cable_state("[Connected]"), HDMICableState::Unknown);
    assert_eq!(Alienware::parse_cable_state("[gpu]"), HDMICableState::Unknown);
}

#[test]
fn zone_colour_keeps_its_zone() {
    assert_eq!(
        Alienware::parse_rgb_zone(Zone::Left, "red: 0, green: 15, blue: 0"),
        RGBZone { zone: Zone::Left, red: 0, green: 15, blue: 0 }
    );
    assert_eq!(
        Alienware::parse_rgb_zone(Zone::Right, "nothing"),
        RGBZone { zone: Zone::Right, red: 0, green: 0, blue: 0 }
    );
}

#[test]
fn decimal_numbers_up_to_255() {
    assert_eq!(parse_u8("0"), Some(0));
    assert_eq!(parse_u8("9"), Some(9));
    assert_eq!(parse_u8("15"), Some(15));
    assert_eq!(parse_u8("249"), Some(249));
    assert_eq!(parse_u8("250"), Some(250));
    assert_eq!(parse_u8("255"), Some(255));
    assert_eq!(parse_u8("00000000000000000000000000000000255"), Some(255));
    assert_eq!(parse_u8("256"), None);
    assert_eq!(parse_u8("260"), None);
    assert_eq!(parse_u8("1000"), None);
    assert_eq!(parse_u8("2550"), None);
    assert_eq!(parse_u8("99999999999999999999999999999999999"), None);
}

#[test]
fn decimal_numbers_agree_with_the_standard_library() {
    for value in 0..=300u32 {
        let text = value.to_string();
        assert_eq!(parse_u8(text.as_str()), text.parse::<u8>().ok());
    }
}

#[test]
fn decimal_numbers_are_digits_only() {
    assert_eq!(parse_u8(""), None);
    assert_eq!(parse_u8(" 1"), None);
    assert_eq!(parse_u8("1 "), None);
    assert_eq!(parse_u8("+1"), None);
    assert_eq!(parse_u8("-1"), None);
    assert_eq!(parse_u8("1a"), None);
    assert_eq!(parse_u8("a1"), None);
    assert_eq!(parse_u8("0x1"), None);
    assert_eq!(parse_u8("1_0"), None);
    assert_eq!(parse_u8("/"), None);
    assert_eq!(parse_u8(":"), None);
    assert_eq!(parse_u8("\u{661}"), None);
    assert_eq!(parse_u8("1\u{e9}"), None);
}

#[test]
fn group_of_a_search() {
    let found = groups(&[Some("[gpu]"), Some("gpu"), None]);
    assert_eq!(group_text(&found, 0), Some("[gpu]"));
    assert_eq!(group_text(&found, 1), Some("gpu"));
    assert_eq!(group_text(&found, 2), None);
    assert_eq!(group_text(&found, 3), None);
    assert_eq!(group_text(&None, 0), None);
    assert_eq!(group_text(&None, 1), None);
}

#[test]
fn colour_of_a_search() {
    assert_eq!(
        colour_from_captures(&groups(&[Some("all"), Some("1"), Some("2"), Some("3")])),
        (1, 2, 3)
    );
    assert_eq!(colour_from_captures(&None), (0, 0, 0));
    assert_eq!(colour_from_captures(&groups(&[])), (0, 0, 0));
    assert_eq!(colour_from_captures(&groups(&[Some("all"), Some("1"), Some("2")])), (0, 0, 0));
    assert_eq!(
        colour_from_captures(&groups(&[Some("all"), Some("1"), Some("2"), Some("3"), Some("4")])),
        (0, 0, 0)
    );
    assert_eq!(
        colour_from_captures(&groups(&[Some("all"), Some("1"), None, Some("3")])),
        (0, 0, 0)
    );
    assert_eq!(
        colour_from_captures(&groups(&[Some("all"), Some("1"), Some("256"), Some("3")])),
        (0, 0, 0)
    );
    assert_eq!(
        colour_from_captures(&groups(&[Some("all"), Some("1"), Some("2"), Some("x")])),
        (0, 0, 0)
    );
    assert_eq!(
        colour_from_captures(&groups(&[None, Some("255"), Some("0"), Some("7")])),
        (255, 0, 7)
    );
}
