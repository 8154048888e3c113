use roon_tui::theme::{
    choose_theme_location, get_theme_color, hex_color_would_split_char, parse_hex_color, ThemeColor,
    ThemeColors, ThemeLocation,
};

#[test]
fn parses_hash_prefixed_hex() {
    assert_eq!(parse_hex_color("#9ccfd8"), Some(ThemeColor::Rgb(0x9c, 0xcf, 0xd8)));
}

#[test]
fn parses_without_hash_and_upper_case() {
    assert_eq!(parse_hex_color("9CCFD8"), Some(ThemeColor::Rgb(0x9c, 0xcf, 0xd8)));
}

#[test]
fn leading_hashes_are_all_dropped() {
    assert_eq!(parse_hex_color("###000000"), Some(ThemeColor::Rgb(0, 0, 0)));
    assert_eq!(parse_hex_color("##ffffff"), parse_hex_color("ffffff"));
}

#[test]
fn plus_signed_pairs_are_accepted() {
    assert_eq!(parse_hex_color("#+f+f+f"), Some(ThemeColor::Rgb(15, 15, 15)));
}

#[test]
fn wrong_length_or_digits_give_none() {
    assert_eq!(parse_hex_color("#12345"), None);
    assert_eq!(parse_hex_color("#1234567"), None);
    assert_eq!(parse_hex_color("#gg0000"), None);
    assert_eq!(parse_hex_color("#-10000"), None);
    assert_eq!(parse_hex_color("Reset"), None);
    assert_eq!(parse_hex_color(""), None);
    assert_eq!(parse_hex_color("#"), None);
}

#[test]
fn two_byte_character_pair_gives_none() {
    // "é" takes the first two bytes on its own.
    assert!(!hex_color_would_split_char("é1234"));
    assert_eq!(parse_hex_color("é1234"), None);
}

#[test]
fn split_characters_are_detected() {
    assert!(hex_color_would_split_char("#aé123"));
    assert!(hex_color_would_split_char("ab€x"));
    assert!(!hex_color_would_split_char("#abcdef"));
    assert!(!hex_color_would_split_char("#abcdefé"));
}

#[test]
fn default_theme_colors() {
    let theme = ThemeColors::default();
    assert_eq!(theme.get_color("THEME_TITLE_FG"), Some(ThemeColor::Rgb(0x9c, 0xcf, 0xd8)));
    assert_eq!(theme.get_color("THEME_BG"), None);
    assert_eq!(theme.get_color("THEME_TEXT_FG"), None);
    assert!(theme.lookups_are_safe());
}

#[test]
fn default_background_falls_back() {
    let theme = ThemeColors::default();
    assert_eq!(get_theme_color(&theme, "THEME_BG", ThemeColor::Reset), ThemeColor::Reset);
    assert_eq!(
        get_theme_color(&theme, "THEME_BG", ThemeColor::Rgb(1, 2, 3)),
        ThemeColor::Rgb(1, 2, 3)
    );
    assert_eq!(
        get_theme_color(&theme, "THEME_TITLE_FG", ThemeColor::Reset),
        ThemeColor::Rgb(0x9c, 0xcf, 0xd8)
    );
}

#[test]
fn insert_then_lookup() {
    let mut theme = ThemeColors::new();
    assert_eq!(theme.get_color("THEME_GAUGE_BG"), None);
    theme.insert("THEME_GAUGE_BG".to_string(), "#303030".to_string());
    assert_eq!(theme.get_color("THEME_GAUGE_BG"), Some(ThemeColor::Rgb(0x30, 0x30, 0x30)));
    theme.insert("THEME_GAUGE_BG".to_string(), "#010203".to_string());
    assert_eq!(theme.get_color("THEME_GAUGE_BG"), Some(ThemeColor::Rgb(1, 2, 3)));
    theme.insert("THEME_GAUGE_FG".to_string(), "not a colour".to_string());
    assert_eq!(theme.get_color("THEME_GAUGE_FG"), None);
    assert_eq!(theme.get_color("THEME_GAUGE_BG"), Some(ThemeColor::Rgb(1, 2, 3)));
}

#[test]
fn unsafe_values_are_reported() {
    let mut theme = ThemeColors::new();
    theme.insert("THEME_BG".to_string(), "#000000".to_string());
    assert!(theme.lookups_are_safe());
    theme.insert("THEME_X".to_string(), "#aé123".to_string());
    assert!(!theme.lookups_are_safe());
}

#[test]
fn theme_location_priority() {
    assert_eq!(choose_theme_location(Some(true), Some(true), true), ThemeLocation::DataDir);
    assert_eq!(choose_theme_location(Some(false), Some(true), true), ThemeLocation::ConfigDir);
    assert_eq!(choose_theme_location(None, Some(true), false), ThemeLocation::ConfigDir);
    assert_eq!(choose_theme_location(Some(false), Some(false), true), ThemeLocation::CurrentDir);
    assert_eq!(choose_theme_location(Some(false), None, false), ThemeLocation::DataDir);
    assert_eq!(choose_theme_location(None, Some(false), false), ThemeLocation::CurrentDir);
    assert_eq!(choose_theme_location(None, None, false), ThemeLocation::CurrentDir);
}

#[test]
fn default_theme_pairs() {
    let mut pairs = ThemeColors::default().to_pairs();
    pairs.sort();
    assert_eq!(
        pairs,
        vec![
            ("THEME_BG".to_string(), "Reset".to_string()),
            ("THEME_TITLE_FG".to_string(), "#9ccfd8".to_string()),
        ]
    );
}

#[test]
fn pairs_hold_each_key_once() {
    let mut theme = ThemeColors::new();
    theme.insert("A".to_string(), "#000001".to_string());
    theme.insert("B".to_string(), "#000002".to_string());
    theme.insert("A".to_string(), "#000003".to_string());
    let mut pairs = theme.to_pairs();
    pairs.sort();
    assert_eq!(
        pairs,
        vec![("A".to_string(), "#000003".to_string()), ("B".to_string(), "#000002".to_string())]
    );
}

#[test]
fn written_rgb_colours_parse_back() {
    // ratatui writes RGB colours as upper-case `#RRGGBB`.
    assert_eq!(parse_hex_color("#0A1B2C"), Some(ThemeColor::Rgb(0x0a, 0x1b, 0x2c)));
    assert_eq!(parse_hex_color("#FFFFFF"), Some(ThemeColor::Rgb(255, 255, 255)));
}
