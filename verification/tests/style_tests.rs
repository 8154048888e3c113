use roon_tui::style::{
    accent_title_style, browse_secondary_style, focus_text_style, gauge_label_style,
    get_border_view_style, get_browse_title_style, get_gauge_view_style, get_playing_title_style,
    get_queue_title_style, get_text_view_style, highlight_style, is_selected_view,
    now_playing_name_style, Pane, TextStyle,
};
use roon_tui::theme::{ThemeColor, ThemeColors};

const GRAY: ThemeColor = ThemeColor::Rgb(0x80, 0x80, 0x80);
const BRAND: ThemeColor = ThemeColor::Rgb(0x75, 0x75, 0xf3);
const DARK: ThemeColor = ThemeColor::Rgb(0x30, 0x30, 0x30);

fn fg(c: ThemeColor) -> TextStyle {
    TextStyle { fg: Some(c), bg: None, bold: false, italic: false }
}

fn theme_with(key: &str, value: &str) -> ThemeColors {
    let mut theme = ThemeColors::new();
    theme.insert(key.to_string(), value.to_string());
    theme
}

#[test]
fn selected_view_needs_both() {
    assert!(is_selected_view(Some(Pane::Queue), Some(Pane::Queue)));
    assert!(!is_selected_view(Some(Pane::Queue), Some(Pane::Browse)));
    assert!(!is_selected_view(None, Some(Pane::Browse)));
    assert!(!is_selected_view(Some(Pane::Queue), None));
    assert!(!is_selected_view(None, None));
}

#[test]
fn border_colours() {
    let theme = theme_with("THEME_QUEUE_BORDER", "#010101");
    let focused = get_border_view_style(&theme, Some(Pane::Queue), Some(Pane::Queue), "THEME_QUEUE_BORDER", "THEME_QUEUE_BORDER_SELECTED");
    assert_eq!(focused, fg(BRAND));
    let other = get_border_view_style(&theme, Some(Pane::Browse), Some(Pane::Queue), "THEME_QUEUE_BORDER", "THEME_QUEUE_BORDER_SELECTED");
    assert_eq!(other, fg(ThemeColor::Rgb(1, 1, 1)));
    let none = get_border_view_style(&theme, None, Some(Pane::Queue), "", "");
    assert_eq!(none, fg(GRAY));
    let frame = get_border_view_style(&theme, Some(Pane::Queue), None, "", "");
    assert_eq!(frame, fg(GRAY));
}

#[test]
fn text_view_styles() {
    let theme = ThemeColors::new();
    assert_eq!(
        get_text_view_style(&theme, Some(Pane::Browse), Some(Pane::Browse)),
        TextStyle { fg: Some(ThemeColor::Reset), bg: None, bold: true, italic: false }
    );
    assert_eq!(get_text_view_style(&theme, Some(Pane::Queue), Some(Pane::Browse)), fg(GRAY));
    assert_eq!(get_text_view_style(&theme, None, Some(Pane::Browse)), fg(GRAY));
    assert_eq!(
        get_text_view_style(&theme, None, None),
        TextStyle { fg: Some(GRAY), bg: Some(ThemeColor::Reset), bold: true, italic: false }
    );
    assert_eq!(
        get_text_view_style(&theme, Some(Pane::Queue), None),
        TextStyle { fg: Some(GRAY), bg: Some(ThemeColor::Reset), bold: false, italic: false }
    );
    let themed = ThemeColors::default();
    assert_eq!(
        get_text_view_style(&themed, None, None).fg,
        Some(ThemeColor::Rgb(0x9c, 0xcf, 0xd8))
    );
}

#[test]
fn gauge_styles() {
    let theme = ThemeColors::new();
    let np = Some(Pane::NowPlaying);
    assert_eq!(get_gauge_view_style(&theme, np, np), TextStyle { fg: Some(BRAND), bg: Some(DARK), bold: false, italic: false });
    assert_eq!(get_gauge_view_style(&theme, Some(Pane::Queue), np), TextStyle { fg: Some(GRAY), bg: Some(DARK), bold: false, italic: false });
    assert_eq!(get_gauge_view_style(&theme, None, np), TextStyle { fg: Some(DARK), bg: Some(DARK), bold: false, italic: false });
    assert_eq!(get_gauge_view_style(&theme, None, None), TextStyle { fg: None, bg: Some(DARK), bold: false, italic: false });
    assert_eq!(gauge_label_style(&theme, np, np), TextStyle { fg: Some(ThemeColor::Reset), bg: None, bold: true, italic: false });
    assert_eq!(gauge_label_style(&theme, None, np), TextStyle { fg: Some(GRAY), bg: None, bold: true, italic: false });
}

#[test]
fn title_styles() {
    let theme = theme_with("THEME_BROWSE_TITLE_FG_SELECTED", "#ff0000");
    assert_eq!(
        get_browse_title_style(&theme, Some(Pane::Browse)),
        TextStyle { fg: Some(ThemeColor::Rgb(255, 0, 0)), bg: Some(ThemeColor::Reset), bold: true, italic: false }
    );
    assert_eq!(
        get_queue_title_style(&theme, Some(Pane::Browse)),
        TextStyle { fg: Some(GRAY), bg: Some(ThemeColor::Reset), bold: false, italic: false }
    );
    assert_eq!(
        get_playing_title_style(&theme, Some(Pane::NowPlaying)),
        TextStyle { fg: Some(ThemeColor::Reset), bg: Some(ThemeColor::Reset), bold: true, italic: false }
    );
}

#[test]
fn secondary_and_focus_styles() {
    let theme = ThemeColors::new();
    assert_eq!(browse_secondary_style(Some(Pane::Queue)), TextStyle { fg: None, bg: None, bold: false, italic: true });
    assert_eq!(browse_secondary_style(None), TextStyle { fg: Some(GRAY), bg: None, bold: false, italic: true });
    let q = Some(Pane::Queue);
    assert_eq!(focus_text_style(&theme, q, q, true), TextStyle { fg: Some(ThemeColor::Reset), bg: None, bold: false, italic: true });
    assert_eq!(focus_text_style(&theme, None, q, false), fg(GRAY));
}

#[test]
fn name_accent_and_highlight_styles() {
    let theme = theme_with("THEME_NOW_PLAYING_BORDER_SELECTED", "#00ff00");
    let np = Some(Pane::NowPlaying);
    assert_eq!(
        now_playing_name_style(&theme, np, np),
        TextStyle { fg: Some(ThemeColor::Rgb(0, 255, 0)), bg: None, bold: true, italic: false }
    );
    assert_eq!(now_playing_name_style(&theme, None, np), fg(GRAY));
    assert_eq!(
        accent_title_style(&theme, None, None, "THEME_ZONES_TITLE_FG", "THEME_ZONES_TITLE_BG"),
        TextStyle { fg: Some(GRAY), bg: Some(ThemeColor::Reset), bold: true, italic: false }
    );
    assert_eq!(highlight_style(&theme, ""), TextStyle { fg: None, bg: Some(BRAND), bold: true, italic: false });
    let hl = theme_with("THEME_HIGHLIGHT", "#123456");
    assert_eq!(highlight_style(&hl, "THEME_HIGHLIGHT").bg, Some(ThemeColor::Rgb(0x12, 0x34, 0x56)));
}
