//! Which colours and emphasis each pane, title and gauge is drawn with,
//! given the theme and the pane that has the focus.

use vstd::prelude::*;
use crate::theme::{ThemeColor, ThemeColors, color_lookup_safe, color_or, get_theme_color, hex_color};

verus! {

/// The panes and pop-ups of the client.
#[derive(Clone, Copy, Debug, PartialEq, Eq, Structural)]
pub enum Pane {
    Browse,
    Queue,
    NowPlaying,
    Prompt,
    Zones,
    Grouping,
    GroupingPreset,
    Help,
}

/// A text style: optional foreground and background colours, and emphasis.
#[derive(Clone, Copy, Debug, PartialEq, Eq, Structural)]
pub struct TextStyle {
    pub fg: Option<ThemeColor>,
    pub bg: Option<ThemeColor>,
    pub bold: bool,
    pub italic: bool,
}

/// The grey of borders and text of panes without the focus.
pub open spec fn custom_gray() -> ThemeColor {
    ThemeColor::Rgb(0x80, 0x80, 0x80)
}

/// The brand colour of the highlighted items and the focused borders.
pub open spec fn roon_brand_color() -> ThemeColor {
    ThemeColor::Rgb(0x75, 0x75, 0xf3)
}

/// The dark grey of an unfocused gauge.
pub open spec fn gauge_dark() -> ThemeColor {
    ThemeColor::Rgb(0x30, 0x30, 0x30)
}

/// The style with nothing set.
pub open spec fn plain() -> TextStyle {
    TextStyle { fg: None, bg: None, bold: false, italic: false }
}

/// True when `view` is the pane that has the focus.
pub open spec fn selected_is(selected: Option<Pane>, view: Option<Pane>) -> bool {
    view is Some && selected == view
}

/// A theme key may be looked up in `theme`.
pub open spec fn key_safe(theme: &ThemeColors, key: Seq<char>) -> bool {
    color_lookup_safe(theme@, key)
}

/// Tells whether `view` is the pane that has the focus; false when no pane has
/// it or no pane is asked about.
pub fn is_selected_view(selected: Option<Pane>, view: Option<Pane>) -> (res: bool)
    ensures
        res == selected_is(selected, view),
{
    if let Some(selected_view) = selected {
        if let Some(view) = view {
            return selected_view == view;
        }
    }
    false
}

/// The colour of `key`, or `fallback` when the key is empty and not looked up.
pub open spec fn keyed_color(theme: &ThemeColors, key: Seq<char>, fallback: ThemeColor) -> ThemeColor {
    if key.len() == 0 {
        fallback
    } else {
        color_or(theme@, key, fallback)
    }
}

/// The border of a pane: the colour of `selected_theme_key` (brand colour by
/// default) when the pane has the focus, else that of `default_theme_key`
/// (grey by default). An empty key stands for its default colour.
pub fn get_border_view_style(
    theme: &ThemeColors,
    selected: Option<Pane>,
    view: Option<Pane>,
    default_theme_key: &str,
    selected_theme_key: &str,
) -> (res: TextStyle)
    requires
        default_theme_key@.len() > 0 ==> key_safe(theme, default_theme_key@),
        selected_theme_key@.len() > 0 ==> key_safe(theme, selected_theme_key@),
    ensures
        res == (TextStyle {
            fg: Some(
                if selected_is(selected, view) {
                    keyed_color(theme, selected_theme_key@, roon_brand_color())
                } else {
                    keyed_color(theme, default_theme_key@, custom_gray())
                },
            ),
            ..plain()
        }),
{
    let border_color = if default_theme_key.is_empty() {
        ThemeColor::Rgb(0x80, 0x80, 0x80)
    } else {
        get_theme_color(theme, default_theme_key, ThemeColor::Rgb(0x80, 0x80, 0x80))
    };
    let border_selected_color = if selected_theme_key.is_empty() {
        ThemeColor::Rgb(0x75, 0x75, 0xf3)
    } else {
        get_theme_color(theme, selected_theme_key, ThemeColor::Rgb(0x75, 0x75, 0xf3))
    };
    let mut style = TextStyle { fg: None, bg: None, bold: false, italic: false };
    if let Some(selected_view) = selected {
        if let Some(view) = view {
            if selected_view == view {
                style.fg = Some(border_selected_color);
            } else {
                style.fg = Some(border_color);
            }
        }
    } else {
        style.fg = Some(border_color);
    }
    if view.is_none() {
        style.fg = Some(border_color);
    }
    style
}

/// The style of text in a pane: the focused pane's text is bold in
/// `THEME_TEXT_FG_SELECTED`, other panes' text is in `THEME_TEXT_FG`; text that
/// belongs to no pane (`view` is `None`) is in the title colours, and bold
/// while no pane has the focus.
pub open spec fn text_view_style(theme: &ThemeColors, selected: Option<Pane>, view: Option<Pane>) -> TextStyle {
    if view is None {
        TextStyle {
            fg: Some(color_or(theme@, "THEME_TITLE_FG"@, custom_gray())),
            bg: Some(color_or(theme@, "THEME_TITLE_BG"@, ThemeColor::Reset)),
            bold: selected is None,
            italic: false,
        }
    } else if selected == view {
        TextStyle {
            fg: Some(color_or(theme@, "THEME_TEXT_FG_SELECTED"@, ThemeColor::Reset)),
            bold: true,
            ..plain()
        }
    } else {
        TextStyle { fg: Some(color_or(theme@, "THEME_TEXT_FG"@, custom_gray())), ..plain() }
    }
}

/// The keys that `get_text_view_style` looks up may be looked up.
pub open spec fn text_view_keys_safe(theme: &ThemeColors, selected: Option<Pane>, view: Option<Pane>) -> bool {
    &&& key_safe(theme, "THEME_TEXT_FG"@)
    &&& selected_is(selected, view) ==> key_safe(theme, "THEME_TEXT_FG_SELECTED"@)
    &&& view is None ==> key_safe(theme, "THEME_TITLE_FG"@) && key_safe(theme, "THEME_TITLE_BG"@)
}

/// The style of the text of pane `view` (or of the surrounding frame, for
/// `None`) while `selected` has the focus.
pub fn get_text_view_style(theme: &ThemeColors, selected: Option<Pane>, view: Option<Pane>) -> (res: TextStyle)
    requires
        text_view_keys_safe(theme, selected, view),
    ensures
        res == text_view_style(theme, selected, view),
{
    let mut style = TextStyle {
        fg: Some(get_theme_color(theme, "THEME_TEXT_FG", ThemeColor::Rgb(0x80, 0x80, 0x80))),
        bg: None,
        bold: false,
        italic: false,
    };
    if let Some(selected_view) = selected {
        if let Some(view) = view {
            if selected_view == view {
                style.fg = Some(get_theme_color(theme, "THEME_TEXT_FG_SELECTED", ThemeColor::Reset));
                style.bold = true;
            }
        }
    } else if view.is_none() {
        style.fg = Some(get_theme_color(theme, "THEME_TEXT_FG", ThemeColor::Rgb(0x80, 0x80, 0x80)));
        style.bold = true;
    } else {
        style.fg = Some(get_theme_color(theme, "THEME_TEXT_FG", ThemeColor::Rgb(0x80, 0x80, 0x80)));
    }
    if view.is_none() {
        style.fg = Some(get_theme_color(theme, "THEME_TITLE_FG", ThemeColor::Rgb(0x80, 0x80, 0x80)));
        style.bg = Some(get_theme_color(theme, "THEME_TITLE_BG", ThemeColor::Reset));
    }
    style
}

/// The style of the progress gauge of pane `view`: always the `THEME_GAUGE_BG`
/// background; the bar in `THEME_GAUGE_FG_SELECTED` when the pane has the
/// focus, `THEME_GAUGE_FG` when another pane has it, dark grey when none has
/// it.
pub open spec fn gauge_view_style(theme: &ThemeColors, selected: Option<Pane>, view: Option<Pane>) -> TextStyle {
    TextStyle {
        fg: match (selected, view) {
            (Some(s), Some(v)) => Some(
                if s == v {
                    color_or(theme@, "THEME_GAUGE_FG_SELECTED"@, roon_brand_color())
                } else {
                    color_or(theme@, "THEME_GAUGE_FG"@, custom_gray())
                },
            ),
            (None, Some(_)) => Some(gauge_dark()),
            (_, None) => None,
        },
        bg: Some(color_or(theme@, "THEME_GAUGE_BG"@, gauge_dark())),
        ..plain()
    }
}

/// The style of the progress gauge of pane `view` while `selected` has the focus.
pub fn get_gauge_view_style(theme: &ThemeColors, selected: Option<Pane>, view: Option<Pane>) -> (res: TextStyle)
    requires
        key_safe(theme, "THEME_GAUGE_BG"@),
        selected is Some && view is Some && selected == view ==> key_safe(theme, "THEME_GAUGE_FG_SELECTED"@),
        selected is Some && view is Some && selected != view ==> key_safe(theme, "THEME_GAUGE_FG"@),
    ensures
        res == gauge_view_style(theme, selected, view),
{
    let mut style = TextStyle {
        fg: None,
        bg: Some(get_theme_color(theme, "THEME_GAUGE_BG", ThemeColor::Rgb(0x30, 0x30, 0x30))),
        bold: false,
        italic: false,
    };
    if let Some(selected_view) = selected {
        if let Some(view) = view {
            if selected_view == view {
                style.fg = Some(get_theme_color(theme, "THEME_GAUGE_FG_SELECTED", ThemeColor::Rgb(0x75, 0x75, 0xf3)));
            } else {
                style.fg = Some(get_theme_color(theme, "THEME_GAUGE_FG", ThemeColor::Rgb(0x80, 0x80, 0x80)));
            }
        }
    } else if view.is_some() {
        style.fg = Some(ThemeColor::Rgb(0x30, 0x30, 0x30));
    }
    style
}

/// A pane title: bold in the `_SELECTED` colours when the pane has the focus,
/// else in the plain title colours.
pub open spec fn title_style(
    theme: &ThemeColors,
    focused: bool,
    fg_selected: Seq<char>,
    bg_selected: Seq<char>,
    fg: Seq<char>,
    bg: Seq<char>,
) -> TextStyle {
    if focused {
        TextStyle {
            fg: Some(color_or(theme@, fg_selected, ThemeColor::Reset)),
            bg: Some(color_or(theme@, bg_selected, ThemeColor::Reset)),
            bold: true,
            italic: false,
        }
    } else {
        TextStyle {
            fg: Some(color_or(theme@, fg, custom_gray())),
            bg: Some(color_or(theme@, bg, ThemeColor::Reset)),
            bold: false,
            italic: false,
        }
    }
}

fn pane_title_style(
    theme: &ThemeColors,
    focused: bool,
    fg_selected: &str,
    bg_selected: &str,
    fg: &str,
    bg: &str,
) -> (res: TextStyle)
    requires
        focused ==> key_safe(theme, fg_selected@) && key_safe(theme, bg_selected@),
        !focused ==> key_safe(theme, fg@) && key_safe(theme, bg@),
    ensures
        res == title_style(theme, focused, fg_selected@, bg_selected@, fg@, bg@),
{
    if focused {
        TextStyle {
            fg: Some(get_theme_color(theme, fg_selected, ThemeColor::Reset)),
            bg: Some(get_theme_color(theme, bg_selected, ThemeColor::Reset)),
            bold: true,
            italic: false,
        }
    } else {
        TextStyle {
            fg: Some(get_theme_color(theme, fg, ThemeColor::Rgb(0x80, 0x80, 0x80))),
            bg: Some(get_theme_color(theme, bg, ThemeColor::Reset)),
            bold: false,
            italic: false,
        }
    }
}

/// The style of the browse pane's title.
pub fn get_browse_title_style(theme: &ThemeColors, selected: Option<Pane>) -> (res: TextStyle)
    requires
        selected == Some(Pane::Browse) ==> key_safe(theme, "THEME_BROWSE_TITLE_FG_SELECTED"@)
            && key_safe(theme, "THEME_BROWSE_TITLE_BG_SELECTED"@),
        selected != Some(Pane::Browse) ==> key_safe(theme, "THEME_BROWSE_TITLE_FG"@)
            && key_safe(theme, "THEME_BROWSE_TITLE_BG"@),
    ensures
        res == title_style(
            theme,
            selected == Some(Pane::Browse),
            "THEME_BROWSE_TITLE_FG_SELECTED"@,
            "THEME_BROWSE_TITLE_BG_SELECTED"@,
            "THEME_BROWSE_TITLE_FG"@,
            "THEME_BROWSE_TITLE_BG"@,
        ),
{
    pane_title_style(
        theme,
        is_selected_view(selected, Some(Pane::Browse)),
        "THEME_BROWSE_TITLE_FG_SELECTED",
        "THEME_BROWSE_TITLE_BG_SELECTED",
        "THEME_BROWSE_TITLE_FG",
        "THEME_BROWSE_TITLE_BG",
    )
}

/// The style of the queue pane's title.
pub fn get_queue_title_style(theme: &ThemeColors, selected: Option<Pane>) -> (res: TextStyle)
    requires
        selected == Some(Pane::Queue) ==> key_safe(theme, "THEME_QUEUE_TITLE_FG_SELECTED"@)
            && key_safe(theme, "THEME_QUEUE_TITLE_BG_SELECTED"@),
        selected != Some(Pane::Queue) ==> key_safe(theme, "THEME_QUEUE_TITLE_FG"@)
            && key_safe(theme, "THEME_QUEUE_TITLE_BG"@),
    ensures
        res == title_style(
            theme,
            selected == Some(Pane::Queue),
            "THEME_QUEUE_TITLE_FG_SELECTED"@,
            "THEME_QUEUE_TITLE_BG_SELECTED"@,
            "THEME_QUEUE_TITLE_FG"@,
            "THEME_QUEUE_TITLE_BG"@,
        ),
{
    pane_title_style(
        theme,
        is_selected_view(selected, Some(Pane::Queue)),
        "THEME_QUEUE_TITLE_FG_SELECTED",
        "THEME_QUEUE_TITLE_BG_SELECTED",
        "THEME_QUEUE_TITLE_FG",
        "THEME_QUEUE_TITLE_BG",
    )
}

/// The style of the play-state title of the now-playing pane.
pub fn get_playing_title_style(theme: &ThemeColors, selected: Option<Pane>) -> (res: TextStyle)
    requires
        selected == Some(Pane::NowPlaying) ==> key_safe(theme, "THEME_NOW_PLAYING_TITLE_FG_SELECTED"@)
            && key_safe(theme, "THEME_NOW_PLAYING_TITLE_BG_SELECTED"@),
        selected != Some(Pane::NowPlaying) ==> key_safe(theme, "THEME_NOW_PLAYING_TITLE_FG"@)
            && key_safe(theme, "THEME_NOW_PLAYING_TITLE_BG"@),
    ensures
        res == title_style(
            theme,
            selected == Some(Pane::NowPlaying),
            "THEME_NOW_PLAYING_TITLE_FG_SELECTED"@,
            "THEME_NOW_PLAYING_TITLE_BG_SELECTED"@,
            "THEME_NOW_PLAYING_TITLE_FG"@,
            "THEME_NOW_PLAYING_TITLE_BG"@,
        ),
{
    pane_title_style(
        theme,
        is_selected_view(selected, Some(Pane::NowPlaying)),
        "THEME_NOW_PLAYING_TITLE_FG_SELECTED",
        "THEME_NOW_PLAYING_TITLE_BG_SELECTED",
        "THEME_NOW_PLAYING_TITLE_FG",
        "THEME_NOW_PLAYING_TITLE_BG",
    )
}

/// The style of the browse items' second lines: italic, and grey as long as
/// no pane has the focus.
pub fn browse_secondary_style(selected: Option<Pane>) -> (res: TextStyle)
    ensures
        res == (if selected is Some {
            TextStyle { italic: true, ..plain() }
        } else {
            TextStyle { fg: Some(custom_gray()), italic: true, ..plain() }
        }),
{
    if selected.is_some() {
        TextStyle { fg: None, bg: None, bold: false, italic: true }
    } else {
        TextStyle { fg: Some(ThemeColor::Rgb(0x80, 0x80, 0x80)), bg: None, bold: false, italic: true }
    }
}

/// Text of pane `view` that follows the focus: `THEME_TEXT_FG_SELECTED` when
/// `selected` is `view`, else `THEME_TEXT_FG`; italic as asked.
pub fn focus_text_style(theme: &ThemeColors, selected: Option<Pane>, view: Option<Pane>, italic: bool) -> (res: TextStyle)
    requires
        selected == view ==> key_safe(theme, "THEME_TEXT_FG_SELECTED"@),
        selected != view ==> key_safe(theme, "THEME_TEXT_FG"@),
    ensures
        res == (TextStyle {
            fg: Some(
                if selected == view {
                    color_or(theme@, "THEME_TEXT_FG_SELECTED"@, ThemeColor::Reset)
                } else {
                    color_or(theme@, "THEME_TEXT_FG"@, custom_gray())
                },
            ),
            italic,
            ..plain()
        }),
{
    let fg = if selected == view {
        get_theme_color(theme, "THEME_TEXT_FG_SELECTED", ThemeColor::Reset)
    } else {
        get_theme_color(theme, "THEME_TEXT_FG", ThemeColor::Rgb(0x80, 0x80, 0x80))
    };
    TextStyle { fg: Some(fg), bg: None, bold: false, italic }
}

/// The bold label of the progress gauge of pane `view`.
pub fn gauge_label_style(theme: &ThemeColors, selected: Option<Pane>, view: Option<Pane>) -> (res: TextStyle)
    requires
        selected == view ==> key_safe(theme, "THEME_GAUGE_LABEL_FG_SELECTED"@),
        selected != view ==> key_safe(theme, "THEME_GAUGE_LABEL_FG"@),
    ensures
        res == (TextStyle {
            fg: Some(
                if selected == view {
                    color_or(theme@, "THEME_GAUGE_LABEL_FG_SELECTED"@, ThemeColor::Reset)
                } else {
                    color_or(theme@, "THEME_GAUGE_LABEL_FG"@, custom_gray())
                },
            ),
            bold: true,
            ..plain()
        }),
{
    let fg = if selected == view {
        get_theme_color(theme, "THEME_GAUGE_LABEL_FG_SELECTED", ThemeColor::Reset)
    } else {
        get_theme_color(theme, "THEME_GAUGE_LABEL_FG", ThemeColor::Rgb(0x80, 0x80, 0x80))
    };
    TextStyle { fg: Some(fg), bg: None, bold: true, italic: false }
}

/// The zone name in the now-playing pane's title: the text style of the
/// pane, recoloured with `THEME_NOW_PLAYING_BORDER_SELECTED` when the pane
/// has the focus and with `THEME_TEXT_FG` otherwise.
pub fn now_playing_name_style(theme: &ThemeColors, selected: Option<Pane>, view: Option<Pane>) -> (res: TextStyle)
    requires
        text_view_keys_safe(theme, selected, view),
        selected_is(selected, view) ==> key_safe(theme, "THEME_NOW_PLAYING_BORDER_SELECTED"@),
    ensures
        res == (TextStyle {
            fg: Some(
                if selected_is(selected, view) {
                    color_or(theme@, "THEME_NOW_PLAYING_BORDER_SELECTED"@, custom_gray())
                } else {
                    color_or(theme@, "THEME_TEXT_FG"@, custom_gray())
                },
            ),
            ..text_view_style(theme, selected, view)
        }),
{
    let title_fg = if is_selected_view(selected, view) {
        "THEME_NOW_PLAYING_BORDER_SELECTED"
    } else {
        "THEME_TEXT_FG"
    };
    let style = get_text_view_style(theme, selected, view);
    TextStyle { fg: Some(get_theme_color(theme, title_fg, ThemeColor::Rgb(0x80, 0x80, 0x80))), ..style }
}

/// A pop-up's title: the text style of `view`, recoloured with the colours of
/// `fg_key` (grey by default) and `bg_key` (reset by default).
pub fn accent_title_style(
    theme: &ThemeColors,
    selected: Option<Pane>,
    view: Option<Pane>,
    fg_key: &str,
    bg_key: &str,
) -> (res: TextStyle)
    requires
        text_view_keys_safe(theme, selected, view),
        key_safe(theme, fg_key@),
        key_safe(theme, bg_key@),
    ensures
        res == (TextStyle {
            fg: Some(color_or(theme@, fg_key@, custom_gray())),
            bg: Some(color_or(theme@, bg_key@, ThemeColor::Reset)),
            ..text_view_style(theme, selected, view)
        }),
{
    let style = get_text_view_style(theme, selected, view);
    TextStyle {
        fg: Some(get_theme_color(theme, fg_key, ThemeColor::Rgb(0x80, 0x80, 0x80))),
        bg: Some(get_theme_color(theme, bg_key, ThemeColor::Reset)),
        ..style
    }
}

/// The style of the selected item of a list: bold on the colour of `key`, or
/// on the brand colour when `key` is empty or gives none.
pub fn highlight_style(theme: &ThemeColors, key: &str) -> (res: TextStyle)
    requires
        key@.len() > 0 ==> key_safe(theme, key@),
    ensures
        res == (TextStyle { bg: Some(keyed_color(theme, key@, roon_brand_color())), bold: true, ..plain() }),
{
    let bg = if key.is_empty() {
        ThemeColor::Rgb(0x75, 0x75, 0xf3)
    } else {
        get_theme_color(theme, key, ThemeColor::Rgb(0x75, 0x75, 0xf3))
    };
    TextStyle { fg: None, bg: Some(bg), bold: true, italic: false }
}

/// At most one pane has the focus, and none does while nothing is selected.
pub proof fn law_single_focus(selected: Option<Pane>, a: Pane, b: Pane)
    requires
        a != b,
    ensures
        !(selected_is(selected, Some(a)) && selected_is(selected, Some(b))),
        selected is None ==> !selected_is(selected, Some(a)),
{
}

/// The text of the focused pane is bold and that of every other pane is not.
pub proof fn law_focused_text_bold(theme: &ThemeColors, selected: Option<Pane>, view: Pane)
    ensures
        text_view_style(theme, selected, Some(view)).bold == selected_is(selected, Some(view)),
        text_view_style(theme, selected, Some(view)).bg is None,
{
}

/// The colour that a theme's entry for `key` gives, with `default` where the
/// theme has no entry for it, read off the map and the parser directly.
proof fn lemma_color_or_cases(colors: Map<Seq<char>, Seq<char>>, key: Seq<char>, default: ThemeColor)
    ensures
        !colors.contains_key(key) ==> color_or(colors, key, default) == default,
        colors.contains_key(key) && hex_color(colors[key]) is Some ==> color_or(colors, key, default)
            == hex_color(colors[key])->0,
{
}

/// The main frame's titles (no pane) take their text colour from the theme's
/// `THEME_TITLE_FG` entry (grey without one) and their background from its
/// `THEME_TITLE_BG` entry alone (the terminal's own background without one),
/// whatever the other entry holds.
pub proof fn law_frame_title_colors(theme: &ThemeColors, selected: Option<Pane>)
    ensures
        !theme@.contains_key("THEME_TITLE_BG"@) ==> text_view_style(theme, selected, None).bg
            == Some(ThemeColor::Reset),
        theme@.contains_key("THEME_TITLE_BG"@) && hex_color(theme@["THEME_TITLE_BG"@]) is Some
            ==> text_view_style(theme, selected, None).bg == Some(
            hex_color(theme@["THEME_TITLE_BG"@])->0,
        ),
        !theme@.contains_key("THEME_TITLE_FG"@) ==> text_view_style(theme, selected, None).fg
            == Some(custom_gray()),
        theme@.contains_key("THEME_TITLE_FG"@) && hex_color(theme@["THEME_TITLE_FG"@]) is Some
            ==> text_view_style(theme, selected, None).fg == Some(
            hex_color(theme@["THEME_TITLE_FG"@])->0,
        ),
{
    lemma_color_or_cases(theme@, "THEME_TITLE_BG"@, ThemeColor::Reset);
    lemma_color_or_cases(theme@, "THEME_TITLE_FG"@, custom_gray());
}

/// The background of the frame's titles does not follow `THEME_TITLE_FG`: a
/// theme that sets only the title's text colour keeps the terminal's own
/// background behind it.
pub proof fn law_frame_title_background_independent(theme: &ThemeColors, selected: Option<Pane>, c: ThemeColor)
    requires
        theme@.contains_key("THEME_TITLE_FG"@),
        hex_color(theme@["THEME_TITLE_FG"@]) == Some(c),
        !theme@.contains_key("THEME_TITLE_BG"@),
    ensures
        text_view_style(theme, selected, None).fg == Some(c),
        text_view_style(theme, selected, None).bg == Some(ThemeColor::Reset),
{
    law_frame_title_colors(theme, selected);
}

/// A pane title takes its text colour from the text key of its state and its
/// background from the background key: unfocused from `fg` (grey without an
/// entry) and `bg` (reset without one), focused from `fg_selected` and
/// `bg_selected` (reset without entries). Only focused titles are bold.
pub proof fn law_title_style_keys(
    theme: &ThemeColors,
    focused: bool,
    fg_selected: Seq<char>,
    bg_selected: Seq<char>,
    fg: Seq<char>,
    bg: Seq<char>,
)
    ensures
        ({
            let st = title_style(theme, focused, fg_selected, bg_selected, fg, bg);
            let fg_key = if focused { fg_selected } else { fg };
            let bg_key = if focused { bg_selected } else { bg };
            &&& st.bold == focused
            &&& !st.italic
            &&& !theme@.contains_key(fg_key) ==> st.fg == Some(
                if focused { ThemeColor::Reset } else { custom_gray() },
            )
            &&& theme@.contains_key(fg_key) && hex_color(theme@[fg_key]) is Some ==> st.fg == Some(
                hex_color(theme@[fg_key])->0,
            )
            &&& !theme@.contains_key(bg_key) ==> st.bg == Some(ThemeColor::Reset)
            &&& theme@.contains_key(bg_key) && hex_color(theme@[bg_key]) is Some ==> st.bg == Some(
                hex_color(theme@[bg_key])->0,
            )
        }),
{
    lemma_color_or_cases(theme@, fg_selected, ThemeColor::Reset);
    lemma_color_or_cases(theme@, bg_selected, ThemeColor::Reset);
    lemma_color_or_cases(theme@, fg, custom_gray());
    lemma_color_or_cases(theme@, bg, ThemeColor::Reset);
}

/// With a theme that sets only `THEME_QUEUE_TITLE_FG` to colour `c`, the
/// unfocused queue title is written in `c` on the terminal's own background.
pub proof fn law_queue_title_text_colour(theme: &ThemeColors, c: ThemeColor)
    requires
        theme@.contains_key("THEME_QUEUE_TITLE_FG"@),
        hex_color(theme@["THEME_QUEUE_TITLE_FG"@]) == Some(c),
        !theme@.contains_key("THEME_QUEUE_TITLE_BG"@),
    ensures
        title_style(
            theme,
            false,
            "THEME_QUEUE_TITLE_FG_SELECTED"@,
            "THEME_QUEUE_TITLE_BG_SELECTED"@,
            "THEME_QUEUE_TITLE_FG"@,
            "THEME_QUEUE_TITLE_BG"@,
        ) == (TextStyle { fg: Some(c), bg: Some(ThemeColor::Reset), bold: false, italic: false }),
{
    law_title_style_keys(
        theme,
        false,
        "THEME_QUEUE_TITLE_FG_SELECTED"@,
        "THEME_QUEUE_TITLE_BG_SELECTED"@,
        "THEME_QUEUE_TITLE_FG"@,
        "THEME_QUEUE_TITLE_BG"@,
    );
}

/// The gauge's background follows the theme: the colour of its
/// `THEME_GAUGE_BG` entry, dark grey without one, whatever pane has the focus.
pub proof fn law_gauge_background_from_theme(theme: &ThemeColors, selected: Option<Pane>, view: Option<Pane>)
    ensures
        !theme@.contains_key("THEME_GAUGE_BG"@) ==> gauge_view_style(theme, selected, view).bg
            == Some(gauge_dark()),
        theme@.contains_key("THEME_GAUGE_BG"@) && hex_color(theme@["THEME_GAUGE_BG"@]) is Some
            ==> gauge_view_style(theme, selected, view).bg == Some(
            hex_color(theme@["THEME_GAUGE_BG"@])->0,
        ),
{
    lemma_color_or_cases(theme@, "THEME_GAUGE_BG"@, gauge_dark());
}

} // verus!
