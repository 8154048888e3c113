use roon_tui::help::{help_columns, help_line, help_text};
use roon_tui::style::Pane;
use roon_tui::zones::{
    endpoint_label, grouping_line, grouping_pane, grouping_zone_name, highlight_symbol, popup_for,
    EndPointKind, Popup,
};

#[test]
fn endpoint_labels() {
    assert_eq!(endpoint_label(EndPointKind::Preset, "Party"), "[Party]");
    assert_eq!(endpoint_label(EndPointKind::Output, "Den"), "<Den>");
    assert_eq!(endpoint_label(EndPointKind::Zone, "Kitchen"), "Kitchen");
}

#[test]
fn symbols_and_grouping_lines() {
    assert_eq!(highlight_symbol(true), " > ");
    assert_eq!(highlight_symbol(false), " \u{23f5} ");
    assert_eq!(grouping_line(true, "Den", true), "+  Den");
    assert_eq!(grouping_line(false, "Den", true), "-  Den");
    assert_eq!(grouping_line(true, "Den", false), "\u{1F5F9}  Den");
    assert_eq!(grouping_line(false, "Den", false), "\u{2610}  Den");
}

#[test]
fn grouping_names() {
    assert_eq!(grouping_pane(Some(Pane::GroupingPreset)), Pane::GroupingPreset);
    assert_eq!(grouping_pane(Some(Pane::Grouping)), Pane::Grouping);
    assert_eq!(grouping_pane(None), Pane::Grouping);
    assert_eq!(grouping_zone_name(1, "typed", Some("Preset"), Some("Zone")), Some("Zone"));
    assert_eq!(grouping_zone_name(2, "typed", Some("Preset"), Some("Zone")), Some("typed"));
    assert_eq!(grouping_zone_name(2, "", Some("Preset"), Some("Zone")), Some("Preset"));
    assert_eq!(grouping_zone_name(2, "", None, Some("Zone")), Some("Zone"));
    assert_eq!(grouping_zone_name(0, "", None, None), None);
}

#[test]
fn popups() {
    assert_eq!(popup_for(Some(Pane::Prompt)), Some(Popup::Prompt));
    assert_eq!(popup_for(Some(Pane::Zones)), Some(Popup::Zones));
    assert_eq!(popup_for(Some(Pane::Grouping)), Some(Popup::Grouping));
    assert_eq!(popup_for(Some(Pane::GroupingPreset)), Some(Popup::Grouping));
    assert_eq!(popup_for(Some(Pane::Help)), Some(Popup::Help));
    assert_eq!(popup_for(Some(Pane::Browse)), None);
    assert_eq!(popup_for(None), None);
}

#[test]
fn help_text_lines() {
    let text = help_text();
    assert_eq!(text.len(), 58);
    assert_eq!(text[0], "__Global__");
    assert_eq!(text[57], "Esc     Cancel input");
}

#[test]
fn help_headings() {
    assert_eq!(help_line("__Global__"), ("Global", true));
    assert_eq!(help_line("____"), ("", true));
    assert_eq!(help_line("Tab     Next view"), ("Tab     Next view", false));
    assert_eq!(help_line(""), ("", false));
    assert_eq!(help_line("__open"), ("__open", false));
    for line in help_text() {
        let (_, heading) = help_line(line);
        assert_eq!(heading, line.starts_with("__") && line.ends_with("__"));
    }
}

#[test]
fn help_column_ranges() {
    assert_eq!(help_columns(3, 20, 58), vec![(0, 20), (20, 40), (40, 58)]);
    assert_eq!(help_columns(3, 10, 58), vec![(0, 10), (10, 20), (20, 30)]);
    assert_eq!(help_columns(3, 0, 58), vec![(0, 0), (0, 0), (0, 0)]);
    assert_eq!(help_columns(3, 60, 58), vec![(0, 58)]);
    assert_eq!(help_columns(3, 29, 58), vec![(0, 29), (29, 58)]);
    assert_eq!(help_columns(0, 10, 58), vec![]);
}
