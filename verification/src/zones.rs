//! The zone selection and zone grouping pop-ups, and which pop-up is open.

use vstd::prelude::*;
use crate::style::Pane;

verus! {

/// What an entry of the zone list stands for.
#[derive(Clone, Copy, Debug, PartialEq, Eq, Structural)]
pub enum EndPointKind {
    Preset,
    Output,
    Zone,
}

/// The name of an entry in the zone list: presets in brackets, outputs in
/// angle brackets, zones as they are.
pub fn endpoint_label(kind: EndPointKind, name: &str) -> (res: String)
    ensures
        res@ == (match kind {
            EndPointKind::Preset => "["@ + name@ + "]"@,
            EndPointKind::Output => "<"@ + name@ + ">"@,
            EndPointKind::Zone => name@,
        }),
{
    match kind {
        EndPointKind::Preset => {
            let mut res = String::from_str("[");
            res.append(name);
            res.append("]");
            res
        },
        EndPointKind::Output => {
            let mut res = String::from_str("<");
            res.append(name);
            res.append(">");
            res
        },
        EndPointKind::Zone => String::from_str(name),
    }
}

/// The mark in front of the selected item of a list.
pub fn highlight_symbol(no_unicode_symbols: bool) -> (res: &'static str)
    ensures
        res@ == (if no_unicode_symbols { " > "@ } else { " \u{23f5} "@ }),
{
    if no_unicode_symbols {
        " > "
    } else {
        " \u{23f5} "
    }
}

/// An output in the grouping pop-up: a check box, two blanks and the name.
pub fn grouping_line(included: bool, name: &str, no_unicode_symbols: bool) -> (res: String)
    ensures
        res@ == (if included {
            if no_unicode_symbols { "+"@ } else { "\u{1F5F9}"@ }
        } else {
            if no_unicode_symbols { "-"@ } else { "\u{2610}"@ }
        }) + "  "@ + name@,
{
    let state = if included {
        if no_unicode_symbols { "+" } else { "\u{1F5F9}" }
    } else {
        if no_unicode_symbols { "-" } else { "\u{2610}" }
    };
    let mut res = String::from_str(state);
    res.append("  ");
    res.append(name);
    res
}

/// The pop-up that the grouping pane stands for: the preset name input while
/// it is open, else the output list.
pub fn grouping_pane(selected: Option<Pane>) -> (res: Pane)
    ensures
        res == (if selected == Some(Pane::GroupingPreset) { Pane::GroupingPreset } else { Pane::Grouping }),
{
    if selected == Some(Pane::GroupingPreset) {
        Pane::GroupingPreset
    } else {
        Pane::Grouping
    }
}

/// The name above the output list of the grouping pop-up: the zone's own
/// name while at most one output is included; else the name typed so far, or
/// failing that the preset that the draft group matches, or failing that the
/// zone's name. `None` where a name that is needed is missing.
pub fn grouping_zone_name<'a>(
    included_outputs: usize,
    input: &'a str,
    matched_draft_preset: Option<&'a str>,
    zone_name: Option<&'a str>,
) -> (res: Option<&'a str>)
    ensures
        res == (if included_outputs <= 1 {
            zone_name
        } else if input@.len() > 0 {
            Some(input)
        } else if matched_draft_preset is Some {
            matched_draft_preset
        } else {
            zone_name
        }),
{
    if included_outputs <= 1 {
        zone_name
    } else if !input.is_empty() {
        Some(input)
    } else if matched_draft_preset.is_some() {
        matched_draft_preset
    } else {
        zone_name
    }
}

/// The pop-up drawn over the panes.
#[derive(Clone, Copy, Debug, PartialEq, Eq, Structural)]
pub enum Popup {
    Prompt,
    Zones,
    Grouping,
    Help,
}

/// The pop-up that is open while `selected` has the focus, if any.
pub fn popup_for(selected: Option<Pane>) -> (res: Option<Popup>)
    ensures
        res == (match selected {
            Some(Pane::Prompt) => Some(Popup::Prompt),
            Some(Pane::Zones) => Some(Popup::Zones),
            Some(Pane::Grouping) => Some(Popup::Grouping),
            Some(Pane::GroupingPreset) => Some(Popup::Grouping),
            Some(Pane::Help) => Some(Popup::Help),
            _ => None,
        }),
{
    match selected {
        Some(Pane::Prompt) => Some(Popup::Prompt),
        Some(Pane::Zones) => Some(Popup::Zones),
        Some(Pane::Grouping) | Some(Pane::GroupingPreset) => Some(Popup::Grouping),
        Some(Pane::Help) => Some(Popup::Help),
        _ => None,
    }
}

} // verus!
