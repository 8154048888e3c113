//! What the now-playing, queue and browse panes show of a zone: titles,
//! labels, the remaining queue time and the progress of the current track.

use vstd::prelude::*;
use crate::text::{decimal, push_decimal, time_string, get_time_string};

verus! {

/// The playback state of a zone.
#[derive(Clone, Copy, Debug, PartialEq, Eq, Structural)]
pub enum PlayState {
    Playing,
    Paused,
    Loading,
    Stopped,
}

/// The repeat setting of a zone.
#[derive(Clone, Copy, Debug, PartialEq, Eq, Structural)]
pub enum RepeatMode {
    Off,
    All,
    One,
}

/// How an output's volume is controlled.
#[derive(Clone, Copy, Debug, PartialEq, Eq, Structural)]
pub enum VolumeScale {
    Number,
    Decibel,
    Incremental,
}

/// The volume control of an output, as far as the label depends on it.
#[derive(Clone, Copy, Debug, PartialEq, Eq, Structural)]
pub struct OutputVolume {
    pub scale: VolumeScale,
    pub is_muted: Option<bool>,
}

/// The track a zone plays.
pub struct NowPlaying {
    pub line1: String,
    pub line2: String,
    pub line3: String,
    /// Length of the track in seconds.
    pub length: Option<u32>,
    /// Position in the track in seconds.
    pub seek_position: Option<i64>,
}

/// A zone, as far as the panes show it.
pub struct ZoneSummary {
    pub display_name: String,
    pub state: PlayState,
    /// Seconds left in the queue.
    pub queue_time_remaining: i64,
    pub now_playing: Option<NowPlaying>,
}

/// The latest seek update of a zone.
#[derive(Clone, Copy, Debug, PartialEq, Eq, Structural)]
pub struct ZoneSeek {
    pub seek_position: Option<i64>,
    pub queue_time_remaining: i64,
}

/// `text` with a blank on either side.
pub open spec fn padded(text: Seq<char>) -> Seq<char> {
    " "@ + text + " "@
}

fn pad(text: &str) -> (res: String)
    ensures
        res@ == padded(text@),
{
    let mut res = String::from_str(" ");
    res.append(text);
    res.append(" ");
    res
}

/// The remaining time of the queue, as shown in the queue pane's border: only
/// while a track with a known length plays and time is left. The latest seek
/// update, when there is one, is more recent than the zone.
pub open spec fn queue_time_remaining_label(zone: Option<&ZoneSummary>, zone_seek: Option<ZoneSeek>) -> Option<Seq<char>> {
    match zone {
        None => None,
        Some(zone) => match zone.now_playing {
            None => None,
            Some(now_playing) => {
                let remaining = match zone_seek {
                    Some(seek) => seek.queue_time_remaining,
                    None => zone.queue_time_remaining,
                };
                if remaining > 0 && now_playing.length is Some {
                    Some(padded(time_string((remaining as u32) as nat)))
                } else {
                    None
                }
            },
        },
    }
}

/// The remaining time of the queue of the selected zone, formatted for the
/// queue pane's border.
pub fn get_queue_time_remaining(zone: Option<&ZoneSummary>, zone_seek: Option<ZoneSeek>) -> (res: Option<String>)
    ensures
        match res {
            Some(s) => queue_time_remaining_label(zone, zone_seek) == Some(s@),
            None => queue_time_remaining_label(zone, zone_seek) is None,
        },
{
    let zone = match zone {
        Some(zone) => zone,
        None => return None,
    };
    let now_playing = match &zone.now_playing {
        Some(now_playing) => now_playing,
        None => return None,
    };
    let queue_time_remaining = match zone_seek {
        Some(seek) => seek.queue_time_remaining,
        None => zone.queue_time_remaining,
    };
    if queue_time_remaining > 0 && now_playing.length.is_some() {
        let seconds = #[verifier::truncate] (queue_time_remaining as u32);
        Some(pad(get_time_string(seconds).as_str()))
    } else {
        None
    }
}

/// The position in the current track: the latest seek update's, when it has
/// one, else the one the zone reported with the track.
pub fn effective_seek_position(zone_seek: Option<ZoneSeek>, now_playing: &NowPlaying) -> (res: Option<i64>)
    ensures
        res == (match zone_seek {
            Some(seek) if seek.seek_position is Some => seek.seek_position,
            _ => now_playing.seek_position,
        }),
{
    if let Some(zone_seek) = zone_seek {
        if zone_seek.seek_position.is_some() {
            zone_seek.seek_position
        } else {
            now_playing.seek_position
        }
    } else {
        now_playing.seek_position
    }
}

/// The name of a playback state; a playing zone that will pause at the end of
/// the track says so.
pub open spec fn play_state_title(state: PlayState, pause_on_track_end: bool) -> Seq<char> {
    match state {
        PlayState::Loading => "Loading"@,
        PlayState::Paused => "Paused"@,
        PlayState::Playing => if pause_on_track_end {
            "Pause at End of Track"@
        } else {
            "Playing"@
        },
        PlayState::Stopped => "Stopped"@,
    }
}

/// The title that shows the playback state in the now-playing pane.
pub fn play_state_label(state: PlayState, pause_on_track_end: bool) -> (res: String)
    ensures
        res@ == padded(play_state_title(state, pause_on_track_end)),
{
    let title = match state {
        PlayState::Loading => "Loading",
        PlayState::Paused => "Paused",
        PlayState::Playing => {
            if pause_on_track_end {
                "Pause at End of Track"
            } else {
                "Playing"
            }
        },
        PlayState::Stopped => "Stopped",
    };
    pad(title)
}

/// The zone's name in the now-playing pane's title: after the name of the
/// preset it matches, in parentheses, or alone between blanks.
pub fn now_playing_display_name(preset: Option<&str>, display_name: &str) -> (res: String)
    ensures
        res@ == (match preset {
            Some(p) => p@ + " ("@ + display_name@ + ")"@,
            None => padded(display_name@),
        }),
{
    match preset {
        Some(p) => {
            let mut res = String::from_str(p);
            res.append(" (");
            res.append(display_name);
            res.append(")");
            res
        },
        None => pad(display_name),
    }
}

/// The percentage and the label of the progress gauge, for a track of
/// `duration` seconds at position `seek_position`; nothing when the position
/// is unknown. The position is taken modulo 2^32, as a `u32`.
pub open spec fn gauge_progress(duration: u32, seek_position: Option<i64>) -> Option<(u16, Seq<char>)> {
    match seek_position {
        None => None,
        Some(position) => {
            let elapsed = position as u32;
            let progress: int = if duration > 0 { elapsed * 100 / duration as int } else { 0 };
            Some((
                progress as u16,
                if duration > 0 {
                    time_string(elapsed as nat) + " / "@ + time_string(duration as nat)
                } else {
                    time_string(elapsed as nat)
                },
            ))
        },
    }
}

/// The progress gauge of the current track: its percentage and its label.
pub fn progress_gauge(duration: u32, seek_position: Option<i64>) -> (res: Option<(u16, String)>)
    requires
        seek_position matches Some(p) ==> duration == 0 || (p as u32) * 100 <= u32::MAX,
    ensures
        match res {
            Some((percent, label)) => gauge_progress(duration, seek_position) == Some((percent, label@)),
            None => gauge_progress(duration, seek_position) is None,
        },
{
    let position = match seek_position {
        Some(position) => position,
        None => return None,
    };
    let elapsed = #[verifier::truncate] (position as u32);
    let progress = if duration > 0 {
        elapsed * 100 / duration
    } else {
        0
    };
    let elapsed_str = get_time_string(elapsed);
    let label = if duration > 0 {
        let mut label = elapsed_str;
        label.append(" / ");
        label.append(get_time_string(duration).as_str());
        label
    } else {
        elapsed_str
    };
    Some((#[verifier::truncate] (progress as u16), label))
}

/// What the volume line of the status column shows.
#[derive(Clone, Copy, Debug, PartialEq, Eq, Structural)]
pub enum VolumeLabel {
    /// The zone has no output: an empty line.
    Blank,
    /// The output has no volume control.
    Fixed,
    /// The volume only goes up and down in steps.
    Incremental,
    Muted,
    /// The level, written on the given scale.
    Level(VolumeScale),
}

/// The volume line of the zone whose first output is `first_output` (`None`
/// when the zone has no output; `Some(None)` when the output's volume is fixed).
pub fn volume_label(first_output: Option<Option<OutputVolume>>) -> (res: VolumeLabel)
    ensures
        res == (match first_output {
            None => VolumeLabel::Blank,
            Some(None) => VolumeLabel::Fixed,
            Some(Some(volume)) => if volume.scale == VolumeScale::Incremental {
                VolumeLabel::Incremental
            } else if volume.is_muted == Some(true) {
                VolumeLabel::Muted
            } else {
                VolumeLabel::Level(volume.scale)
            },
        }),
{
    match first_output {
        None => VolumeLabel::Blank,
        Some(None) => VolumeLabel::Fixed,
        Some(Some(volume)) => {
            match volume.scale {
                VolumeScale::Incremental => VolumeLabel::Incremental,
                _ => {
                    let is_muted = match volume.is_muted {
                        Some(m) => m,
                        None => false,
                    };
                    if is_muted {
                        VolumeLabel::Muted
                    } else {
                        VolumeLabel::Level(volume.scale)
                    }
                },
            }
        },
    }
}

/// The text of a volume line that does not show a level.
pub open spec fn volume_text(label: VolumeLabel) -> Option<Seq<char>> {
    match label {
        VolumeLabel::Blank => Some(Seq::empty()),
        VolumeLabel::Fixed => Some("Vol   Fixed"@),
        VolumeLabel::Incremental => Some("Vol Incrmnt"@),
        VolumeLabel::Muted => Some("Vol   Muted"@),
        VolumeLabel::Level(_) => None,
    }
}

/// The text of a volume line, for the labels that show no level.
pub fn volume_label_text(label: VolumeLabel) -> (res: Option<String>)
    ensures
        match res {
            Some(s) => volume_text(label) == Some(s@),
            None => volume_text(label) is None,
        },
{
    match label {
        VolumeLabel::Blank => Some(String::new()),
        VolumeLabel::Fixed => Some(String::from_str("Vol   Fixed")),
        VolumeLabel::Incremental => Some(String::from_str("Vol Incrmnt")),
        VolumeLabel::Muted => Some(String::from_str("Vol   Muted")),
        VolumeLabel::Level(_) => None,
    }
}

/// The repeat line of the status column.
pub fn repeat_label(mode: RepeatMode) -> (res: &'static str)
    ensures
        res@ == (match mode {
            RepeatMode::All => "Repeat  All"@,
            RepeatMode::One => "Repeat  One"@,
            RepeatMode::Off => "Repeat  Off"@,
        }),
{
    match mode {
        RepeatMode::All => "Repeat  All",
        RepeatMode::One => "Repeat  One",
        _ => "Repeat  Off",
    }
}

/// The shuffle line of the status column.
pub fn shuffle_label(shuffle: bool) -> (res: &'static str)
    ensures
        res@ == (if shuffle { "Shuffle  On"@ } else { "Shuffle Off"@ }),
{
    if shuffle {
        "Shuffle  On"
    } else {
        "Shuffle Off"
    }
}

/// The title of the browse pane: the current level's title, `Browse` when it
/// has none.
pub fn browse_title(title: Option<&str>) -> (res: String)
    ensures
        res@ == padded(match title {
            Some(t) => t@,
            None => "Browse"@,
        }),
{
    match title {
        Some(t) => pad(t),
        None => pad("Browse"),
    }
}

/// The position of the selected item among `len`, shown as ` n/len `
/// counting from one.
pub fn list_progress(selected: usize, len: usize) -> (res: String)
    requires
        selected < usize::MAX,
    ensures
        res@ == padded(decimal(selected as nat + 1) + "/"@ + decimal(len as nat)),
{
    let mut res = String::from_str(" ");
    push_decimal(&mut res, (selected + 1) as u64);
    res.append("/");
    push_decimal(&mut res, len as u64);
    res.append(" ");
    res
}

/// The second line of a list item, indented by two blanks; none for a missing
/// or empty text.
pub fn secondary_line(text: Option<&str>) -> (res: Option<String>)
    ensures
        match res {
            Some(s) => text matches Some(t) && t@.len() > 0 && s@ == "  "@ + t@,
            None => !(text matches Some(t) && t@.len() > 0),
        },
{
    match text {
        Some(t) => {
            if t.is_empty() {
                None
            } else {
                let mut res = String::from_str("  ");
                res.append(t);
                Some(res)
            }
        },
        None => None,
    }
}

/// The subtitle of the main frame: the paired server's name, or a notice that
/// there is none.
pub fn server_subtitle(core_name: Option<&str>) -> (res: String)
    ensures
        res@ == (match core_name {
            Some(name) => padded(name@),
            None => " No Roon Server paired/found "@,
        }),
{
    match core_name {
        Some(name) => pad(name),
        None => String::from_str(" No Roon Server paired/found "),
    }
}

/// The title of the main frame, with the program's version.
pub fn app_title(version: &str) -> (res: String)
    ensures
        res@ == " Roon TUI v"@ + version@ + " "@,
{
    let mut res = String::from_str(" Roon TUI v");
    res.append(version);
    res.append(" ");
    res
}

/// The message the now-playing pane shows in place of a track, if any.
pub fn now_playing_message(zone_selected: bool, has_track: bool, paired: bool) -> (res: Option<&'static str>)
    ensures
        res == (if !zone_selected {
            Some(
                if paired {
                    "No zone selected, use Ctrl-z to select one"
                } else {
                    "Not paired to a Roon Server (or no server found)\nUse a Roon Remote and go to Settings->Extensions to enable Roon TUI"
                },
            )
        } else if !has_track && paired {
            Some("Go find something to play!")
        } else {
            None
        }),
{
    if zone_selected {
        if !has_track && paired {
            Some("Go find something to play!")
        } else {
            None
        }
    } else if paired {
        Some("No zone selected, use Ctrl-z to select one")
    } else {
        Some("Not paired to a Roon Server (or no server found)\nUse a Roon Remote and go to Settings->Extensions to enable Roon TUI")
    }
}

/// While the position lies within the track, the gauge's percentage is at
/// most 100 (ratatui's gauge refuses more), and it is 100 at the track's end.
pub proof fn law_gauge_within_track(duration: u32, position: i64)
    requires
        0 <= position <= duration,
        duration > 0,
        position * 100 <= u32::MAX,
    ensures
        gauge_progress(duration, Some(position)) matches Some((percent, _)) && percent <= 100
            && (position == duration ==> percent == 100),
{
    let elapsed = position as u32;
    assert(elapsed == position);
    assert(elapsed * 100 / (duration as int) <= 100) by (nonlinear_arith)
        requires
            elapsed <= duration,
            duration > 0,
    ;
    if position == duration {
        assert(elapsed * 100 / (duration as int) == 100) by (nonlinear_arith)
            requires
                elapsed == duration,
                duration > 0,
        ;
    }
}

} // verus!
