use roon_tui::playback::{
    app_title, browse_title, effective_seek_position, get_queue_time_remaining, list_progress,
    now_playing_display_name, now_playing_message, play_state_label, progress_gauge, repeat_label,
    secondary_line, server_subtitle, shuffle_label, volume_label, volume_label_text, NowPlaying,
    OutputVolume, PlayState, RepeatMode, VolumeLabel, VolumeScale, ZoneSeek, ZoneSummary,
};

fn track(length: Option<u32>, seek: Option<i64>) -> NowPlaying {
    NowPlaying {
        line1: "Title".to_string(),
        line2: "Artist".to_string(),
        line3: "Album".to_string(),
        length,
        seek_position: seek,
    }
}

fn zone(remaining: i64, now_playing: Option<NowPlaying>) -> ZoneSummary {
    ZoneSummary {
        display_name: "Kitchen".to_string(),
        state: PlayState::Playing,
        queue_time_remaining: remaining,
        now_playing,
    }
}

#[test]
fn queue_time_remaining_from_zone() {
    let z = zone(3725, Some(track(Some(200), Some(10))));
    assert_eq!(get_queue_time_remaining(Some(&z), None), Some(" 1:02:05 ".to_string()));
}

#[test]
fn queue_time_remaining_prefers_seek_update() {
    let z = zone(3725, Some(track(Some(200), Some(10))));
    let seek = ZoneSeek { seek_position: Some(20), queue_time_remaining: 95 };
    assert_eq!(get_queue_time_remaining(Some(&z), Some(seek)), Some(" 1:35 ".to_string()));
    let done = ZoneSeek { seek_position: Some(20), queue_time_remaining: 0 };
    assert_eq!(get_queue_time_remaining(Some(&z), Some(done)), None);
}

#[test]
fn queue_time_remaining_needs_track_with_length() {
    assert_eq!(get_queue_time_remaining(None, None), None);
    let idle = zone(3725, None);
    assert_eq!(get_queue_time_remaining(Some(&idle), None), None);
    let stream = zone(3725, Some(track(None, Some(10))));
    assert_eq!(get_queue_time_remaining(Some(&stream), None), None);
    let negative = zone(-5, Some(track(Some(1), None)));
    assert_eq!(get_queue_time_remaining(Some(&negative), None), None);
}

#[test]
fn queue_time_remaining_wraps_to_u32() {
    let z = zone((1i64 << 32) + 61, Some(track(Some(1), None)));
    assert_eq!(get_queue_time_remaining(Some(&z), None), Some(" 1:01 ".to_string()));
}

#[test]
fn seek_position_choice() {
    let t = track(Some(100), Some(7));
    assert_eq!(effective_seek_position(None, &t), Some(7));
    let s = ZoneSeek { seek_position: Some(9), queue_time_remaining: 0 };
    assert_eq!(effective_seek_position(Some(s), &t), Some(9));
    let empty = ZoneSeek { seek_position: None, queue_time_remaining: 0 };
    assert_eq!(effective_seek_position(Some(empty), &t), Some(7));
}

#[test]
fn play_state_labels() {
    assert_eq!(play_state_label(PlayState::Loading, false), " Loading ");
    assert_eq!(play_state_label(PlayState::Paused, true), " Paused ");
    assert_eq!(play_state_label(PlayState::Playing, false), " Playing ");
    assert_eq!(play_state_label(PlayState::Playing, true), " Pause at End of Track ");
    assert_eq!(play_state_label(PlayState::Stopped, false), " Stopped ");
}

#[test]
fn display_names() {
    assert_eq!(now_playing_display_name(Some("Party"), "Kitchen"), "Party (Kitchen)");
    assert_eq!(now_playing_display_name(None, "Kitchen"), " Kitchen ");
}

#[test]
fn gauge_progress_values() {
    assert_eq!(progress_gauge(200, Some(50)), Some((25, "0:50 / 3:20".to_string())));
    assert_eq!(progress_gauge(200, Some(200)), Some((100, "3:20 / 3:20".to_string())));
    assert_eq!(progress_gauge(0, Some(75)), Some((0, "1:15".to_string())));
    assert_eq!(progress_gauge(200, None), None);
}

#[test]
fn volume_labels() {
    assert_eq!(volume_label(None), VolumeLabel::Blank);
    assert_eq!(volume_label(Some(None)), VolumeLabel::Fixed);
    let inc = OutputVolume { scale: VolumeScale::Incremental, is_muted: Some(true) };
    assert_eq!(volume_label(Some(Some(inc))), VolumeLabel::Incremental);
    let muted = OutputVolume { scale: VolumeScale::Decibel, is_muted: Some(true) };
    assert_eq!(volume_label(Some(Some(muted))), VolumeLabel::Muted);
    let level = OutputVolume { scale: VolumeScale::Number, is_muted: None };
    assert_eq!(volume_label(Some(Some(level))), VolumeLabel::Level(VolumeScale::Number));
    assert_eq!(volume_label_text(VolumeLabel::Blank), Some(String::new()));
    assert_eq!(volume_label_text(VolumeLabel::Fixed), Some("Vol   Fixed".to_string()));
    assert_eq!(volume_label_text(VolumeLabel::Incremental), Some("Vol Incrmnt".to_string()));
    assert_eq!(volume_label_text(VolumeLabel::Muted), Some("Vol   Muted".to_string()));
    assert_eq!(volume_label_text(VolumeLabel::Level(VolumeScale::Decibel)), None);
}

#[test]
fn repeat_and_shuffle_labels() {
    assert_eq!(repeat_label(RepeatMode::All), "Repeat  All");
    assert_eq!(repeat_label(RepeatMode::One), "Repeat  One");
    assert_eq!(repeat_label(RepeatMode::Off), "Repeat  Off");
    assert_eq!(shuffle_label(true), "Shuffle  On");
    assert_eq!(shuffle_label(false), "Shuffle Off");
}

#[test]
fn titles_and_lines() {
    assert_eq!(browse_title(Some("Library")), " Library ");
    assert_eq!(browse_title(None), " Browse ");
    assert_eq!(list_progress(0, 12), " 1/12 ");
    assert_eq!(list_progress(11, 12), " 12/12 ");
    assert_eq!(secondary_line(Some("Artist")), Some("  Artist".to_string()));
    assert_eq!(secondary_line(Some("")), None);
    assert_eq!(secondary_line(None), None);
    assert_eq!(server_subtitle(Some("Core")), " Core ");
    assert_eq!(server_subtitle(None), " No Roon Server paired/found ");
    assert_eq!(app_title("0.3.0"), " Roon TUI v0.3.0 ");
}

#[test]
fn now_playing_messages() {
    assert_eq!(now_playing_message(true, true, true), None);
    assert_eq!(now_playing_message(true, false, true), Some("Go find something to play!"));
    assert_eq!(now_playing_message(true, false, false), None);
    assert_eq!(now_playing_message(false, false, true), Some("No zone selected, use Ctrl-z to select one"));
    assert_eq!(
        now_playing_message(false, true, false),
        Some("Not paired to a Roon Server (or no server found)\nUse a Roon Remote and go to Settings->Extensions to enable Roon TUI")
    );
}
