use harmony::music::{
    audio_action, check_play_query, control_request, enqueue_count, filter_payload, filter_request,
    format_duration, load_reply, music_request_channel, play_request, play_response_reply,
    prefix_filter, prefix_filter_known, prefix_queue_reply, queue_request, queue_view,
    render_now_playing, response_channel, should_start_playback, volume_reply, AudioAction,
    ControlAction, FilterCommand, FilterType, LoadOutcome, MusicCommand, MusicResponse,
    NowPlayingTemplate, PlayQueryError, PrefixFilterOutcome, QueueView, TemplateButton, TrackInfo,
};
use harmony::ui::ButtonStyle;

fn track(title: &str, uri: Option<&str>, length: u64) -> TrackInfo {
    TrackInfo {
        title: title.to_string(),
        author: "Someone".to_string(),
        uri: uri.map(|u| u.to_string()),
        length,
        artwork_url: None,
    }
}

fn is_uuid(s: &str) -> bool {
    s.len() == 36
        && s.chars().enumerate().all(|(i, c)| {
            if i == 8 || i == 13 || i == 18 || i == 23 {
                c == '-'
            } else {
                c.is_ascii_digit() || ('a'..='f').contains(&c)
            }
        })
}

#[test]
fn format_duration_examples() {
    assert_eq!(format_duration(0), "00:00");
    assert_eq!(format_duration(59_999), "00:59");
    assert_eq!(format_duration(61_000), "01:01");
    assert_eq!(format_duration(3_599_999), "59:59");
    assert_eq!(format_duration(3_600_000), "01:00:00");
    assert_eq!(format_duration(7_325_000), "02:02:05");
    assert_eq!(format_duration(360_000_000), "100:00:00");
}

#[test]
fn filter_type_values() {
    assert_eq!(FilterType::Bassboost.as_str(), "bassboost");
    assert_eq!(FilterType::EightD.as_str(), "8d");
    assert_eq!(FilterType::Clear.as_str(), "clear");
}

#[test]
fn control_requests_name_the_guild() {
    let (cmd, reply) = control_request(ControlAction::Skip, 1234);
    assert!(matches!(cmd, MusicCommand::Skip { ref guild_id } if guild_id == "1234"));
    assert_eq!(reply.description, "⏭️ Skipped the current track.");
    assert!(!reply.is_error);
    let (cmd, reply) = control_request(ControlAction::Pause, 9);
    assert!(matches!(cmd, MusicCommand::Pause { ref guild_id } if guild_id == "9"));
    assert_eq!(reply.description, "⏸️ Paused playback.");
    let (cmd, _) = control_request(ControlAction::Stop, 9);
    assert!(matches!(cmd, MusicCommand::Stop { .. }));
    let (cmd, reply) = control_request(ControlAction::Resume, 9);
    assert!(matches!(cmd, MusicCommand::Resume { .. }));
    assert_eq!(reply.description, "▶️ Resumed playback.");
}

#[test]
fn volume_is_refused() {
    let r = volume_reply();
    assert!(r.is_error);
    assert_eq!(r.description, "🔊 Volume control over IPC is not yet supported.");
}

#[test]
fn filter_requests() {
    let (cmd, reply) = filter_request(&FilterCommand { filter_type: FilterType::Nightcore }, 77);
    match cmd {
        MusicCommand::Filter { guild_id, filter_type } => {
            assert_eq!(guild_id, "77");
            assert_eq!(filter_type, "nightcore");
        }
        _ => panic!("expected a filter request"),
    }
    assert_eq!(reply.description, "🎛️ Applied **nightcore** filter.");
    let (_, reply) = filter_request(&FilterCommand { filter_type: FilterType::Clear }, 77);
    assert_eq!(reply.description, "🧹 Cleared all audio filters.");
}

#[test]
fn play_query_errors() {
    assert_eq!(check_play_query(""), Some(PlayQueryError::Empty));
    assert_eq!(check_play_query(&"a".repeat(500)), None);
    assert_eq!(check_play_query(&"a".repeat(501)), Some(PlayQueryError::TooLong));
    // The limit counts bytes: 167 three-byte characters are 501 bytes.
    assert_eq!(check_play_query(&"€".repeat(167)), Some(PlayQueryError::TooLong));
    assert_eq!(check_play_query("httpfoo"), Some(PlayQueryError::InvalidUrl));
    assert_eq!(check_play_query("http://localhost:8080/a.mp3"), Some(PlayQueryError::LocalUrl));
    assert_eq!(check_play_query("https://x.com/?h=127.0.0.1"), Some(PlayQueryError::LocalUrl));
    assert_eq!(check_play_query("http://0.0.0.0/"), Some(PlayQueryError::LocalUrl));
    assert_eq!(check_play_query("https://youtu.be/dQw4w9WgXcQ"), None);
    assert_eq!(check_play_query("never gonna give you up localhost"), None);
    assert_eq!(PlayQueryError::Empty.reply().description, "❌ Please provide a search query or URL.");
    assert_eq!(PlayQueryError::TooLong.reply().description, "❌ Query too long! Maximum 500 characters.");
    assert_eq!(PlayQueryError::InvalidUrl.reply().description, "❌ Invalid URL format!");
    assert_eq!(PlayQueryError::LocalUrl.reply().description, "❌ Cannot play from local URLs!");
    assert!(PlayQueryError::LocalUrl.reply().is_error);
}

#[test]
fn play_request_searches_youtube_for_plain_text() {
    match play_request("rick astley", 42, "555", Some(66)) {
        MusicCommand::Play { req_id, guild_id, channel_id, text_channel_id, query } => {
            assert!(is_uuid(&req_id), "{req_id}");
            assert_eq!(guild_id, "42");
            assert_eq!(channel_id, "555");
            assert_eq!(text_channel_id.as_deref(), Some("66"));
            assert_eq!(query, "ytsearch:rick astley");
        }
        _ => panic!("expected a play request"),
    }
    match play_request("https://youtu.be/x", 1, "2", None) {
        MusicCommand::Play { query, text_channel_id, .. } => {
            assert_eq!(query, "https://youtu.be/x");
            assert!(text_channel_id.is_none());
        }
        _ => panic!("expected a play request"),
    }
}

#[test]
fn request_identifiers_are_fresh() {
    let a = match queue_request(5) {
        MusicCommand::Queue { req_id, guild_id } => {
            assert_eq!(guild_id, "5");
            req_id
        }
        _ => panic!("expected a queue request"),
    };
    let b = match queue_request(5) {
        MusicCommand::Queue { req_id, .. } => req_id,
        _ => panic!("expected a queue request"),
    };
    assert!(is_uuid(&a) && is_uuid(&b));
    assert_ne!(a, b);
}

#[test]
fn channels() {
    assert_eq!(music_request_channel(), "harmony:music:requests");
    assert_eq!(response_channel("abc"), "harmony:music:responses:abc");
}

#[test]
fn load_replies() {
    let r = load_reply(&LoadOutcome::Empty).unwrap();
    assert_eq!(r.reply.description, "❌ No results found.");
    assert!(r.reply.is_error);
    let mut t = track("Song", Some("https://x"), 1000);
    t.artwork_url = Some("https://img".to_string());
    let r = load_reply(&LoadOutcome::Track(t)).unwrap();
    assert_eq!(r.reply.description, "✅ Added to queue: **Song**");
    assert_eq!(r.thumbnail.as_deref(), Some("https://img"));
    assert!(load_reply(&LoadOutcome::Search(vec![])).is_none());
    let r = load_reply(&LoadOutcome::Search(vec![track("First", None, 1), track("Second", None, 2)])).unwrap();
    assert_eq!(r.reply.description, "✅ Added to queue: **First**");
    let r = load_reply(&LoadOutcome::Playlist((0..12).map(|_| track("a", None, 1)).collect())).unwrap();
    assert_eq!(r.reply.description, "📃 Added **12** tracks from playlist");
    let r = load_reply(&LoadOutcome::Error("Some(\"boom\")".to_string())).unwrap();
    assert_eq!(r.reply.description, "❌ Error loading track: Some(\"boom\")");
    assert!(r.reply.is_error);
}

#[test]
fn play_response_replies() {
    let r = play_response_reply(&MusicResponse::Error { req_id: "x".into(), message: "down".into() }).unwrap();
    assert_eq!(r.reply.description, "❌ Search failed: down");
    let r = play_response_reply(&MusicResponse::QueueResult { req_id: "x".into(), tracks: vec![], current: None })
        .unwrap();
    assert_eq!(r.reply.description, "❌ Invalid response from audio node.");
    let r = play_response_reply(&MusicResponse::PlayResult { req_id: "x".into(), result: LoadOutcome::Empty })
        .unwrap();
    assert_eq!(r.reply.description, "❌ No results found.");
}

#[test]
fn queue_view_lists_ten_and_counts_the_rest() {
    match queue_view(&None, &vec![]) {
        QueueView::NoPlayer { reply } => {
            assert_eq!(reply.description, "❌ No active player in this server.");
            assert!(reply.is_error);
        }
        _ => panic!("expected no player"),
    }
    match queue_view(&Some(track("Now", Some("https://now"), 65_000)), &vec![]) {
        QueueView::Listing { description, footer } => {
            assert_eq!(description, "**🎵 Now Playing:**\n[Now](https://now) | `01:05`\n\n📭 The queue is empty.");
            assert_eq!(footer, "Total Queue Duration: 01:05");
        }
        _ => panic!("expected a listing"),
    }
    let tracks: Vec<TrackInfo> = (1..=12).map(|i| track(&format!("T{i}"), None, 60_000)).collect();
    match queue_view(&None, &tracks) {
        QueueView::Listing { description, footer } => {
            let mut expected = String::from("**🔇 Not playing anything.**\n\n**Up Next (12 tracks):**\n");
            for i in 1..=10 {
                expected.push_str(&format!("`{i}.` [T{i}]() | `01:00`\n"));
            }
            expected.push_str("\n*...and 2 more tracks*");
            assert_eq!(description, expected);
            assert_eq!(footer, "Total Queue Duration: 12:00");
        }
        _ => panic!("expected a listing"),
    }
}

#[test]
fn prefix_queue_shortens_long_titles() {
    let long = "x".repeat(60);
    let resp = MusicResponse::QueueResult {
        req_id: "r".into(),
        tracks: vec![track(&long, None, 125_000), track("short", None, 6_000_000)],
        current: None,
    };
    let r = prefix_queue_reply(&resp);
    assert_eq!(r.title.as_deref(), Some("🎶 Current Queue"));
    assert_eq!(
        r.reply.description,
        format!("`1.` **{}...** `[02:05]`\n`2.` **short** `[100:00]`\n", "x".repeat(47))
    );
    let empty = MusicResponse::QueueResult { req_id: "r".into(), tracks: vec![], current: None };
    let r = prefix_queue_reply(&empty);
    assert!(r.title.is_none());
    assert_eq!(r.reply.description, "📭 The queue is currently empty.");
    let r = prefix_queue_reply(&MusicResponse::Error { req_id: "r".into(), message: "gone".into() });
    assert_eq!(r.reply.description, "❌ Could not fetch queue: gone");
    assert!(r.reply.is_error);
    let many = MusicResponse::QueueResult {
        req_id: "r".into(),
        tracks: (0..11).map(|_| track("t", None, 0)).collect(),
        current: None,
    };
    assert!(prefix_queue_reply(&many).reply.description.ends_with("`10.` **t** `[00:00]`\n\n*...and 1 more tracks*"));
}

#[test]
fn prefix_filter_checks_lowercased_names() {
    match prefix_filter(&vec!["NightCore".to_string()], 3) {
        PrefixFilterOutcome::Apply { request, reply } => {
            assert!(matches!(request, MusicCommand::Filter { ref guild_id, ref filter_type }
                if guild_id == "3" && filter_type == "nightcore"));
            assert_eq!(reply.description, "🎛️ Applied filter: **NightCore**");
        }
        _ => panic!("expected a filter"),
    }
    match prefix_filter(&vec![], 3) {
        PrefixFilterOutcome::Apply { request, reply } => {
            assert!(matches!(request, MusicCommand::Filter { ref filter_type, .. } if filter_type.is_empty()));
            assert_eq!(reply.description, "🎛️ Cleared all audio filters");
        }
        _ => panic!("expected a filter"),
    }
    match prefix_filter(&vec!["bass".to_string(), "boost".to_string()], 3) {
        PrefixFilterOutcome::Unknown { reply } => {
            assert_eq!(reply.description, "❌ Unknown filter!");
            assert!(reply.is_error);
        }
        _ => panic!("expected an unknown filter"),
    }
    assert!(prefix_filter_known("karaoke"));
    assert!(prefix_filter_known(""));
    assert!(!prefix_filter_known("Karaoke"));
}

#[test]
fn audio_node_filter_settings() {
    assert_eq!(filter_payload("8d"), Some("{\"rotation\":{\"rotationHz\":0.2}}"));
    assert_eq!(filter_payload("clear"), Some("{}"));
    assert_eq!(filter_payload("studio"), None);
    assert_eq!(filter_payload("karaoke"), None);
    let a = audio_action(MusicCommand::Filter { guild_id: "1".into(), filter_type: "vibrato".into() });
    assert!(matches!(a, AudioAction::Filter { settings, .. } if settings == "{\"vibrato\":{\"frequency\":2.0,\"depth\":0.5}}"));
    let a = audio_action(MusicCommand::Filter { guild_id: "1".into(), filter_type: "studio".into() });
    assert!(matches!(a, AudioAction::UnknownFilter { ref filter_type } if filter_type == "studio"));
}

#[test]
fn audio_action_reads_the_text_channel() {
    let cmd = MusicCommand::Play {
        req_id: "r".into(),
        guild_id: "1".into(),
        channel_id: "2".into(),
        text_channel_id: Some("12345".into()),
        query: "q".into(),
    };
    assert!(matches!(audio_action(cmd), AudioAction::Play { text_channel_id: Some(12345), .. }));
    let cmd = MusicCommand::Play {
        req_id: "r".into(),
        guild_id: "1".into(),
        channel_id: "2".into(),
        text_channel_id: Some("general".into()),
        query: "q".into(),
    };
    assert!(matches!(audio_action(cmd), AudioAction::Play { text_channel_id: None, .. }));
    assert!(matches!(audio_action(MusicCommand::Pause { guild_id: "1".into() }), AudioAction::Pause { .. }));
    assert!(matches!(
        audio_action(MusicCommand::Queue { req_id: "r".into(), guild_id: "1".into() }),
        AudioAction::Queue { .. }
    ));
}

#[test]
fn enqueueing_and_starting_playback() {
    assert_eq!(enqueue_count(&LoadOutcome::Empty), 0);
    assert_eq!(enqueue_count(&LoadOutcome::Track(track("a", None, 1))), 1);
    assert_eq!(enqueue_count(&LoadOutcome::Search(vec![track("a", None, 1), track("b", None, 1)])), 1);
    assert_eq!(enqueue_count(&LoadOutcome::Search(vec![])), 0);
    assert_eq!(enqueue_count(&LoadOutcome::Playlist((0..3).map(|_| track("a", None, 1)).collect())), 3);
    assert_eq!(enqueue_count(&LoadOutcome::Error("e".into())), 0);
    assert!(should_start_playback(false, 0));
    assert!(!should_start_playback(true, 0));
    assert!(!should_start_playback(false, 2));
}

#[test]
fn now_playing_fills_the_template() {
    let template = NowPlayingTemplate {
        description: "{title} by {author} <{url}> {title}".to_string(),
        color: 0x123456,
        buttons: vec![
            TemplateButton { style: 4, custom_id: "music_stop".into(), emoji: "⏹️".into(), label: "Stop".into() },
            TemplateButton { style: 9, custom_id: "music_skip".into(), emoji: "⏭️".into(), label: "".into() },
        ],
    };
    let (text, buttons) = render_now_playing(&template, &track("Song", Some("https://s"), 1));
    assert_eq!(text, "Song by Someone <https://s> Song");
    assert_eq!(buttons.len(), 2);
    assert_eq!(buttons[0].style, ButtonStyle::Danger);
    assert_eq!(buttons[0].custom_id.as_deref(), Some("music_stop"));
    assert_eq!(buttons[0].emoji.as_deref(), Some("⏹️"));
    assert_eq!(buttons[1].style, ButtonStyle::Secondary);
    assert!(buttons[1].url.is_none());
    let (text, _) = render_now_playing(&template, &track("{author}", None, 1));
    assert_eq!(text, "Someone by Someone <> Someone");
}
