use harmony::cache::DistributedLock;
use harmony::config::{AppConfig, EnvValues};
use harmony::error::RailwayError;
use harmony::gateway::{
    handled_by_gateway, is_voice_critical, music_button, on_voice_packet, presence_state,
    reconnect_backoff, should_restore_volume, sweep_guild, GatewayEventKind, PlayerControl,
    SpeakerState, VoiceEffect,
};
use harmony::sanitize::{sanitize_postgres_url, sanitize_redis_url};
use harmony::schema::{moderation_commands, CommandOptionSpec, ValueKind};
use harmony::ui::{build_automod_settings_buttons, build_support_action_row, style_from_number, ButtonStyle};

fn env() -> EnvValues {
    EnvValues {
        discord_token: Some("token".into()),
        database_url: Some("postgres://db".into()),
        redis_url: Some("redis://cache".into()),
        prefix: Some("!".into()),
        embed_color: None,
        database_pool_size: None,
        event_bus_capacity: None,
        max_event_tasks: None,
    }
}

fn config_error(r: Result<AppConfig, RailwayError>) -> String {
    match r {
        Err(RailwayError::Config(m)) => m,
        _ => panic!("expected a configuration error"),
    }
}

#[test]
fn config_defaults() {
    let c = AppConfig::from_env(&env()).ok().unwrap();
    assert_eq!(c.discord_token, "token");
    assert_eq!(c.prefix, "!");
    assert_eq!(c.embed_color, 0xBEBEBE);
    assert_eq!(c.db_pool_size, 20);
    assert_eq!(c.event_bus_capacity, 16_384);
    assert_eq!(c.max_event_tasks, 512);
}

#[test]
fn config_reads_numbers_and_colours() {
    let mut e = env();
    e.embed_color = Some("##ff8800".into());
    e.database_pool_size = Some("5".into());
    e.event_bus_capacity = Some("-1".into());
    e.max_event_tasks = Some("64".into());
    let c = AppConfig::from_env(&e).ok().unwrap();
    assert_eq!(c.embed_color, 0xFF8800);
    assert_eq!(c.db_pool_size, 5);
    assert_eq!(c.event_bus_capacity, 16_384);
    assert_eq!(c.max_event_tasks, 64);
    let mut e = env();
    e.embed_color = Some("purple".into());
    e.database_pool_size = Some("4294967296".into());
    let c = AppConfig::from_env(&e).ok().unwrap();
    assert_eq!(c.embed_color, 0xBEBEBE);
    assert_eq!(c.db_pool_size, 20);
}

#[test]
fn config_requires_settings_in_order() {
    let mut e = env();
    e.discord_token = None;
    e.prefix = None;
    assert_eq!(config_error(AppConfig::from_env(&e)), "DISCORD_TOKEN not set");
    let mut e = env();
    e.database_url = None;
    assert_eq!(config_error(AppConfig::from_env(&e)), "DATABASE_URL not set");
    let mut e = env();
    e.redis_url = None;
    assert_eq!(config_error(AppConfig::from_env(&e)), "REDIS_URL not set");
    let mut e = env();
    e.prefix = None;
    assert_eq!(config_error(AppConfig::from_env(&e)), "PREFIX not set");
}

#[test]
fn error_messages() {
    assert_eq!(RailwayError::Config("x".into()).message(), "Configuration error: x");
    assert_eq!(RailwayError::Module("y".into()).message(), "Module error: y");
    assert_eq!(RailwayError::internal("z").message(), "Internal error: z");
}

#[test]
fn urls_are_sanitized() {
    assert_eq!(sanitize_postgres_url("postgres://user:pw@db:5432/x"), "postgresql://*****@db:5432/x");
    assert_eq!(sanitize_postgres_url("postgres://db/x"), "postgres://db/x");
    assert_eq!(sanitize_postgres_url("a@b@c"), "postgresql://*****@b@c");
    assert_eq!(sanitize_redis_url("redis://:secret@cache:6379"), "redis://*****@cache:6379");
    assert_eq!(sanitize_redis_url("rediss://u:p@h"), "rediss://*****@h");
    assert_eq!(sanitize_redis_url("redis://cache:6379"), "redis://cache:6379");
    assert_eq!(sanitize_redis_url("cache@6379"), "cache@6379");
}

#[test]
fn lock_tokens() {
    let a = DistributedLock::new_token();
    let b = DistributedLock::new_token();
    assert_eq!(a.len(), 36);
    assert_ne!(a, b);
    assert_eq!(a.chars().filter(|c| *c == '-').count(), 4);
    assert_eq!(DistributedLock::acquired(Some("OK".into()), a.clone()), Some(a));
    assert_eq!(DistributedLock::acquired(None, b), None);
    assert!(DistributedLock::released(1));
    assert!(!DistributedLock::released(0));
}

#[test]
fn voice_events_are_critical() {
    assert!(is_voice_critical(GatewayEventKind::VoiceStateUpdate));
    assert!(is_voice_critical(GatewayEventKind::VoiceServerUpdate));
    assert!(!is_voice_critical(GatewayEventKind::Other));
}

#[test]
fn now_playing_buttons() {
    assert_eq!(music_button("music_stop", Some(1)), Some(PlayerControl::Stop));
    assert_eq!(music_button("music_skip", Some(1)), Some(PlayerControl::Skip));
    assert_eq!(music_button("music_skip", None), None);
    assert_eq!(music_button("music_pause", Some(1)), None);
    assert!(handled_by_gateway("music_stop"));
    assert!(!handled_by_gateway("antinuke_toggle"));
}

#[test]
fn speaking_ducks_then_pauses_once() {
    let (s, e) = on_voice_packet(None, true, 1_000);
    assert_eq!(e, VoiceEffect::Duck);
    assert_eq!(s, SpeakerState::Speaking { speech_start: 1_000, last_packet: 1_000, auto_paused: false });
    let (s, e) = on_voice_packet(Some(s), true, 10_999);
    assert_eq!(e, VoiceEffect::Nothing);
    let (s, e) = on_voice_packet(Some(s), true, 11_000);
    assert_eq!(e, VoiceEffect::AutoPause);
    let (s, e) = on_voice_packet(Some(s), true, 30_000);
    assert_eq!(e, VoiceEffect::Nothing);
    assert_eq!(s, SpeakerState::Speaking { speech_start: 1_000, last_packet: 30_000, auto_paused: true });
    let (q, e) = on_voice_packet(None, false, 5);
    assert_eq!(e, VoiceEffect::Nothing);
    assert_eq!(q, SpeakerState::Quiet { since: 5 });
}

#[test]
fn sweeping_a_guild() {
    let mut users = vec![
        SpeakerState::Speaking { speech_start: 0, last_packet: 1_000, auto_paused: false },
        SpeakerState::Speaking { speech_start: 0, last_packet: 1_300, auto_paused: false },
        SpeakerState::Quiet { since: 200 },
    ];
    let out = sweep_guild(&mut users, 1_500);
    assert_eq!(out.stopped, vec![0]);
    assert!(!out.forget);
    assert_eq!(users[0], SpeakerState::Quiet { since: 1_500 });
    assert!(!should_restore_volume(&users));
    let out = sweep_guild(&mut users, 1_800);
    assert_eq!(out.stopped, vec![1]);
    assert!(!out.forget);
    assert!(should_restore_volume(&users));
    let out = sweep_guild(&mut users, 6_800);
    assert!(out.stopped.is_empty());
    assert!(out.forget);
    let mut none: Vec<SpeakerState> = vec![];
    assert!(sweep_guild(&mut none, 0).forget);
}

#[test]
fn reconnect_backoff_doubles_up_to_thirty() {
    let delays: Vec<u64> = (0..7).map(|r| reconnect_backoff(r).0).collect();
    assert_eq!(delays, vec![1, 2, 4, 8, 16, 30, 30]);
    assert_eq!(reconnect_backoff(3).1, 4);
    assert_eq!(reconnect_backoff(63), (30, 64));
}

#[test]
fn presence_names_the_cluster() {
    assert_eq!(presence_state(3), "🔗 /help · harmony · ✦ cluster 3");
}

#[test]
fn buttons() {
    let row = build_support_action_row();
    assert_eq!(row.len(), 1);
    assert_eq!(row[0].style, ButtonStyle::Link);
    assert_eq!(row[0].url.as_deref(), Some("https://discord.gg/fhdgshs"));
    let toggles = build_automod_settings_buttons(true, false, true);
    assert_eq!(toggles[0].label, "Spam (Active)");
    assert_eq!(toggles[0].style, ButtonStyle::Success);
    assert_eq!(toggles[1].label, "Anti-Link (Disabled)");
    assert_eq!(toggles[1].style, ButtonStyle::Danger);
    assert_eq!(toggles[2].custom_id.as_deref(), Some("automod_toggle:ghostping"));
    assert_eq!(style_from_number(1), ButtonStyle::Primary);
    assert_eq!(style_from_number(3), ButtonStyle::Success);
    assert_eq!(style_from_number(0), ButtonStyle::Secondary);
}

#[test]
fn registered_moderation_commands() {
    let cmds = moderation_commands();
    assert_eq!(cmds.len(), 2);
    assert_eq!(cmds[0].name, "antinuke");
    assert!(cmds[0].manage_guild_only);
    let names: Vec<&str> = cmds[0]
        .options
        .iter()
        .map(|o| match o {
            CommandOptionSpec::Sub(s) => s.name.as_str(),
            CommandOptionSpec::Group { name, .. } => name.as_str(),
        })
        .collect();
    assert_eq!(names, vec!["enable", "disable", "set", "punishment", "whitelisted", "settings", "whitelist"]);
    match &cmds[0].options[2] {
        CommandOptionSpec::Group { subcommands, .. } => {
            let limit = &subcommands[0];
            assert_eq!(limit.name, "limit");
            assert_eq!(limit.options[0].choices.len(), 6);
            assert_eq!(limit.options[0].choices[4].value, "CHANNEL_DELETE");
            assert_eq!(limit.options[1].kind, ValueKind::Integer);
            assert_eq!(limit.options[1].min_value, Some(0));
            assert_eq!(limit.options[1].max_value, Some(20));
        }
        _ => panic!("expected the set group"),
    }
    match &cmds[0].options[3] {
        CommandOptionSpec::Sub(s) => {
            let values: Vec<&str> = s.options[1].choices.iter().map(|c| c.value.as_str()).collect();
            assert_eq!(values, vec!["BAN", "KICK", "STRIP_ROLES"]);
        }
        _ => panic!("expected the punishment subcommand"),
    }
    assert_eq!(cmds[1].name, "automod");
    assert_eq!(cmds[1].options.len(), 3);
}

#[test]
fn sanitizing_twice_changes_nothing() {
    for url in ["postgres://u:p@db/x", "postgres://db/x", "a@b@c", "redis://:pw@cache:6379", "redis://cache", "x@y"] {
        let once = sanitize_postgres_url(url);
        assert_eq!(sanitize_postgres_url(&once), once);
        let once = sanitize_redis_url(url);
        assert_eq!(sanitize_redis_url(&once), once);
    }
}
