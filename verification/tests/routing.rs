use harmony::commands::{
    resolve_alias, resolve_slash, CommandKind, FilterAppCommand, FilterPrefixCommand, MessageInfo,
    MessageRoute, PauseAppCommand, PausePrefixCommand, QueueAppCommand, QueuePrefixCommand,
    ResumeAppCommand, ResumePrefixCommand, SkipAppCommand, SkipPrefixCommand, StopAppCommand,
    StopPrefixCommand, VolumeAppCommand, VolumePrefixCommand,
};
use harmony::ids::{get_bot_id, set_bot_id, shard_for_guild, BotIdentity};
use harmony::prefix::PrefixRouter;

fn message(content: &str) -> MessageInfo {
    MessageInfo {
        author_is_bot: false,
        from_webhook: false,
        guild_id: Some(42),
        content: content.to_string(),
    }
}

#[test]
fn bot_id_is_zero_until_set() {
    let mut id = BotIdentity::new();
    assert_eq!(get_bot_id(&id), 0);
    set_bot_id(&mut id, 123456789012345678);
    assert_eq!(get_bot_id(&id), 123456789012345678);
    set_bot_id(&mut id, 5);
    assert_eq!(get_bot_id(&id), 5);
}

#[test]
fn prefix_splits_command_and_trimmed_rest() {
    let router = PrefixRouter::new("!".to_string());
    let id = BotIdentity::new();
    assert_eq!(router.parse_prefix("  !play  never gonna   ", &id), Some(("play", "never gonna")));
    assert_eq!(router.parse_prefix("!skip", &id), Some(("skip", "")));
    assert_eq!(router.parse_prefix("! queue", &id), Some(("queue", "")));
    assert_eq!(router.parse_prefix("!", &id), None);
    assert_eq!(router.parse_prefix("!   ", &id), None);
    assert_eq!(router.parse_prefix("play now", &id), None);
    assert_eq!(router.parse_prefix("?play", &id), None);
}

#[test]
fn multi_character_prefix() {
    let router = PrefixRouter::new("h!".to_string());
    let id = BotIdentity::new();
    assert_eq!(router.parse_prefix("h!vol 50", &id), Some(("vol", "50")));
    assert_eq!(router.parse_prefix("h vol 50", &id), None);
}

#[test]
fn mention_counts_as_prefix_once_the_id_is_known() {
    let router = PrefixRouter::new("!".to_string());
    let mut id = BotIdentity::new();
    assert_eq!(router.parse_prefix("<@0> play x", &id), None);
    set_bot_id(&mut id, 987);
    assert_eq!(router.parse_prefix("<@987> play x", &id), Some(("play", "x")));
    assert_eq!(router.parse_prefix("<@!987> stop", &id), Some(("stop", "")));
    assert_eq!(router.parse_prefix("<@988> stop", &id), None);
    assert_eq!(router.parse_prefix("<@987>stop", &id), None);
}

#[test]
fn law_prefixed_command_on_values() {
    let router = PrefixRouter::new("!!".to_string());
    let id = BotIdentity::new();
    assert_eq!(router.parse_prefix("!!filter \t bassboost  ", &id), Some(("filter", "bassboost")));
    assert_eq!(router.parse_prefix("!!filter", &id), Some(("filter", "")));
}

#[test]
fn route_message_lowercases_the_command_word() {
    let router = PrefixRouter::new("!".to_string());
    let id = BotIdentity::new();
    match router.route_message(&message("!SKIP"), &id) {
        MessageRoute::Run { kind, guild_id, args } => {
            assert_eq!(kind, CommandKind::Skip);
            assert_eq!(guild_id, 42);
            assert!(args.is_empty());
        }
        _ => panic!("expected a command"),
    }
    match router.route_message(&message("!Vol  80 extra"), &id) {
        MessageRoute::Run { kind, args, .. } => {
            assert_eq!(kind, CommandKind::Volume);
            assert_eq!(args, vec!["80".to_string(), "extra".to_string()]);
        }
        _ => panic!("expected a command"),
    }
    // Unicode lowercasing goes through `str::to_lowercase`: `Ｑ` is not `q`.
    assert!(matches!(router.route_message(&message("!Ｑ"), &id), MessageRoute::Ignore));
    assert!(matches!(router.route_message(&message("!PiNg"), &id), MessageRoute::Ping));
    assert!(matches!(router.route_message(&message("!dance"), &id), MessageRoute::Ignore));
}

#[test]
fn route_message_ignores_bots_webhooks_and_direct_messages() {
    let router = PrefixRouter::new("!".to_string());
    let id = BotIdentity::new();
    let mut m = message("!play x");
    m.author_is_bot = true;
    assert!(matches!(router.route_message(&m, &id), MessageRoute::Ignore));
    let mut m = message("!play x");
    m.from_webhook = true;
    assert!(matches!(router.route_message(&m, &id), MessageRoute::Ignore));
    let mut m = message("!play x");
    m.guild_id = None;
    assert!(matches!(router.route_message(&m, &id), MessageRoute::Ignore));
    assert!(matches!(router.route_message(&message("play x"), &id), MessageRoute::Ignore));
}

#[test]
fn aliases_reach_their_command() {
    let table: Vec<(Vec<&str>, CommandKind)> = vec![
        (StopPrefixCommand.aliases(), CommandKind::Stop),
        (SkipPrefixCommand.aliases(), CommandKind::Skip),
        (PausePrefixCommand.aliases(), CommandKind::Pause),
        (ResumePrefixCommand.aliases(), CommandKind::Resume),
        (VolumePrefixCommand.aliases(), CommandKind::Volume),
        (FilterPrefixCommand.aliases(), CommandKind::Filter),
        (QueuePrefixCommand.aliases(), CommandKind::Queue),
    ];
    for (aliases, kind) in table {
        for a in aliases {
            assert_eq!(resolve_alias(a), Some(kind), "{a}");
        }
    }
    assert_eq!(SkipPrefixCommand.aliases(), vec!["skip", "s", "next"]);
    assert_eq!(VolumePrefixCommand.aliases(), vec!["volume", "vol", "v"]);
    assert_eq!(resolve_alias("play"), Some(CommandKind::Play));
    assert_eq!(resolve_alias("Play"), None);
    assert_eq!(resolve_alias("nxt"), None);
}

#[test]
fn slash_names_resolve() {
    let names = [
        (StopAppCommand.name(), CommandKind::Stop),
        (SkipAppCommand.name(), CommandKind::Skip),
        (PauseAppCommand.name(), CommandKind::Pause),
        (ResumeAppCommand.name(), CommandKind::Resume),
        (VolumeAppCommand.name(), CommandKind::Volume),
        (FilterAppCommand.name(), CommandKind::Filter),
        (QueueAppCommand.name(), CommandKind::Queue),
    ];
    for (n, k) in names {
        assert_eq!(resolve_slash(n), Some(k));
    }
    assert_eq!(StopAppCommand.name(), "stop");
    assert_eq!(resolve_slash("play"), Some(CommandKind::Play));
    assert_eq!(resolve_slash("s"), None);
}

#[test]
fn shard_of_guild_uses_timestamp_bits() {
    // 175928847299117063 >> 22 == 41944705796
    assert_eq!(shard_for_guild(175928847299117063, 1), 0);
    assert_eq!(shard_for_guild(175928847299117063, 10), (41944705796u64 % 10) as u32);
    assert_eq!(shard_for_guild(4194303, 3), 0);
    assert_eq!(shard_for_guild(4194304 * 7, 3), 1);
}
