use harmony::antinuke::{
    already_disabled_reply, already_enabled_reply, attach_log_channel, config_or_default,
    disabled_reply, enable_config, enabled_reply, limit_reply, limit_row, parse_mentioned_user,
    plan_disable, plan_enable, punishment_reply, punishment_row, settings_reply, toggle_config,
    whitelist_added_reply, whitelist_removed_reply, whitelisted_reply, AntinukeCommandHandler,
    AntinukeConfig, AntinukeModuleConfigRow, AntinukeRequest, DisablePlan, EnablePlan,
    DEFAULT_WINDOW_SECS,
};
use harmony::automod::{
    automod_disabled_reply, automod_enabled_reply, native_rules, ActionType, AutomodCommandHandler,
    AutomodRequest, AutomodRule, NativeRuleKind, TriggerType,
};
use harmony::components::{
    denied_reply, has_manage_permission, plan_automod_toggle, plan_component, unban_failed_reply,
    unbanned_reply, whitelisted_by_button_reply, AutomodToggle, ComponentAction,
};
use harmony::error::RailwayError;
use harmony::interaction::{
    InteractionContext, InteractionData, LeafOption, LeafValue, SubOption, SubValue, TopOption, TopValue,
};
use harmony::router::{route_interaction, route_moderation, InteractionRoute, ModerationRoute};
use harmony::schema::{antinuke_command, CommandOptionSpec};
use harmony::commands::CommandKind;

fn strings(v: &[&str]) -> Vec<String> {
    v.iter().map(|s| s.to_string()).collect()
}

fn internal(r: &RailwayError) -> String {
    match r {
        RailwayError::Internal(m) => m.clone(),
        _ => panic!("expected an internal error"),
    }
}

fn slash(name: &str, options: Vec<TopOption>) -> InteractionContext {
    InteractionContext {
        guild_id: Some(10),
        user_id: Some(20),
        data: InteractionData::ApplicationCommand { name: name.to_string(), options },
    }
}

fn sub(name: &str, opts: Vec<LeafOption>) -> TopOption {
    TopOption { name: name.to_string(), value: TopValue::SubCommand(opts) }
}

fn group(name: &str, inner: &str, opts: Vec<LeafOption>) -> TopOption {
    TopOption {
        name: name.to_string(),
        value: TopValue::SubCommandGroup(vec![SubOption { name: inner.to_string(), value: SubValue::SubCommand(opts) }]),
    }
}

fn leaf(name: &str, value: LeafValue) -> LeafOption {
    LeafOption { name: name.to_string(), value }
}

fn config(enabled: bool, log: Option<i64>) -> AntinukeConfig {
    AntinukeConfig { guild_id: 1, enabled, log_channel_id: log, updated_at: 1_700_000_000_000 }
}

fn row(action: &str, threshold: i32, punishment: &str) -> AntinukeModuleConfigRow {
    AntinukeModuleConfigRow {
        guild_id: 1,
        action_type: action.to_string(),
        enabled: true,
        threshold,
        window_secs: 60,
        punishment: punishment.to_string(),
        log_only: false,
    }
}

#[test]
fn antinuke_prefix_commands() {
    let h = AntinukeCommandHandler::new();
    assert!(matches!(h.plan_prefix(&vec![], 5), AntinukeRequest::Help));
    assert!(matches!(h.plan_prefix(&strings(&["ENABLE"]), 5), AntinukeRequest::Enable));
    assert!(matches!(h.plan_prefix(&strings(&["disable"]), 5), AntinukeRequest::Disable));
    assert!(matches!(h.plan_prefix(&strings(&["Settings"]), 5), AntinukeRequest::Settings));
    assert!(matches!(h.plan_prefix(&strings(&["whitelisted"]), 5), AntinukeRequest::ListWhitelisted));
    match h.plan_prefix(&strings(&["set", "LIMIT", "ROLE_DELETE", "4"]), 5) {
        AntinukeRequest::SetLimit { action, threshold, window_secs } => {
            assert_eq!(action, "ROLE_DELETE");
            assert_eq!(threshold, 4);
            assert_eq!(window_secs, DEFAULT_WINDOW_SECS);
            assert_eq!(window_secs, 60);
        }
        _ => panic!("expected a limit"),
    }
    match h.plan_prefix(&strings(&["set", "limit"]), 5) {
        AntinukeRequest::SetLimit { action, threshold, .. } => {
            assert_eq!(action, "BAN_ADD");
            assert_eq!(threshold, 0);
        }
        _ => panic!("expected a limit"),
    }
    match h.plan_prefix(&strings(&["set", "limit", "BAN_ADD", "lots"]), 5) {
        AntinukeRequest::SetLimit { threshold, .. } => assert_eq!(threshold, 0),
        _ => panic!("expected a limit"),
    }
    match h.plan_prefix(&strings(&["set", "punish"]), 5) {
        AntinukeRequest::Reply(t) => assert_eq!(t, "Invalid set subcommand. Use: `set limit`"),
        _ => panic!("expected a reply"),
    }
    match h.plan_prefix(&strings(&["whitelist", "add", "<@!123>"]), 5) {
        AntinukeRequest::WhitelistAdd { user_id, added_by } => {
            assert_eq!(user_id, 123);
            assert_eq!(added_by, 5);
        }
        _ => panic!("expected an addition"),
    }
    assert!(matches!(
        h.plan_prefix(&strings(&["whitelist", "Remove", "456"]), 5),
        AntinukeRequest::WhitelistRemove { user_id: 456 }
    ));
    match h.plan_prefix(&strings(&["whitelist", "add", "bob"]), 5) {
        AntinukeRequest::Reply(t) => assert_eq!(
            t,
            "Invalid whitelist arguments. Use: `whitelist add @user` or `whitelist remove @user`"
        ),
        _ => panic!("expected a reply"),
    }
    match h.plan_prefix(&strings(&["whitelist", "swap", "1"]), 5) {
        AntinukeRequest::Reply(t) => assert_eq!(t, "Unknown whitelist subcommand"),
        _ => panic!("expected a reply"),
    }
    match h.plan_prefix(&strings(&["nuke"]), 5) {
        AntinukeRequest::Reply(t) => assert_eq!(t, "Unknown antinuke command."),
        _ => panic!("expected a reply"),
    }
}

#[test]
fn mentions_read_back() {
    assert_eq!(parse_mentioned_user("<@42>"), Some(42));
    assert_eq!(parse_mentioned_user("<@!42>"), Some(42));
    assert_eq!(parse_mentioned_user("42"), Some(42));
    assert_eq!(parse_mentioned_user("<@4!2>"), Some(42));
    assert_eq!(parse_mentioned_user("<#42>"), None);
    assert_eq!(parse_mentioned_user(""), None);
    assert_eq!(parse_mentioned_user("<@18446744073709551616>"), None);
}

#[test]
fn antinuke_slash_commands() {
    let h = AntinukeCommandHandler::new();
    let plan = h.plan_slash(&slash("antinuke", vec![sub("settings", vec![])])).unwrap().unwrap();
    assert!(plan.is_settings);
    assert!(matches!(plan.request, AntinukeRequest::Settings));
    let plan = h.plan_slash(&slash("antinuke", vec![sub("enable", vec![])])).unwrap().unwrap();
    assert!(!plan.is_settings);
    assert!(matches!(plan.request, AntinukeRequest::Enable));
    let limit = group(
        "set",
        "limit",
        vec![leaf("action", LeafValue::String("CHANNEL_DELETE".into())), leaf("limit", LeafValue::Integer(2))],
    );
    match h.plan_slash(&slash("antinuke", vec![limit])).unwrap().unwrap().request {
        AntinukeRequest::SetLimit { action, threshold, window_secs } => {
            assert_eq!(action, "CHANNEL_DELETE");
            assert_eq!(threshold, 2);
            assert_eq!(window_secs, 60);
        }
        _ => panic!("expected a limit"),
    }
    let add = group("whitelist", "add", vec![leaf("user", LeafValue::User(77))]);
    assert!(matches!(
        h.plan_slash(&slash("antinuke", vec![add])).unwrap().unwrap().request,
        AntinukeRequest::WhitelistAdd { user_id: 77, added_by: 20 }
    ));
    let remove = group("whitelist", "remove", vec![]);
    match h.plan_slash(&slash("antinuke", vec![remove])).unwrap().unwrap().request {
        AntinukeRequest::Reply(t) => assert_eq!(t, "User not found"),
        _ => panic!("expected a reply"),
    }
    // `punishment` is registered but this handler does not dispatch it.
    match h.plan_slash(&slash("antinuke", vec![sub("punishment", vec![])])).unwrap().unwrap().request {
        AntinukeRequest::Reply(t) => assert_eq!(t, "Unknown subcommand"),
        _ => panic!("expected a reply"),
    }
    assert!(h.plan_slash(&slash("antinuke", vec![])).unwrap().is_none());
    let mut dm = slash("antinuke", vec![sub("enable", vec![])]);
    dm.guild_id = None;
    assert_eq!(internal(&h.plan_slash(&dm).err().unwrap()), "Command must be run in a guild");
    let mut anon = slash("antinuke", vec![group("whitelist", "add", vec![leaf("user", LeafValue::User(1))])]);
    anon.user_id = None;
    assert_eq!(internal(&h.plan_slash(&anon).err().unwrap()), "Interaction has no author");
    let click = InteractionContext {
        guild_id: Some(1),
        user_id: Some(2),
        data: InteractionData::MessageComponent { custom_id: "x".into() },
    };
    assert_eq!(internal(&h.plan_slash(&click).err().unwrap()), "Not an application command");
}

#[test]
fn enabling_and_disabling() {
    assert!(matches!(plan_enable(&Some(config(true, Some(9))), 1), EnablePlan::AlreadyEnabled));
    match plan_enable(&None, 3) {
        EnablePlan::Proceed { config, needs_log_channel } => {
            assert!(needs_log_channel);
            assert_eq!(config.guild_id, 3);
            assert!(!config.enabled);
            let on = enable_config(config, Some(55));
            assert!(on.enabled);
            assert_eq!(on.log_channel_id, Some(55));
        }
        _ => panic!("expected to proceed"),
    }
    match plan_enable(&Some(config(false, Some(9))), 1) {
        EnablePlan::Proceed { config, needs_log_channel } => {
            assert!(!needs_log_channel);
            assert_eq!(enable_config(config, Some(55)).log_channel_id, Some(9));
        }
        _ => panic!("expected to proceed"),
    }
    assert!(matches!(plan_disable(&None, 1), DisablePlan::AlreadyDisabled));
    assert!(matches!(plan_disable(&Some(config(false, None)), 1), DisablePlan::AlreadyDisabled));
    match plan_disable(&Some(config(true, Some(9))), 1) {
        DisablePlan::Proceed { config, delete_channel } => {
            assert!(!config.enabled);
            assert_eq!(config.log_channel_id, None);
            assert_eq!(config.updated_at, 1_700_000_000_000);
            assert_eq!(delete_channel, Some(9));
        }
        _ => panic!("expected to proceed"),
    }
}

#[test]
fn toggling_twice_restores_the_settings() {
    let start = config(true, Some(9));
    let (once, needs) = toggle_config(&Some(config(true, Some(9))), 1);
    assert!(!once.enabled);
    assert!(!needs);
    let (twice, _) = toggle_config(&Some(once), 1);
    assert_eq!(twice.enabled, start.enabled);
    assert_eq!(twice.log_channel_id, start.log_channel_id);
    assert_eq!(twice.updated_at, start.updated_at);
    let (fresh, needs) = toggle_config(&None, 4);
    assert!(fresh.enabled && needs);
    assert_eq!(fresh.guild_id, 4);
    // The fresh settings are stamped with the clock, which is after 2023.
    assert!(fresh.updated_at > 1_672_531_200_000);
    let with_channel = attach_log_channel(fresh, 77);
    assert_eq!(with_channel.log_channel_id, Some(77));
    assert!(with_channel.enabled);
}

#[test]
fn stored_settings_are_kept() {
    let c = config_or_default(&Some(config(true, Some(3))), 99);
    assert_eq!(c.guild_id, 1);
    assert!(c.enabled);
    let d = config_or_default(&None, 99);
    assert_eq!(d.guild_id, 99);
    assert!(!d.enabled);
    assert_eq!(d.log_channel_id, None);
}

#[test]
fn limit_rows_keep_the_punishment() {
    let rows = vec![row("BAN_ADD", 2, "KICK"), row("BAN_ADD", 5, "STRIP_ROLES"), row("ROLE_CREATE", 1, "BAN")];
    let r = limit_row(&rows, 1, "BAN_ADD", 7, 60);
    assert_eq!(r.punishment, "KICK");
    assert_eq!(r.threshold, 7);
    assert!(r.enabled && !r.log_only);
    let r = limit_row(&rows, 1, "MEMBER_KICK", 0, 60);
    assert_eq!(r.punishment, "BAN");
    assert_eq!(r.action_type, "MEMBER_KICK");
    let p = punishment_row(&rows, 1, "ROLE_CREATE", "KICK");
    assert_eq!(p.punishment, "KICK");
    assert_eq!(p.threshold, 1);
    assert!(p.enabled);
    let p = punishment_row(&rows, 8, "CHANNEL_DELETE", "BAN");
    assert_eq!(p.guild_id, 8);
    assert_eq!(p.threshold, 3);
    assert_eq!(p.window_secs, 60);
    assert!(!p.enabled);
}

#[test]
fn antinuke_replies() {
    assert_eq!(
        limit_reply("BAN_ADD", 0, "BAN"),
        "🚨 **Zero-Tolerance limit set for BAN_ADD!** Instant BAN will be applied on the very first detection."
    );
    assert_eq!(
        limit_reply("ROLE_DELETE", -3, "KICK"),
        "✅ Limit updated for **ROLE_DELETE**: **-3** actions allowed. Punishment: **KICK**"
    );
    assert_eq!(punishment_reply("BAN_ADD", "KICK"), "⚖️ Punishment for **BAN_ADD** has been updated to **KICK**.");
    assert_eq!(whitelist_added_reply(12), "✅ User <@12> added to whitelist.");
    assert_eq!(whitelist_removed_reply(-12), "✅ User <@-12> removed from whitelist.");
    assert_eq!(enabled_reply(), "✅ AntiNuke is now **enabled** for this server. Log channel created.");
    assert_eq!(already_enabled_reply(), "✅ AntiNuke is already enabled for this server.");
    assert_eq!(disabled_reply(), "❌ AntiNuke is now **disabled** for this server.");
    assert_eq!(already_disabled_reply(), "❌ AntiNuke is already disabled for this server.");
}

#[test]
fn settings_overview() {
    assert_eq!(settings_reply(&None, &vec![], 3), "**AntiNuke Settings**\nStatus: 🔴 Disabled\nWhitelisted Users: 3");
    assert_eq!(
        settings_reply(&Some(config(true, Some(55))), &vec![], 0),
        "**AntiNuke Settings**\nStatus: 🟢 Enabled\nLog Channel: <#55>\nWhitelisted Users: 0\n\n**Limits:**\nNo specific limits configured."
    );
    assert_eq!(
        settings_reply(&Some(config(false, None)), &vec![row("BAN_ADD", 2, "KICK"), row("ROLE_DELETE", 0, "BAN")], 1),
        "**AntiNuke Settings**\nStatus: 🔴 Disabled\nLog Channel: None\nWhitelisted Users: 1\n\n**Limits:**\n- BAN_ADD: 2/60s (KICK)\n- ROLE_DELETE: 0/60s (BAN)\n"
    );
}

#[test]
fn whitelisted_list_is_cut_at_1800_bytes() {
    assert_eq!(whitelisted_reply(&vec![]), "🛡️ There are currently **0** users whitelisted from AntiNuke.");
    assert_eq!(
        whitelisted_reply(&vec![1, 22]),
        "🛡️ There are currently **2** users whitelisted from AntiNuke:\n<@1>, <@22>"
    );
    let ids: Vec<i64> = (0..100).map(|i| 100_000_000_000_000_000 + i).collect();
    let joined = ids.iter().map(|i| format!("<@{i}>")).collect::<Vec<_>>().join(", ");
    assert!(joined.len() > 1800);
    let expected = format!(
        "🛡️ There are currently **100** users whitelisted from AntiNuke:\n{}... and more",
        &joined[..1800]
    );
    assert_eq!(whitelisted_reply(&ids), expected);
}

#[test]
fn automod_codes_round_trip() {
    for t in [TriggerType::Spam, TriggerType::AntiLink, TriggerType::GhostPing] {
        assert_eq!(TriggerType::try_from(t.code()), Ok(t));
    }
    for a in [ActionType::DeleteMessage, ActionType::Timeout, ActionType::DeleteAndTimeout] {
        assert_eq!(ActionType::try_from(a.code()), Ok(a));
    }
    assert_eq!(TriggerType::try_from(2), Ok(TriggerType::AntiLink));
    assert_eq!(TriggerType::try_from(0), Err("Invalid TriggerType"));
    assert_eq!(ActionType::try_from(4), Err("Invalid ActionType"));
    assert_eq!(ActionType::try_from(-1), Err("Invalid ActionType"));
}

#[test]
fn automod_commands() {
    let h = AutomodCommandHandler::new();
    assert!(matches!(h.plan_prefix(&vec![]), AutomodRequest::Help));
    assert!(matches!(h.plan_prefix(&strings(&["Enable"])), AutomodRequest::Enable));
    assert!(matches!(h.plan_prefix(&strings(&["disable", "now"])), AutomodRequest::Disable));
    match h.plan_prefix(&strings(&["settings"])) {
        AutomodRequest::Reply(t) => assert_eq!(t, "Unknown command. Use `enable` or `disable`."),
        _ => panic!("expected a reply"),
    }
    let plan = h.plan_slash(&slash("automod", vec![sub("settings", vec![])])).unwrap().unwrap();
    assert!(plan.is_settings);
    match plan.request {
        AutomodRequest::Reply(t) => {
            assert_eq!(t, "AutoMod settings are now managed in Discord's native Server Settings -> AutoMod.")
        }
        _ => panic!("expected a reply"),
    }
    let plan = h.plan_slash(&slash("automod", vec![sub("enable", vec![])])).unwrap().unwrap();
    assert!(matches!(plan.request, AutomodRequest::Enable));
    assert!(h.plan_slash(&slash("automod", vec![])).unwrap().is_none());
    assert_eq!(automod_enabled_reply(), "✅ AutoMod has been **enabled** in this server! All Native rules created.");
    assert_eq!(automod_disabled_reply(), "✅ AutoMod has been **disabled** in this server! All Native rules deleted.");
    let rules = native_rules();
    assert_eq!(rules.len(), 4);
    assert_eq!(rules[1].name, "Prismo AutoMod Rule 2");
    assert_eq!(rules[1].kind, NativeRuleKind::MentionSpam(5));
    assert_eq!(rules[3].kind, NativeRuleKind::Spam);
}

#[test]
fn component_clicks() {
    let manager = Some(0x20u64);
    let admin = Some(0x8u64);
    assert!(has_manage_permission(manager));
    assert!(has_manage_permission(admin));
    assert!(!has_manage_permission(Some(0x10)));
    assert!(!has_manage_permission(None));
    assert!(matches!(
        plan_component(Some(1), Some(0x10), "antinuke_toggle", Some(2)),
        Ok(ComponentAction::Deny)
    ));
    assert!(matches!(
        plan_component(Some(1), manager, "antinuke_wl:123", Some(2)),
        Ok(ComponentAction::Whitelist { target: 123, clicker: 2 })
    ));
    assert_eq!(
        internal(&plan_component(Some(1), manager, "antinuke_wl:abc", Some(2)).err().unwrap()),
        "Invalid target user ID in custom_id"
    );
    assert_eq!(
        internal(&plan_component(Some(1), manager, "antinuke_wl:5", None).err().unwrap()),
        "Interaction has no author"
    );
    assert!(matches!(
        plan_component(Some(1), admin, "antinuke_unban:77", None),
        Ok(ComponentAction::Unban { target: 77 })
    ));
    assert!(matches!(
        plan_component(Some(1), admin, "antinuke_toggle", None),
        Ok(ComponentAction::ToggleAntinuke)
    ));
    match plan_component(Some(1), admin, "automod_toggle:antilink", None) {
        Ok(ComponentAction::ToggleAutomod { trigger, filter }) => {
            assert_eq!(trigger, 2);
            assert_eq!(filter, "antilink");
        }
        _ => panic!("expected an automod toggle"),
    }
    assert_eq!(
        internal(&plan_component(Some(1), admin, "automod_toggle:caps", None).err().unwrap()),
        "Invalid filter type"
    );
    assert!(matches!(plan_component(Some(1), admin, "music_stop", None), Ok(ComponentAction::Ignore)));
    assert_eq!(
        internal(&plan_component(None, admin, "antinuke_toggle", None).err().unwrap()),
        "Interaction must be in a guild"
    );
    assert_eq!(denied_reply(), "❌ Aapke paas is action ko perform karne ki permissions (Manage Guild) nahi hain!");
    assert_eq!(whitelisted_by_button_reply(9), "✅ User <@9> has been whitelisted successfully!");
    assert_eq!(unbanned_reply(9), "✅ User <@9> has been unbanned successfully!");
    assert_eq!(unban_failed_reply("Unknown Ban"), "❌ Failed to unban user: Unknown Ban");
}

#[test]
fn automod_toggles() {
    let rule = AutomodRule {
        id: 4,
        guild_id: 1,
        name: "AutoMod \"spam\"".into(),
        trigger_type: 1,
        action_type: 2,
        enabled: true,
        created_at: 10,
        updated_at: 20,
    };
    match plan_automod_toggle(Some(rule), 1, "spam") {
        AutomodToggle::Update(u) => {
            assert!(!u.enabled);
            assert_eq!(u.id, 4);
            assert_eq!(u.name, "AutoMod \"spam\"");
        }
        _ => panic!("expected an update"),
    }
    match plan_automod_toggle(None, 2, "antilink") {
        AutomodToggle::Create { name, action_type } => {
            assert_eq!(name, format!("AutoMod {:?}", "antilink"));
            assert_eq!(action_type, 1);
        }
        _ => panic!("expected a creation"),
    }
    match plan_automod_toggle(None, 3, "ghostping") {
        AutomodToggle::Create { action_type, .. } => assert_eq!(action_type, 2),
        _ => panic!("expected a creation"),
    }
}

#[test]
fn interaction_routing() {
    let click = |id: &str| InteractionContext {
        guild_id: Some(1),
        user_id: Some(2),
        data: InteractionData::MessageComponent { custom_id: id.into() },
    };
    assert!(matches!(route_interaction(&click("music_stop")), Ok(InteractionRoute::Ignore)));
    assert!(matches!(route_interaction(&click("music_skip")), Ok(InteractionRoute::Ignore)));
    assert!(matches!(route_interaction(&click("other")), Ok(InteractionRoute::DeferUpdate)));
    assert!(matches!(
        route_interaction(&slash("queue", vec![])),
        Ok(InteractionRoute::Slash(CommandKind::Queue))
    ));
    assert!(matches!(route_interaction(&slash("dance", vec![])), Ok(InteractionRoute::Ignore)));
    let empty = InteractionContext { guild_id: Some(1), user_id: None, data: InteractionData::Missing };
    assert_eq!(internal(&route_interaction(&empty).err().unwrap()), "Interaction has no command data");

    assert!(matches!(route_moderation(&slash("antinuke", vec![]), None), Ok(ModerationRoute::Antinuke)));
    assert!(matches!(route_moderation(&slash("automod", vec![]), None), Ok(ModerationRoute::Automod)));
    assert_eq!(internal(&route_moderation(&slash("play", vec![]), None).err().unwrap()), "Unknown command: play");
    assert!(matches!(
        route_moderation(&click("antinuke_toggle"), Some(0x20)),
        Ok(ModerationRoute::Component(ComponentAction::ToggleAntinuke))
    ));
    assert!(matches!(
        route_moderation(&click("antinuke_toggle"), Some(0)),
        Ok(ModerationRoute::Component(ComponentAction::Deny))
    ));
}

#[test]
fn interaction_context_accessors() {
    let ctx = slash(
        "antinuke",
        vec![
            TopOption { name: "level".into(), value: TopValue::Leaf(LeafValue::Integer(30)) },
            TopOption { name: "query".into(), value: TopValue::Leaf(LeafValue::String("abc".into())) },
            TopOption { name: "level".into(), value: TopValue::Leaf(LeafValue::Integer(99)) },
        ],
    );
    assert_eq!(ctx.extract_command_name().ok(), Some("antinuke"));
    assert!(!ctx.is_component());
    assert_eq!(ctx.extract_integer_option("level"), Some(30));
    assert_eq!(ctx.extract_string_option("query"), Some("abc".to_string()));
    assert_eq!(ctx.extract_string_option("level"), None);
    assert_eq!(ctx.extract_integer_option("missing"), None);
    assert_eq!(internal(&ctx.extract_custom_id().err().unwrap()), "Interaction is not a message component");
}

#[test]
fn every_registered_antinuke_subcommand_but_punishment_is_handled() {
    let h = AntinukeCommandHandler::new();
    let unknown = ["Unknown subcommand", "Unknown set subcommand", "Unknown whitelist subcommand"];
    for option in antinuke_command().options {
        let (name, invocations) = match option {
            CommandOptionSpec::Sub(s) => (s.name.clone(), vec![sub(&s.name, vec![])]),
            CommandOptionSpec::Group { name, subcommands, .. } => {
                let calls = subcommands.iter().map(|s| group(&name, &s.name, vec![])).collect();
                (name, calls)
            }
        };
        for call in invocations {
            let request = h.plan_slash(&slash("antinuke", vec![call])).unwrap().unwrap().request;
            let is_unknown = matches!(&request, AntinukeRequest::Reply(t) if unknown.contains(&t.as_str()));
            assert_eq!(is_unknown, name == "punishment", "{name}");
        }
    }
}
