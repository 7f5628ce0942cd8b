use vstd::prelude::*;
use vstd::string::*;
use crate::error::{RailwayError, is_internal};
use crate::interaction::{InteractionContext, InteractionData, SubOption, SubValue, TopOption, TopValue, find_integer, find_string, find_user, named_integer, named_string, named_user};
use vstd::utf8::{encode_utf8, is_ascii_chars, is_ascii_chars_encode_utf8};
use crate::numbers::{all_digits, dec, dec_int, digit_value, law_decimal_round_trip, lemma_dec_digits, lemma_dec_int_ascii, parse_i32, parse_i32_exec, parse_unsigned, parse_unsigned_exec, push_dec, push_dec_signed};
use crate::text::{lemma_replace_absent, lemma_replace_single_concat, lowercase, replace_all, starts_with, str_equals, str_replace, str_to_lowercase};

verus! {

/// The antinuke command handler; it keeps no state of its own.
pub struct AntinukeCommandHandler {}

impl AntinukeCommandHandler {
    /// A handler.
    pub fn new() -> (r: AntinukeCommandHandler) {
        AntinukeCommandHandler {}
    }
}

/// What an antinuke command asks for.
pub enum AntinukeRequest {
    /// Turn protection on.
    Enable,
    /// Turn protection off.
    Disable,
    /// Show the settings.
    Settings,
    /// List the whitelisted users.
    ListWhitelisted,
    /// Set how many of an action are allowed before punishment.
    SetLimit { action: String, threshold: i32, window_secs: i32 },
    /// Exempt a user, on behalf of another.
    WhitelistAdd { user_id: u64, added_by: u64 },
    /// End a user's exemption.
    WhitelistRemove { user_id: u64 },
    /// Only answer with the given text.
    Reply(String),
    /// Show the list of commands.
    Help,
}

/// `AntinukeRequest` with its texts as sequences of characters.
pub enum RequestView {
    Enable,
    Disable,
    Settings,
    ListWhitelisted,
    SetLimit { action: Seq<char>, threshold: i32, window_secs: i32 },
    WhitelistAdd { user_id: u64, added_by: u64 },
    WhitelistRemove { user_id: u64 },
    Reply(Seq<char>),
    Help,
}

impl View for AntinukeRequest {
    type V = RequestView;

    open spec fn view(&self) -> RequestView {
        match self {
            AntinukeRequest::Enable => RequestView::Enable,
            AntinukeRequest::Disable => RequestView::Disable,
            AntinukeRequest::Settings => RequestView::Settings,
            AntinukeRequest::ListWhitelisted => RequestView::ListWhitelisted,
            AntinukeRequest::SetLimit { action, threshold, window_secs } => RequestView::SetLimit {
                action: action@,
                threshold: *threshold,
                window_secs: *window_secs,
            },
            AntinukeRequest::WhitelistAdd { user_id, added_by } => RequestView::WhitelistAdd {
                user_id: *user_id,
                added_by: *added_by,
            },
            AntinukeRequest::WhitelistRemove { user_id } => RequestView::WhitelistRemove { user_id: *user_id },
            AntinukeRequest::Reply(t) => RequestView::Reply(t@),
            AntinukeRequest::Help => RequestView::Help,
        }
    }
}

/// The window, in seconds, that limits set by command use.
pub const DEFAULT_WINDOW_SECS: i32 = 60;

/// The request of `/antinuke set ...`.
pub open spec fn set_group_request(g: Seq<SubOption>) -> RequestView {
    if g.len() == 0 {
        RequestView::Reply("Invalid set subcommand"@)
    } else if g[0].name@ == "limit"@ {
        match g[0].value {
            SubValue::SubCommand(opts) => RequestView::SetLimit {
                action: match named_string(opts@, "action"@) {
                    Some(a) => a,
                    None => "BAN_ADD"@,
                },
                threshold: match named_integer(opts@, "limit"@) {
                    Some(v) => v as i32,
                    None => 0,
                },
                window_secs: 60,
            },
            SubValue::Other => RequestView::Reply("Invalid limit options"@),
        }
    } else {
        RequestView::Reply("Unknown set subcommand"@)
    }
}

/// The request of `/antinuke whitelist ...`; none when an addition has no author.
pub open spec fn whitelist_group_request(g: Seq<SubOption>, author: Option<u64>) -> Option<RequestView> {
    if g.len() == 0 {
        Some(RequestView::Reply("Invalid whitelist subcommand"@))
    } else {
        match g[0].value {
            SubValue::SubCommand(opts) => if g[0].name@ == "add"@ {
                match named_user(opts@, "user"@) {
                    Some(uid) => match author {
                        Some(a) => Some(RequestView::WhitelistAdd { user_id: uid, added_by: a }),
                        None => None,
                    },
                    None => Some(RequestView::Reply("User not found"@)),
                }
            } else if g[0].name@ == "remove"@ {
                match named_user(opts@, "user"@) {
                    Some(uid) => Some(RequestView::WhitelistRemove { user_id: uid }),
                    None => Some(RequestView::Reply("User not found"@)),
                }
            } else {
                Some(RequestView::Reply("Unknown whitelist subcommand"@))
            },
            SubValue::Other => Some(RequestView::Reply("Unknown whitelist subcommand"@)),
        }
    }
}

/// The request of an `/antinuke` subcommand; none when an addition has no author.
pub open spec fn slash_request(o: TopOption, author: Option<u64>) -> Option<RequestView> {
    let n = o.name@;
    match o.value {
        TopValue::SubCommand(_) => if n == "enable"@ {
            Some(RequestView::Enable)
        } else if n == "disable"@ {
            Some(RequestView::Disable)
        } else if n == "whitelisted"@ {
            Some(RequestView::ListWhitelisted)
        } else if n == "settings"@ {
            Some(RequestView::Settings)
        } else {
            Some(RequestView::Reply("Unknown subcommand"@))
        },
        TopValue::SubCommandGroup(g) => if n == "set"@ {
            Some(set_group_request(g@))
        } else if n == "whitelist"@ {
            whitelist_group_request(g@, author)
        } else {
            Some(RequestView::Reply("Unknown subcommand"@))
        },
        TopValue::Leaf(_) => Some(RequestView::Reply("Unknown subcommand"@)),
    }
}

/// An `/antinuke` command, decoded: what it asks for, and whether it is the
/// `settings` subcommand (whose answer is titled and laid out differently).
pub struct SlashPlan {
    pub request: AntinukeRequest,
    pub is_settings: bool,
}

fn reply(t: &str) -> (r: AntinukeRequest)
    ensures
        r@ == RequestView::Reply(t@),
{
    AntinukeRequest::Reply(String::from_str(t))
}

fn set_group(g: &Vec<SubOption>) -> (r: AntinukeRequest)
    ensures
        r@ == set_group_request(g@),
{
    if g.len() == 0 {
        return reply("Invalid set subcommand");
    }
    let first = &g[0];
    if str_equals(first.name.as_str(), "limit") {
        match &first.value {
            SubValue::SubCommand(opts) => {
                let action = match find_string(opts, "action") {
                    Some(a) => a,
                    None => String::from_str("BAN_ADD"),
                };
                let threshold: i32 = match find_integer(opts, "limit") {
                    Some(v) => v as i32,
                    None => 0,
                };
                AntinukeRequest::SetLimit { action, threshold, window_secs: DEFAULT_WINDOW_SECS }
            },
            SubValue::Other => reply("Invalid limit options"),
        }
    } else {
        reply("Unknown set subcommand")
    }
}

fn whitelist_group(g: &Vec<SubOption>, author: Option<u64>) -> (r: Option<AntinukeRequest>)
    ensures
        match r {
            Some(q) => whitelist_group_request(g@, author) == Some(q@),
            None => whitelist_group_request(g@, author) is None,
        },
{
    if g.len() == 0 {
        return Some(reply("Invalid whitelist subcommand"));
    }
    let first = &g[0];
    match &first.value {
        SubValue::SubCommand(opts) => {
            if str_equals(first.name.as_str(), "add") {
                match find_user(opts, "user") {
                    Some(uid) => match author {
                        Some(a) => Some(AntinukeRequest::WhitelistAdd { user_id: uid, added_by: a }),
                        None => None,
                    },
                    None => Some(reply("User not found")),
                }
            } else if str_equals(first.name.as_str(), "remove") {
                match find_user(opts, "user") {
                    Some(uid) => Some(AntinukeRequest::WhitelistRemove { user_id: uid }),
                    None => Some(reply("User not found")),
                }
            } else {
                Some(reply("Unknown whitelist subcommand"))
            }
        },
        SubValue::Other => Some(reply("Unknown whitelist subcommand")),
    }
}

impl AntinukeCommandHandler {
    /// Decodes an `/antinuke` command. It must come from a guild and carry
    /// command data; with no subcommand there is nothing to do.
    pub fn plan_slash(&self, ctx: &InteractionContext) -> (r: Result<Option<SlashPlan>, RailwayError>)
        ensures
            ctx.guild_id is None ==> (r matches Err(e) && is_internal(e, "Command must be run in a guild"@)),
            ctx.guild_id is Some ==> match ctx.data {
                InteractionData::ApplicationCommand { options, .. } => if options@.len() == 0 {
                    r matches Ok(None)
                } else {
                    match slash_request(options@[0], ctx.user_id) {
                        Some(q) => r matches Ok(Some(p)) && p.request@ == q
                            && p.is_settings == (options@[0].name@ == "settings"@),
                        None => r matches Err(e) && is_internal(e, "Interaction has no author"@),
                    }
                },
                _ => r matches Err(e) && is_internal(e, "Not an application command"@),
            },
    {
        if ctx.guild_id.is_none() {
            return Err(RailwayError::internal("Command must be run in a guild"));
        }
        let options = match &ctx.data {
            InteractionData::ApplicationCommand { options, .. } => options,
            _ => return Err(RailwayError::internal("Not an application command")),
        };
        if options.len() == 0 {
            return Ok(None);
        }
        let sub = &options[0];
        let name = sub.name.as_str();
        let is_settings = str_equals(name, "settings");
        let request = match &sub.value {
            TopValue::SubCommand(_) => {
                if str_equals(name, "enable") {
                    AntinukeRequest::Enable
                } else if str_equals(name, "disable") {
                    AntinukeRequest::Disable
                } else if str_equals(name, "whitelisted") {
                    AntinukeRequest::ListWhitelisted
                } else if is_settings {
                    AntinukeRequest::Settings
                } else {
                    reply("Unknown subcommand")
                }
            },
            TopValue::SubCommandGroup(g) => {
                if str_equals(name, "set") {
                    set_group(g)
                } else if str_equals(name, "whitelist") {
                    match whitelist_group(g, ctx.user_id) {
                        Some(q) => q,
                        None => return Err(RailwayError::internal("Interaction has no author")),
                    }
                } else {
                    reply("Unknown subcommand")
                }
            },
            TopValue::Leaf(_) => reply("Unknown subcommand"),
        };
        Ok(Some(SlashPlan { request, is_settings }))
    }
}


/// A user argument with the mention markup `<@`, `>` and `!` taken out.
pub open spec fn clean_mention(s: Seq<char>) -> Seq<char> {
    replace_all(replace_all(replace_all(s, "<@"@, ""@), ">"@, ""@), "!"@, ""@)
}

/// The user id that an argument names: a mention or a bare id.
pub open spec fn mentioned_user(s: Seq<char>) -> Option<nat> {
    parse_unsigned(clean_mention(s), 10, 0xffff_ffff_ffff_ffff)
}

/// The request of the prefix `antinuke` command, given its arguments and the
/// author of the message; the first two arguments are read lowercased.
pub open spec fn prefix_request(args: Seq<Seq<char>>, author: u64) -> RequestView {
    if args.len() == 0 {
        RequestView::Help
    } else {
        let sub = lowercase(args[0]);
        if sub == "enable"@ {
            RequestView::Enable
        } else if sub == "disable"@ {
            RequestView::Disable
        } else if sub == "settings"@ {
            RequestView::Settings
        } else if sub == "set"@ {
            if args.len() > 1 && lowercase(args[1]) == "limit"@ {
                RequestView::SetLimit {
                    action: if args.len() > 2 { args[2] } else { "BAN_ADD"@ },
                    threshold: if args.len() > 3 && parse_i32(args[3]) is Some { parse_i32(args[3])->0 as i32 } else { 0 },
                    window_secs: 60,
                }
            } else {
                RequestView::Reply("Invalid set subcommand. Use: `set limit`"@)
            }
        } else if sub == "whitelisted"@ {
            RequestView::ListWhitelisted
        } else if sub == "whitelist"@ {
            if args.len() > 2 && mentioned_user(args[2]) is Some {
                let uid = mentioned_user(args[2])->0 as u64;
                if lowercase(args[1]) == "add"@ {
                    RequestView::WhitelistAdd { user_id: uid, added_by: author }
                } else if lowercase(args[1]) == "remove"@ {
                    RequestView::WhitelistRemove { user_id: uid }
                } else {
                    RequestView::Reply("Unknown whitelist subcommand"@)
                }
            } else {
                RequestView::Reply("Invalid whitelist arguments. Use: `whitelist add @user` or `whitelist remove @user`"@)
            }
        } else {
            RequestView::Reply("Unknown antinuke command."@)
        }
    }
}

/// Reads a user argument: a mention or a bare id.
pub fn parse_mentioned_user(s: &str) -> (r: Option<u64>)
    ensures
        r is Some <==> mentioned_user(s@) is Some,
        r is Some ==> r->0 as nat == mentioned_user(s@)->0,
{
    proof {
        reveal_strlit("<@");
        reveal_strlit(">");
        reveal_strlit("!");
    }
    let a = str_replace(s, "<@", "");
    let b = str_replace(a.as_str(), ">", "");
    let c = str_replace(b.as_str(), "!", "");
    parse_unsigned_exec(c.as_str(), 10, 0xffff_ffff_ffff_ffff)
}

impl AntinukeCommandHandler {
    /// Decodes the prefix `antinuke` command from its arguments.
    pub fn plan_prefix(&self, args: &Vec<String>, author: u64) -> (r: AntinukeRequest)
        ensures
            r@ == prefix_request(crate::text::views(args@), author),
    {
        let ghost a = crate::text::views(args@);
        if args.len() == 0 {
            return AntinukeRequest::Help;
        }
        assert(a[0] == args@[0]@);
        let sub = str_to_lowercase(args[0].as_str());
        let sub = sub.as_str();
        if str_equals(sub, "enable") {
            AntinukeRequest::Enable
        } else if str_equals(sub, "disable") {
            AntinukeRequest::Disable
        } else if str_equals(sub, "settings") {
            AntinukeRequest::Settings
        } else if str_equals(sub, "set") {
            if args.len() > 1 {
                assert(a[1] == args@[1]@);
                let second = str_to_lowercase(args[1].as_str());
                if str_equals(second.as_str(), "limit") {
                    let action = if args.len() > 2 {
                        assert(a[2] == args@[2]@);
                        args[2].clone()
                    } else {
                        String::from_str("BAN_ADD")
                    };
                    let threshold: i32 = if args.len() > 3 {
                        assert(a[3] == args@[3]@);
                        match parse_i32_exec(args[3].as_str()) {
                            Some(v) => v,
                            None => 0,
                        }
                    } else {
                        0
                    };
                    return AntinukeRequest::SetLimit { action, threshold, window_secs: DEFAULT_WINDOW_SECS };
                }
            }
            reply("Invalid set subcommand. Use: `set limit`")
        } else if str_equals(sub, "whitelisted") {
            AntinukeRequest::ListWhitelisted
        } else if str_equals(sub, "whitelist") {
            if args.len() > 2 {
                assert(a[1] == args@[1]@);
                assert(a[2] == args@[2]@);
                let second = str_to_lowercase(args[1].as_str());
                match parse_mentioned_user(args[2].as_str()) {
                    Some(uid) => {
                        if str_equals(second.as_str(), "add") {
                            AntinukeRequest::WhitelistAdd { user_id: uid, added_by: author }
                        } else if str_equals(second.as_str(), "remove") {
                            AntinukeRequest::WhitelistRemove { user_id: uid }
                        } else {
                            reply("Unknown whitelist subcommand")
                        }
                    },
                    None => reply(
                        "Invalid whitelist arguments. Use: `whitelist add @user` or `whitelist remove @user`",
                    ),
                }
            } else {
                reply("Invalid whitelist arguments. Use: `whitelist add @user` or `whitelist remove @user`")
            }
        } else {
            reply("Unknown antinuke command.")
        }
    }
}


/// The antinuke settings of a guild.
pub struct AntinukeConfig {
    pub guild_id: i64,
    pub enabled: bool,
    pub log_channel_id: Option<i64>,
    /// When the settings last changed, in milliseconds since the UNIX epoch.
    pub updated_at: i64,
}

/// The limit and punishment for one kind of action in a guild.
pub struct AntinukeModuleConfigRow {
    pub guild_id: i64,
    pub action_type: String,
    pub enabled: bool,
    pub threshold: i32,
    pub window_secs: i32,
    pub punishment: String,
    pub log_only: bool,
}

/// The current time in milliseconds since the UNIX epoch (`chrono::Utc::now`).
/// Nothing is stated of the value: it is the clock's.
#[verifier::external_body]
fn now_millis() -> (r: i64) {
    chrono::Utc::now().timestamp_millis()
}

fn copy_config(c: &AntinukeConfig) -> (r: AntinukeConfig)
    ensures
        r == *c,
{
    AntinukeConfig {
        guild_id: c.guild_id,
        enabled: c.enabled,
        log_channel_id: c.log_channel_id,
        updated_at: c.updated_at,
    }
}

/// The stored settings of a guild, or fresh ones (off, no log channel) stamped
/// with the current time.
pub fn config_or_default(existing: &Option<AntinukeConfig>, guild_id: i64) -> (r: AntinukeConfig)
    ensures
        match *existing {
            Some(c) => r == c,
            None => r.guild_id == guild_id && !r.enabled && r.log_channel_id is None,
        },
{
    match existing {
        Some(c) => copy_config(c),
        None => AntinukeConfig { guild_id, enabled: false, log_channel_id: None, updated_at: now_millis() },
    }
}

/// What turning protection on takes.
pub enum EnablePlan {
    /// It is on already; nothing changes.
    AlreadyEnabled,
    /// Create a log channel first when `needs_log_channel`, then save with `enable_config`.
    Proceed { config: AntinukeConfig, needs_log_channel: bool },
}

/// Plans turning protection on.
pub fn plan_enable(existing: &Option<AntinukeConfig>, guild_id: i64) -> (r: EnablePlan)
    ensures
        (existing matches Some(c) && c.enabled) ==> r is AlreadyEnabled,
        !(existing matches Some(c) && c.enabled) ==> (r matches EnablePlan::Proceed { config, needs_log_channel }
            && !config.enabled
            && needs_log_channel == (config.log_channel_id is None)
            && match *existing {
                Some(c) => config == c,
                None => config.guild_id == guild_id && config.log_channel_id is None,
            }),
{
    let config = config_or_default(existing, guild_id);
    if config.enabled {
        return EnablePlan::AlreadyEnabled;
    }
    let needs_log_channel = config.log_channel_id.is_none();
    EnablePlan::Proceed { config, needs_log_channel }
}

/// The settings with protection on, logging to the stored channel or else to
/// the one just created.
pub open spec fn enabled_config(c: AntinukeConfig, created: Option<i64>) -> AntinukeConfig {
    AntinukeConfig {
        enabled: true,
        log_channel_id: match c.log_channel_id {
            Some(id) => Some(id),
            None => created,
        },
        ..c
    }
}

/// The settings with protection off and no log channel.
pub open spec fn disabled_config(c: AntinukeConfig) -> AntinukeConfig {
    AntinukeConfig { enabled: false, log_channel_id: None, ..c }
}

/// The settings with protection switched over.
pub open spec fn toggled_config(c: AntinukeConfig) -> AntinukeConfig {
    AntinukeConfig { enabled: !c.enabled, ..c }
}

/// Turns protection on, logging to the stored channel or the one just created.
pub fn enable_config(config: AntinukeConfig, created_channel: Option<i64>) -> (r: AntinukeConfig)
    ensures
        r == enabled_config(config, created_channel),
{
    let log_channel_id = match config.log_channel_id {
        Some(id) => Some(id),
        None => created_channel,
    };
    AntinukeConfig { enabled: true, log_channel_id, ..config }
}

/// What turning protection off takes.
pub enum DisablePlan {
    /// It is off already; nothing changes.
    AlreadyDisabled,
    /// Delete the log channel, if any, and save `config`.
    Proceed { config: AntinukeConfig, delete_channel: Option<i64> },
}

/// Plans turning protection off: the log channel goes with it.
pub fn plan_disable(existing: &Option<AntinukeConfig>, guild_id: i64) -> (r: DisablePlan)
    ensures
        !(existing matches Some(c) && c.enabled) ==> r is AlreadyDisabled,
        (existing matches Some(c) && c.enabled) ==> (r matches DisablePlan::Proceed { config, delete_channel }
            && config == disabled_config(existing->0) && delete_channel == existing->0.log_channel_id),
{
    match existing {
        Some(c) => {
            if !c.enabled {
                return DisablePlan::AlreadyDisabled;
            }
            DisablePlan::Proceed {
                config: AntinukeConfig { guild_id: c.guild_id, enabled: false, log_channel_id: None, updated_at: c.updated_at },
                delete_channel: c.log_channel_id,
            }
        },
        None => DisablePlan::AlreadyDisabled,
    }
}

/// The settings with protection switched over, and whether a log channel must
/// be created (protection now on and no channel yet).
pub fn toggle_config(existing: &Option<AntinukeConfig>, guild_id: i64) -> (r: (AntinukeConfig, bool))
    ensures
        match *existing {
            Some(c) => r.0 == toggled_config(c),
            None => r.0.enabled && r.0.log_channel_id is None && r.0.guild_id == guild_id,
        },
        r.1 == (r.0.enabled && r.0.log_channel_id is None),
{
    let c = config_or_default(existing, guild_id);
    let toggled = AntinukeConfig { enabled: !c.enabled, ..c };
    let needs = toggled.enabled && toggled.log_channel_id.is_none();
    (toggled, needs)
}

/// The settings with a newly created log channel recorded.
pub fn attach_log_channel(config: AntinukeConfig, channel_id: i64) -> (r: AntinukeConfig)
    ensures
        r.log_channel_id == Some(channel_id),
        r.enabled == config.enabled,
        r.guild_id == config.guild_id,
        r.updated_at == config.updated_at,
{
    AntinukeConfig { log_channel_id: Some(channel_id), ..config }
}

/// Switching protection on always leaves it on, and it logs somewhere whenever a
/// channel was stored or just created; switching it off leaves it off with no
/// log channel; switching it over twice gives back the settings it started from.
pub proof fn law_enable_disable_toggle(c: AntinukeConfig, created: Option<i64>)
    ensures
        enabled_config(c, created).enabled,
        (c.log_channel_id is Some || created is Some) ==> enabled_config(c, created).log_channel_id is Some,
        c.log_channel_id is Some ==> enabled_config(c, created).log_channel_id == c.log_channel_id,
        !disabled_config(c).enabled && disabled_config(c).log_channel_id is None,
        toggled_config(toggled_config(c)) == c,
        enabled_config(enabled_config(c, created), created) == enabled_config(c, created),
{
}


/// The index of the first row for the given action, from position `i` on.
pub open spec fn first_row_for(rows: Seq<AntinukeModuleConfigRow>, action: Seq<char>, i: int) -> Option<int>
    decreases rows.len() - i,
{
    if i < 0 || i >= rows.len() {
        None
    } else if rows[i].action_type@ == action {
        Some(i)
    } else {
        first_row_for(rows, action, i + 1)
    }
}

fn find_row<'a>(rows: &'a Vec<AntinukeModuleConfigRow>, action: &str) -> (r: Option<&'a AntinukeModuleConfigRow>)
    ensures
        match first_row_for(rows@, action@, 0) {
            Some(i) => r == Some(&rows@[i]),
            None => r is None,
        },
{
    let n = rows.len();
    let mut i: usize = 0;
    while i < n
        invariant
            n == rows@.len(),
            i <= n,
            first_row_for(rows@, action@, i as int) == first_row_for(rows@, action@, 0),
        decreases n - i,
    {
        if str_equals(rows[i].action_type.as_str(), action) {
            return Some(&rows[i]);
        }
        i = i + 1;
    }
    None
}

/// The limit row that `set limit` stores: enabled, with the given threshold and
/// window, keeping the punishment already set for the action (else `BAN`).
pub fn limit_row(existing: &Vec<AntinukeModuleConfigRow>, guild_id: i64, action: &str, threshold: i32, window_secs: i32) -> (r: AntinukeModuleConfigRow)
    ensures
        r.guild_id == guild_id,
        r.action_type@ == action@,
        r.enabled,
        r.threshold == threshold,
        r.window_secs == window_secs,
        !r.log_only,
        r.punishment@ == match first_row_for(existing@, action@, 0) {
            Some(i) => existing@[i].punishment@,
            None => "BAN"@,
        },
{
    let punishment = match find_row(existing, action) {
        Some(row) => row.punishment.clone(),
        None => String::from_str("BAN"),
    };
    AntinukeModuleConfigRow {
        guild_id,
        action_type: String::from_str(action),
        enabled: true,
        threshold,
        window_secs,
        punishment,
        log_only: false,
    }
}

/// The row that setting a punishment stores: the action's row as it was (or a
/// disabled default of three actions in sixty seconds), with the new punishment.
pub fn punishment_row(existing: &Vec<AntinukeModuleConfigRow>, guild_id: i64, action: &str, punishment: &str) -> (r: AntinukeModuleConfigRow)
    ensures
        r.punishment@ == punishment@,
        match first_row_for(existing@, action@, 0) {
            Some(i) => r.guild_id == existing@[i].guild_id && r.action_type@ == existing@[i].action_type@
                && r.enabled == existing@[i].enabled && r.threshold == existing@[i].threshold
                && r.window_secs == existing@[i].window_secs && r.log_only == existing@[i].log_only,
            None => r.guild_id == guild_id && r.action_type@ == action@ && !r.enabled && r.threshold == 3
                && r.window_secs == 60 && !r.log_only,
        },
{
    match find_row(existing, action) {
        Some(row) => AntinukeModuleConfigRow {
            guild_id: row.guild_id,
            action_type: row.action_type.clone(),
            enabled: row.enabled,
            threshold: row.threshold,
            window_secs: row.window_secs,
            punishment: String::from_str(punishment),
            log_only: row.log_only,
        },
        None => AntinukeModuleConfigRow {
            guild_id,
            action_type: String::from_str(action),
            enabled: false,
            threshold: 3,
            window_secs: 60,
            punishment: String::from_str(punishment),
            log_only: false,
        },
    }
}

/// The reply to `set limit`.
pub open spec fn limit_text(action: Seq<char>, threshold: i32, punishment: Seq<char>) -> Seq<char> {
    if threshold == 0 {
        "🚨 **Zero-Tolerance limit set for "@ + action + "!** Instant "@ + punishment
            + " will be applied on the very first detection."@
    } else {
        "✅ Limit updated for **"@ + action + "**: **"@ + dec_int(threshold as int) + "** actions allowed. Punishment: **"@
            + punishment + "**"@
    }
}

/// The reply to `set limit`.
pub fn limit_reply(action: &str, threshold: i32, punishment: &str) -> (r: String)
    ensures
        r@ == limit_text(action@, threshold, punishment@),
{
    if threshold == 0 {
        let mut r = String::from_str("🚨 **Zero-Tolerance limit set for ");
        r.append(action);
        r.append("!** Instant ");
        r.append(punishment);
        r.append(" will be applied on the very first detection.");
        r
    } else {
        let mut r = String::from_str("✅ Limit updated for **");
        r.append(action);
        r.append("**: **");
        push_dec_signed(&mut r, threshold as i64);
        r.append("** actions allowed. Punishment: **");
        r.append(punishment);
        r.append("**");
        r
    }
}

/// The reply to a punishment change.
pub fn punishment_reply(action: &str, punishment: &str) -> (r: String)
    ensures
        r@ == "⚖️ Punishment for **"@ + action@ + "** has been updated to **"@ + punishment@ + "**."@,
{
    let mut r = String::from_str("⚖️ Punishment for **");
    r.append(action);
    r.append("** has been updated to **");
    r.append(punishment);
    r.append("**.");
    r
}

/// The reply to a whitelist addition.
pub fn whitelist_added_reply(user_id: i64) -> (r: String)
    ensures
        r@ == "✅ User <@"@ + dec_int(user_id as int) + "> added to whitelist."@,
{
    let mut r = String::from_str("✅ User <@");
    push_dec_signed(&mut r, user_id);
    r.append("> added to whitelist.");
    r
}

/// The reply to a whitelist removal.
pub fn whitelist_removed_reply(user_id: i64) -> (r: String)
    ensures
        r@ == "✅ User <@"@ + dec_int(user_id as int) + "> removed from whitelist."@,
{
    let mut r = String::from_str("✅ User <@");
    push_dec_signed(&mut r, user_id);
    r.append("> removed from whitelist.");
    r
}

/// The reply when protection is switched on.
pub fn enabled_reply() -> (r: String)
    ensures
        r@ == "✅ AntiNuke is now **enabled** for this server. Log channel created."@,
{
    String::from_str("✅ AntiNuke is now **enabled** for this server. Log channel created.")
}

/// The reply when protection was on already.
pub fn already_enabled_reply() -> (r: String)
    ensures
        r@ == "✅ AntiNuke is already enabled for this server."@,
{
    String::from_str("✅ AntiNuke is already enabled for this server.")
}

/// The reply when protection is switched off.
pub fn disabled_reply() -> (r: String)
    ensures
        r@ == "❌ AntiNuke is now **disabled** for this server."@,
{
    String::from_str("❌ AntiNuke is now **disabled** for this server.")
}

/// The reply when protection was off already.
pub fn already_disabled_reply() -> (r: String)
    ensures
        r@ == "❌ AntiNuke is already disabled for this server."@,
{
    String::from_str("❌ AntiNuke is already disabled for this server.")
}

/// One line of the limits in the settings.
pub open spec fn module_line(m: AntinukeModuleConfigRow) -> Seq<char> {
    "- "@ + m.action_type@ + ": "@ + dec_int(m.threshold as int) + "/"@ + dec_int(m.window_secs as int) + "s ("@
        + m.punishment@ + ")\n"@
}

/// The first `k` lines of the limits in the settings.
pub open spec fn module_lines(ms: Seq<AntinukeModuleConfigRow>, k: nat) -> Seq<char>
    decreases k,
{
    if k == 0 || k > ms.len() {
        Seq::<char>::empty()
    } else {
        module_lines(ms, (k - 1) as nat) + module_line(ms[k - 1])
    }
}

/// The settings overview of a guild.
pub open spec fn settings_text(config: Option<AntinukeConfig>, ms: Seq<AntinukeModuleConfigRow>, whitelisted: i64) -> Seq<char> {
    match config {
        Some(c) => "**AntiNuke Settings**\nStatus: "@ + (if c.enabled { "🟢 Enabled"@ } else { "🔴 Disabled"@ })
            + "\nLog Channel: "@ + (match c.log_channel_id {
                Some(id) => "<#"@ + dec_int(id as int) + ">"@,
                None => "None"@,
            }) + "\nWhitelisted Users: "@ + dec_int(whitelisted as int) + "\n\n**Limits:**\n"@
            + (if ms.len() == 0 { "No specific limits configured."@ } else { module_lines(ms, ms.len()) }),
        None => "**AntiNuke Settings**\nStatus: 🔴 Disabled\nWhitelisted Users: "@ + dec_int(whitelisted as int),
    }
}

/// The settings overview of a guild, from its settings, its limits and the
/// number of whitelisted users.
pub fn settings_reply(config: &Option<AntinukeConfig>, modules: &Vec<AntinukeModuleConfigRow>, whitelisted: i64) -> (r: String)
    ensures
        r@ == settings_text(*config, modules@, whitelisted),
{
    match config {
        Some(c) => {
            let mut r = String::from_str("**AntiNuke Settings**\nStatus: ");
            if c.enabled {
                r.append("🟢 Enabled");
            } else {
                r.append("🔴 Disabled");
            }
            r.append("\nLog Channel: ");
            match c.log_channel_id {
                Some(id) => {
                    r.append("<#");
                    push_dec_signed(&mut r, id);
                    r.append(">");
                },
                None => r.append("None"),
            }
            r.append("\nWhitelisted Users: ");
            push_dec_signed(&mut r, whitelisted);
            r.append("\n\n**Limits:**\n");
            let ghost head = r@;
            let n = modules.len();
            if n == 0 {
                r.append("No specific limits configured.");
            } else {
                let mut i: usize = 0;
                while i < n
                    invariant
                        n == modules@.len(),
                        i <= n,
                        r@ == head + module_lines(modules@, i as nat),
                    decreases n - i,
                {
                    let m = &modules[i];
                    r.append("- ");
                    r.append(m.action_type.as_str());
                    r.append(": ");
                    push_dec_signed(&mut r, m.threshold as i64);
                    r.append("/");
                    push_dec_signed(&mut r, m.window_secs as i64);
                    r.append("s (");
                    r.append(m.punishment.as_str());
                    r.append(")\n");
                    assert(r@ =~= head + module_lines(modules@, (i + 1) as nat));
                    i = i + 1;
                }
            }
            assert(r@ =~= settings_text(*config, modules@, whitelisted));
            r
        },
        None => {
            let mut r = String::from_str("**AntiNuke Settings**\nStatus: 🔴 Disabled\nWhitelisted Users: ");
            push_dec_signed(&mut r, whitelisted);
            r
        },
    }
}

/// The mentions of the whitelisted users, separated by commas.
pub open spec fn mention_list(ids: Seq<i64>, k: nat) -> Seq<char>
    decreases k,
{
    if k == 0 || k > ids.len() {
        Seq::<char>::empty()
    } else if k == 1 {
        "<@"@ + dec_int(ids[0] as int) + ">"@
    } else {
        mention_list(ids, (k - 1) as nat) + ", "@ + "<@"@ + dec_int(ids[k - 1] as int) + ">"@
    }
}

/// The list of whitelisted users: how many there are, then their mentions,
/// cut at 1800 bytes.
pub open spec fn whitelisted_text(ids: Seq<i64>) -> Seq<char> {
    if ids.len() == 0 {
        "🛡️ There are currently **0** users whitelisted from AntiNuke."@
    } else {
        let joined = mention_list(ids, ids.len());
        "🛡️ There are currently **"@ + dec(ids.len()) + "** users whitelisted from AntiNuke:\n"@
            + if encode_utf8(joined).len() > 1800 { joined.take(1800) + "... and more"@ } else { joined }
    }
}

proof fn lemma_ascii_concat(a: Seq<char>, b: Seq<char>)
    requires
        is_ascii_chars(a),
        is_ascii_chars(b),
    ensures
        is_ascii_chars(a + b),
{
    assert forall|i: int| 0 <= i < (a + b).len() implies '\0' <= #[trigger] (a + b)[i] <= '\u{7f}' by {
        if i < a.len() {
            assert((a + b)[i] == a[i]);
        } else {
            assert((a + b)[i] == b[i - a.len()]);
        }
    }
}

/// The list of whitelisted users.
pub fn whitelisted_reply(ids: &Vec<i64>) -> (r: String)
    requires
        ids@.len() <= u64::MAX,
    ensures
        r@ == whitelisted_text(ids@),
{
    let n = ids.len();
    if n == 0 {
        return String::from_str("🛡️ There are currently **0** users whitelisted from AntiNuke.");
    }
    let mut joined = String::new();
    let mut i: usize = 0;
    proof {
        reveal_strlit("<@");
        reveal_strlit(">");
        reveal_strlit(", ");
    }
    while i < n
        invariant
            n == ids@.len(),
            i <= n,
            joined@ == mention_list(ids@, i as nat),
            is_ascii_chars(joined@),
        decreases n - i,
    {
        let ghost before = joined@;
        if i > 0 {
            joined.append(", ");
        }
        let ghost mid = joined@;
        joined.append("<@");
        push_dec_signed(&mut joined, ids[i]);
        joined.append(">");
        proof {
            reveal_strlit("<@");
            reveal_strlit(">");
            reveal_strlit(", ");
            lemma_dec_int_ascii(ids@[i as int] as int);
            let m = "<@"@ + dec_int(ids@[i as int] as int) + ">"@;
            assert(is_ascii_chars(seq!['<', '@']));
            assert(is_ascii_chars(seq!['>']));
            assert(is_ascii_chars(seq![',', ' ']));
            lemma_ascii_concat("<@"@, dec_int(ids@[i as int] as int));
            lemma_ascii_concat("<@"@ + dec_int(ids@[i as int] as int), ">"@);
            if i > 0 {
                lemma_ascii_concat(before, ", "@);
                assert(mid == before + ", "@);
            } else {
                assert(mid == before);
            }
            lemma_ascii_concat(mid, m);
            assert(joined@ =~= mid + m);
            assert(joined@ =~= mention_list(ids@, (i + 1) as nat));
        }
        i = i + 1;
    }
    let mut r = String::from_str("🛡️ There are currently **");
    push_dec(&mut r, n as u64);
    r.append("** users whitelisted from AntiNuke:\n");
    proof {
        is_ascii_chars_encode_utf8(joined@);
    }
    let jl = joined.as_str().unicode_len();
    if jl > 1800 {
        let head = joined.as_str().substring_char(0, 1800);
        r.append(head);
        r.append("... and more");
    } else {
        r.append(joined.as_str());
    }
    assert(r@ =~= whitelisted_text(ids@));
    r
}


proof fn lemma_digits_avoid(d: Seq<char>, c: char)
    requires
        all_digits(d, 10),
        c == '<' || c == '>' || c == '!',
    ensures
        forall|i: int| 0 <= i < d.len() ==> d[i] != c,
{
    assert forall|i: int| 0 <= i < d.len() implies d[i] != c by {
        assert(digit_value(d[i], 10) is Some);
    }
}

/// A user mention as the bot writes it, `<@id>` or `<@!id>`, and a bare id all
/// read back as the same user.
pub proof fn law_mention_round_trip(n: u64)
    ensures
        mentioned_user("<@"@ + dec(n as nat) + ">"@) == Some(n as nat),
        mentioned_user("<@!"@ + dec(n as nat) + ">"@) == Some(n as nat),
        mentioned_user(dec(n as nat)) == Some(n as nat),
{
    reveal_strlit("<@");
    reveal_strlit("<@!");
    reveal_strlit(">");
    reveal_strlit("!");
    reveal_strlit("");
    let d = dec(n as nat);
    let lt = "<@"@;
    let gt = ">"@;
    let bang = "!"@;
    let empty = ""@;
    lemma_dec_digits(n as nat);
    law_decimal_round_trip(n as nat, 0xffff_ffff_ffff_ffff);
    lemma_digits_avoid(d, '<');
    lemma_digits_avoid(d, '>');
    lemma_digits_avoid(d, '!');
    // A bare id is untouched by the cleaning.
    lemma_replace_absent(d, lt, empty);
    lemma_replace_absent(d, gt, empty);
    lemma_replace_absent(d, bang, empty);
    // `>` alone.
    lemma_replace_single_concat(Seq::<char>::empty(), Seq::<char>::empty(), gt, empty);
    assert(starts_with(gt, gt)) by {
        assert(gt.subrange(0, 1) =~= gt);
    }
    assert(gt.skip(1) =~= Seq::<char>::empty());
    assert(replace_all(gt, gt, empty) =~= Seq::<char>::empty());
    lemma_replace_single_concat(Seq::<char>::empty(), Seq::<char>::empty(), bang, empty);
    assert(starts_with(bang, bang)) by {
        assert(bang.subrange(0, 1) =~= bang);
    }
    assert(bang.skip(1) =~= Seq::<char>::empty());
    assert(replace_all(bang, bang, empty) =~= Seq::<char>::empty());
    // `<@id>`.
    let m1 = lt + d + gt;
    let rest1 = d + gt;
    assert(starts_with(m1, lt)) by {
        assert(m1.subrange(0, 2) =~= lt);
    }
    assert(m1.skip(2) =~= rest1);
    assert forall|i: int| 0 <= i < rest1.len() implies rest1[i] != lt[0] by {
        if i < d.len() {
            assert(rest1[i] == d[i]);
        }
    }
    lemma_replace_absent(rest1, lt, empty);
    assert(replace_all(m1, lt, empty) =~= rest1);
    lemma_replace_single_concat(d, gt, gt, empty);
    assert(replace_all(rest1, gt, empty) =~= d);
    assert(clean_mention(m1) == d);
    // `<@!id>`.
    let m2 = "<@!"@ + d + gt;
    let rest2 = bang + d + gt;
    assert(starts_with(m2, lt)) by {
        assert(m2.subrange(0, 2) =~= lt);
    }
    assert(m2.skip(2) =~= rest2);
    assert forall|i: int| 0 <= i < rest2.len() implies rest2[i] != lt[0] by {
        if 1 <= i < 1 + d.len() {
            assert(rest2[i] == d[i - 1]);
        }
    }
    lemma_replace_absent(rest2, lt, empty);
    assert(replace_all(m2, lt, empty) =~= rest2);
    lemma_replace_single_concat(bang + d, gt, gt, empty);
    lemma_replace_single_concat(bang, d, gt, empty);
    assert forall|i: int| 0 <= i < bang.len() implies bang[i] != gt[0] by {}
    lemma_replace_absent(bang, gt, empty);
    assert(replace_all(rest2, gt, empty) =~= bang + d);
    lemma_replace_single_concat(bang, d, bang, empty);
    assert(replace_all(bang + d, bang, empty) =~= d);
    assert(clean_mention(m2) == d);
}

} // verus!
