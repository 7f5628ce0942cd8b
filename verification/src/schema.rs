use vstd::prelude::*;
use vstd::string::*;
use crate::antinuke::{RequestView, slash_request};
use crate::interaction::{SubValue, TopOption, TopValue};

verus! {

/// The type of value an option of a subcommand takes.
#[derive(PartialEq, Eq, Structural, Clone, Copy, Debug)]
pub enum ValueKind {
    String,
    Integer,
    User,
}

/// One of the fixed answers a string option offers: what the user sees, and
/// what the command receives.
pub struct Choice {
    pub label: String,
    pub value: String,
}

/// An option of a subcommand that carries a value.
pub struct ValueOptionSpec {
    pub kind: ValueKind,
    pub name: String,
    pub description: String,
    pub required: bool,
    pub choices: Vec<Choice>,
    pub min_value: Option<i64>,
    pub max_value: Option<i64>,
}

/// A subcommand and its options.
pub struct SubcommandSpec {
    pub name: String,
    pub description: String,
    pub options: Vec<ValueOptionSpec>,
}

/// A top-level option of a slash command: a subcommand, or a group of them.
pub enum CommandOptionSpec {
    Sub(SubcommandSpec),
    Group { name: String, description: String, subcommands: Vec<SubcommandSpec> },
}

/// A slash command as it is registered with Discord.
pub struct CommandSpec {
    pub name: String,
    pub description: String,
    /// Only members who may manage the server see the command by default.
    pub manage_guild_only: bool,
    pub options: Vec<CommandOptionSpec>,
}

/// The labels of the action choices, in order.
pub open spec fn action_labels() -> Seq<Seq<char>> {
    seq![
        "Banning Members"@,
        "Kicking Members"@,
        "Deleting Roles"@,
        "Creating Roles"@,
        "Deleting Channels"@,
        "Creating Channels"@,
    ]
}

/// The audit actions that limits and punishments are set for, in order.
pub open spec fn action_values() -> Seq<Seq<char>> {
    seq!["BAN_ADD"@, "MEMBER_KICK"@, "ROLE_DELETE"@, "ROLE_CREATE"@, "CHANNEL_DELETE"@, "CHANNEL_CREATE"@]
}

/// The labels of the punishment choices, in order.
pub open spec fn punishment_labels() -> Seq<Seq<char>> {
    seq!["Ban"@, "Kick"@, "Strip Roles"@]
}

/// The punishments, in order.
pub open spec fn punishment_values() -> Seq<Seq<char>> {
    seq!["BAN"@, "KICK"@, "STRIP_ROLES"@]
}

/// The choices are exactly the given labels with the given values, in order.
pub open spec fn choices_are(c: Seq<Choice>, labels: Seq<Seq<char>>, values: Seq<Seq<char>>) -> bool {
    &&& c.len() == labels.len()
    &&& c.len() == values.len()
    &&& forall|i: int| 0 <= i < c.len() ==> (#[trigger] c[i]).label@ == labels[i] && c[i].value@ == values[i]
}

/// A value option with the given kind, name, description and requiredness.
pub open spec fn value_option_ok(o: ValueOptionSpec, kind: ValueKind, name: Seq<char>, description: Seq<char>) -> bool {
    &&& o.kind == kind
    &&& o.name@ == name
    &&& o.description@ == description
    &&& o.required
}

/// A required string option whose choices are the audit actions.
pub open spec fn action_option_ok(o: ValueOptionSpec, description: Seq<char>) -> bool {
    &&& value_option_ok(o, ValueKind::String, "action"@, description)
    &&& choices_are(o.choices@, action_labels(), action_values())
    &&& o.min_value is None
    &&& o.max_value is None
}

/// A required user option named `user`.
pub open spec fn user_option_ok(o: ValueOptionSpec, description: Seq<char>) -> bool {
    &&& value_option_ok(o, ValueKind::User, "user"@, description)
    &&& o.choices@.len() == 0
    &&& o.min_value is None
    &&& o.max_value is None
}

/// A subcommand with the given name and description and no options.
pub open spec fn plain_sub_ok(o: CommandOptionSpec, name: Seq<char>, description: Seq<char>) -> bool {
    o matches CommandOptionSpec::Sub(s) && s.name@ == name && s.description@ == description && s.options@.len() == 0
}

/// `/antinuke set limit`: the action, and how many of it are allowed (0 to 20).
pub open spec fn limit_sub_ok(s: SubcommandSpec) -> bool {
    &&& s.name@ == "limit"@
    &&& s.description@ == "Set granular limits for a specific action"@
    &&& s.options@.len() == 2
    &&& action_option_ok(s.options@[0], "The action to set a limit for"@)
    &&& value_option_ok(s.options@[1], ValueKind::Integer, "limit"@, "Number of actions allowed (0 = instant punishment)"@)
    &&& s.options@[1].choices@.len() == 0
    &&& s.options@[1].min_value == Some(0i64)
    &&& s.options@[1].max_value == Some(20i64)
}

/// `/antinuke punishment`: the action, and the punishment for it.
pub open spec fn punishment_sub_ok(o: CommandOptionSpec) -> bool {
    &&& o matches CommandOptionSpec::Sub(s)
    &&& s.name@ == "punishment"@
    &&& s.description@ == "Set punishment for an action"@
    &&& s.options@.len() == 2
    &&& action_option_ok(s.options@[0], "The action to set punishment for"@)
    &&& value_option_ok(s.options@[1], ValueKind::String, "punishment"@, "The punishment to apply"@)
    &&& choices_are(s.options@[1].choices@, punishment_labels(), punishment_values())
    &&& s.options@[1].min_value is None
    &&& s.options@[1].max_value is None
}

/// `/antinuke whitelist add` and `/antinuke whitelist remove`, each taking a user.
pub open spec fn whitelist_group_ok(o: CommandOptionSpec) -> bool {
    &&& o matches CommandOptionSpec::Group { name, description, subcommands }
    &&& name@ == "whitelist"@
    &&& description@ == "Manage users exempt from antinuke"@
    &&& subcommands@.len() == 2
    &&& subcommands@[0].name@ == "add"@
    &&& subcommands@[0].description@ == "Add a user to the whitelist"@
    &&& subcommands@[0].options@.len() == 1
    &&& user_option_ok(subcommands@[0].options@[0], "The user to whitelist"@)
    &&& subcommands@[1].name@ == "remove"@
    &&& subcommands@[1].description@ == "Remove a user from the whitelist"@
    &&& subcommands@[1].options@.len() == 1
    &&& user_option_ok(subcommands@[1].options@[0], "The user to remove"@)
}

/// The `/antinuke` command: enable, disable, set limit, punishment,
/// whitelisted, settings and whitelist add/remove, in that order.
pub open spec fn antinuke_command_ok(c: CommandSpec) -> bool {
    &&& c.name@ == "antinuke"@
    &&& c.description@ == "Configure the Railway AntiNuke engine"@
    &&& c.manage_guild_only
    &&& c.options@.len() == 7
    &&& plain_sub_ok(c.options@[0], "enable"@, "Enable antinuke for this server"@)
    &&& plain_sub_ok(c.options@[1], "disable"@, "Disable antinuke for this server"@)
    &&& c.options@[2] matches CommandOptionSpec::Group { name, description, subcommands }
        && name@ == "set"@ && description@ == "Set configurations for antinuke"@
        && subcommands@.len() == 1 && limit_sub_ok(subcommands@[0])
    &&& punishment_sub_ok(c.options@[3])
    &&& plain_sub_ok(c.options@[4], "whitelisted"@, "View how many users are whitelisted"@)
    &&& plain_sub_ok(c.options@[5], "settings"@, "View current antinuke settings"@)
    &&& whitelist_group_ok(c.options@[6])
}

/// The `/automod` command: enable, disable and settings.
pub open spec fn automod_command_ok(c: CommandSpec) -> bool {
    &&& c.name@ == "automod"@
    &&& c.description@ == "Configure the Railway AutoMod engine"@
    &&& c.manage_guild_only
    &&& c.options@.len() == 3
    &&& plain_sub_ok(c.options@[0], "enable"@, "Enable AutoModeration"@)
    &&& plain_sub_ok(c.options@[1], "disable"@, "Disable AutoModeration"@)
    &&& plain_sub_ok(c.options@[2], "settings"@, "View current AutoMod settings"@)
}

fn choice(label: &str, value: &str) -> (r: Choice)
    ensures
        r.label@ == label@,
        r.value@ == value@,
{
    Choice { label: String::from_str(label), value: String::from_str(value) }
}

fn action_choices() -> (r: Vec<Choice>)
    ensures
        choices_are(r@, action_labels(), action_values()),
{
    let r = vec![
        choice("Banning Members", "BAN_ADD"),
        choice("Kicking Members", "MEMBER_KICK"),
        choice("Deleting Roles", "ROLE_DELETE"),
        choice("Creating Roles", "ROLE_CREATE"),
        choice("Deleting Channels", "CHANNEL_DELETE"),
        choice("Creating Channels", "CHANNEL_CREATE"),
    ];
    assert(forall|i: int| 0 <= i < 6 ==> (#[trigger] r@[i]).label@ == action_labels()[i]
        && r@[i].value@ == action_values()[i]);
    r
}

fn punishment_choices() -> (r: Vec<Choice>)
    ensures
        choices_are(r@, punishment_labels(), punishment_values()),
{
    let r = vec![choice("Ban", "BAN"), choice("Kick", "KICK"), choice("Strip Roles", "STRIP_ROLES")];
    assert(forall|i: int| 0 <= i < 3 ==> (#[trigger] r@[i]).label@ == punishment_labels()[i]
        && r@[i].value@ == punishment_values()[i]);
    r
}

fn value_option(kind: ValueKind, name: &str, description: &str) -> (r: ValueOptionSpec)
    ensures
        value_option_ok(r, kind, name@, description@),
        r.choices@.len() == 0,
        r.min_value is None,
        r.max_value is None,
{
    ValueOptionSpec {
        kind,
        name: String::from_str(name),
        description: String::from_str(description),
        required: true,
        choices: Vec::new(),
        min_value: None,
        max_value: None,
    }
}

fn action_option(description: &str) -> (r: ValueOptionSpec)
    ensures
        action_option_ok(r, description@),
{
    let mut o = value_option(ValueKind::String, "action", description);
    o.choices = action_choices();
    o
}

fn plain_sub(name: &str, description: &str) -> (r: CommandOptionSpec)
    ensures
        plain_sub_ok(r, name@, description@),
{
    CommandOptionSpec::Sub(
        SubcommandSpec { name: String::from_str(name), description: String::from_str(description), options: Vec::new() },
    )
}

fn user_sub(name: &str, description: &str, user_description: &str) -> (r: SubcommandSpec)
    ensures
        r.name@ == name@,
        r.description@ == description@,
        r.options@.len() == 1,
        user_option_ok(r.options@[0], user_description@),
{
    SubcommandSpec {
        name: String::from_str(name),
        description: String::from_str(description),
        options: vec![value_option(ValueKind::User, "user", user_description)],
    }
}

/// The `/antinuke` command definition.
pub fn antinuke_command() -> (r: CommandSpec)
    ensures
        antinuke_command_ok(r),
{
    let mut threshold = value_option(ValueKind::Integer, "limit", "Number of actions allowed (0 = instant punishment)");
    threshold.min_value = Some(0);
    threshold.max_value = Some(20);
    let limit = SubcommandSpec {
        name: String::from_str("limit"),
        description: String::from_str("Set granular limits for a specific action"),
        options: vec![action_option("The action to set a limit for"), threshold],
    };
    let set = CommandOptionSpec::Group {
        name: String::from_str("set"),
        description: String::from_str("Set configurations for antinuke"),
        subcommands: vec![limit],
    };
    let mut punishment = value_option(ValueKind::String, "punishment", "The punishment to apply");
    punishment.choices = punishment_choices();
    let punish = CommandOptionSpec::Sub(
        SubcommandSpec {
            name: String::from_str("punishment"),
            description: String::from_str("Set punishment for an action"),
            options: vec![action_option("The action to set punishment for"), punishment],
        },
    );
    let whitelist = CommandOptionSpec::Group {
        name: String::from_str("whitelist"),
        description: String::from_str("Manage users exempt from antinuke"),
        subcommands: vec![
            user_sub("add", "Add a user to the whitelist", "The user to whitelist"),
            user_sub("remove", "Remove a user from the whitelist", "The user to remove"),
        ],
    };
    CommandSpec {
        name: String::from_str("antinuke"),
        description: String::from_str("Configure the Railway AntiNuke engine"),
        manage_guild_only: true,
        options: vec![
            plain_sub("enable", "Enable antinuke for this server"),
            plain_sub("disable", "Disable antinuke for this server"),
            set,
            punish,
            plain_sub("whitelisted", "View how many users are whitelisted"),
            plain_sub("settings", "View current antinuke settings"),
            whitelist,
        ],
    }
}

/// The `/automod` command definition.
pub fn automod_command() -> (r: CommandSpec)
    ensures
        automod_command_ok(r),
{
    CommandSpec {
        name: String::from_str("automod"),
        description: String::from_str("Configure the Railway AutoMod engine"),
        manage_guild_only: true,
        options: vec![
            plain_sub("enable", "Enable AutoModeration"),
            plain_sub("disable", "Disable AutoModeration"),
            plain_sub("settings", "View current AutoMod settings"),
        ],
    }
}

/// The commands registered globally for the moderation bot: `/antinuke`, then `/automod`.
pub fn moderation_commands() -> (r: Vec<CommandSpec>)
    ensures
        r@.len() == 2,
        antinuke_command_ok(r@[0]),
        automod_command_ok(r@[1]),
{
    vec![antinuke_command(), automod_command()]
}

/// The name of a top-level option.
pub open spec fn option_name(o: CommandOptionSpec) -> Seq<char> {
    match o {
        CommandOptionSpec::Sub(s) => s.name@,
        CommandOptionSpec::Group { name, .. } => name@,
    }
}

/// One of the answers the antinuke handler gives to a subcommand it does not know.
pub open spec fn is_unknown_reply(q: RequestView) -> bool {
    q == RequestView::Reply("Unknown subcommand"@)
        || q == RequestView::Reply("Unknown set subcommand"@)
        || q == RequestView::Reply("Unknown whitelist subcommand"@)
}

/// An invocation of the `i`-th registered option: a subcommand under its name,
/// or a group under its name whose first entry is one of the group's subcommands.
pub open spec fn invokes(c: CommandSpec, i: int, o: TopOption) -> bool {
    &&& o.name@ == option_name(c.options@[i])
    &&& match c.options@[i] {
        CommandOptionSpec::Sub(_) => o.value is SubCommand,
        CommandOptionSpec::Group { subcommands, .. } => o.value matches TopValue::SubCommandGroup(g)
            && g@.len() > 0 && g@[0].value is SubCommand
            && exists|j: int| 0 <= j < subcommands@.len() && (#[trigger] subcommands@[j]).name@ == g@[0].name@,
    }
}

/// Every subcommand that `/antinuke` registers, but `punishment`, is one the
/// slash handler recognises: invoking it (as a member, so with an author)
/// never draws an "unknown subcommand" answer.
pub proof fn law_registered_subcommands_are_handled(c: CommandSpec, i: int, o: TopOption, author: u64)
    requires
        antinuke_command_ok(c),
        0 <= i < c.options@.len(),
        i != 3,
        invokes(c, i, o),
    ensures
        slash_request(o, Some(author)) matches Some(q) && !is_unknown_reply(q),
{
    reveal_strlit("enable");
    reveal_strlit("disable");
    reveal_strlit("set");
    reveal_strlit("whitelisted");
    reveal_strlit("settings");
    reveal_strlit("whitelist");
    reveal_strlit("limit");
    reveal_strlit("add");
    reveal_strlit("remove");
    reveal_strlit("Unknown subcommand");
    reveal_strlit("Unknown set subcommand");
    reveal_strlit("Unknown whitelist subcommand");
    reveal_strlit("User not found");
    assert("enable"@.len() == 6 && "disable"@.len() == 7 && "set"@.len() == 3);
    assert("whitelisted"@.len() == 11 && "settings"@.len() == 8 && "whitelist"@.len() == 9);
    assert("add"@.len() == 3 && "remove"@.len() == 6);
    assert("User not found"@.len() == 14 && "Unknown subcommand"@.len() == 18);
    assert("Unknown set subcommand"@.len() == 22 && "Unknown whitelist subcommand"@.len() == 28);
    let n = o.name@;
    if i == 0 {
        assert(n == "enable"@);
    } else if i == 1 {
        assert(n == "disable"@);
    } else if i == 4 {
        assert(n != "enable"@ && n != "disable"@);
    } else if i == 5 {
        assert(n != "enable"@ && n != "disable"@ && n != "whitelisted"@);
    } else if i == 2 {
        assert(n == "set"@);
        let g = match o.value {
            TopValue::SubCommandGroup(g) => g@,
            _ => Seq::empty(),
        };
        assert(g[0].name@ == "limit"@);
    } else {
        assert(i == 6);
        assert(n == "whitelist"@ && n != "set"@);
        let g = match o.value {
            TopValue::SubCommandGroup(g) => g@,
            _ => Seq::empty(),
        };
        assert(g[0].name@ == "add"@ || g[0].name@ == "remove"@);
        assert("add"@ != "remove"@);
    }
}

} // verus!
