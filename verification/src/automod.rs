use vstd::prelude::*;
use vstd::string::*;
use crate::error::{RailwayError, is_internal};
use crate::interaction::{InteractionContext, InteractionData, TopValue};
use crate::text::{lowercase, str_equals, str_to_lowercase, views};

verus! {

/// What an automod rule reacts to.
#[derive(PartialEq, Eq, Structural, Clone, Copy, Debug)]
pub enum TriggerType {
    Spam,
    AntiLink,
    GhostPing,
}

/// What an automod rule does.
#[derive(PartialEq, Eq, Structural, Clone, Copy, Debug)]
pub enum ActionType {
    DeleteMessage,
    Timeout,
    DeleteAndTimeout,
}

/// The stored code of each trigger.
pub open spec fn trigger_code(t: TriggerType) -> i16 {
    match t {
        TriggerType::Spam => 1,
        TriggerType::AntiLink => 2,
        TriggerType::GhostPing => 3,
    }
}

/// The stored code of each action.
pub open spec fn action_code(a: ActionType) -> i16 {
    match a {
        ActionType::DeleteMessage => 1,
        ActionType::Timeout => 2,
        ActionType::DeleteAndTimeout => 3,
    }
}

impl TriggerType {
    /// The trigger that a stored code stands for.
    pub fn try_from(value: i16) -> (r: Result<TriggerType, &'static str>)
        ensures
            match r {
                Ok(t) => trigger_code(t) == value,
                Err(e) => (value < 1 || value > 3) && e@ == "Invalid TriggerType"@,
            },
    {
        if value == 1 {
            Ok(TriggerType::Spam)
        } else if value == 2 {
            Ok(TriggerType::AntiLink)
        } else if value == 3 {
            Ok(TriggerType::GhostPing)
        } else {
            Err("Invalid TriggerType")
        }
    }

    /// The stored code of the trigger.
    pub fn code(&self) -> (r: i16)
        ensures
            r == trigger_code(*self),
    {
        match self {
            TriggerType::Spam => 1,
            TriggerType::AntiLink => 2,
            TriggerType::GhostPing => 3,
        }
    }
}

impl ActionType {
    /// The action that a stored code stands for.
    pub fn try_from(value: i16) -> (r: Result<ActionType, &'static str>)
        ensures
            match r {
                Ok(a) => action_code(a) == value,
                Err(e) => (value < 1 || value > 3) && e@ == "Invalid ActionType"@,
            },
    {
        if value == 1 {
            Ok(ActionType::DeleteMessage)
        } else if value == 2 {
            Ok(ActionType::Timeout)
        } else if value == 3 {
            Ok(ActionType::DeleteAndTimeout)
        } else {
            Err("Invalid ActionType")
        }
    }

    /// The stored code of the action.
    pub fn code(&self) -> (r: i16)
        ensures
            r == action_code(*self),
    {
        match self {
            ActionType::DeleteMessage => 1,
            ActionType::Timeout => 2,
            ActionType::DeleteAndTimeout => 3,
        }
    }
}

/// Codes and triggers (and codes and actions) correspond one to one: reading a
/// stored code back gives the value that was stored.
pub proof fn law_codes_round_trip(t: TriggerType, a: ActionType, t2: TriggerType, a2: ActionType)
    ensures
        1 <= trigger_code(t) <= 3,
        1 <= action_code(a) <= 3,
        trigger_code(t) == trigger_code(t2) ==> t == t2,
        action_code(a) == action_code(a2) ==> a == a2,
{
}

/// A stored automod rule.
pub struct AutomodRule {
    pub id: i32,
    pub guild_id: i64,
    pub name: String,
    pub trigger_type: i16,
    pub action_type: i16,
    pub enabled: bool,
    /// Milliseconds since the UNIX epoch.
    pub created_at: i64,
    /// Milliseconds since the UNIX epoch.
    pub updated_at: i64,
}

/// The stored automod rules (the `automod_rules` table); the queries on it are
/// made by the application, which hands the rules it reads to this library.
pub struct AutomodRepository {}

/// The automod command handler; it keeps no state of its own.
pub struct AutomodCommandHandler {}

impl AutomodCommandHandler {
    /// A handler.
    pub fn new() -> (r: AutomodCommandHandler) {
        AutomodCommandHandler {}
    }
}

/// What an automod command asks for.
pub enum AutomodRequest {
    /// Create Discord's native automod rules.
    Enable,
    /// Delete every native automod rule.
    Disable,
    /// Only answer with the given text.
    Reply(String),
    /// Show the list of commands.
    Help,
}

/// `AutomodRequest` with its text as a sequence of characters.
pub enum AutomodRequestView {
    Enable,
    Disable,
    Reply(Seq<char>),
    Help,
}

impl View for AutomodRequest {
    type V = AutomodRequestView;

    open spec fn view(&self) -> AutomodRequestView {
        match self {
            AutomodRequest::Enable => AutomodRequestView::Enable,
            AutomodRequest::Disable => AutomodRequestView::Disable,
            AutomodRequest::Reply(t) => AutomodRequestView::Reply(t@),
            AutomodRequest::Help => AutomodRequestView::Help,
        }
    }
}

/// The text that `/automod settings` answers with.
pub open spec fn settings_moved_text() -> Seq<char> {
    "AutoMod settings are now managed in Discord's native Server Settings -> AutoMod."@
}

/// The request of an `/automod` subcommand.
pub open spec fn automod_slash_request(name: Seq<char>, is_subcommand: bool) -> AutomodRequestView {
    if is_subcommand && name == "enable"@ {
        AutomodRequestView::Enable
    } else if is_subcommand && name == "disable"@ {
        AutomodRequestView::Disable
    } else if is_subcommand && name == "settings"@ {
        AutomodRequestView::Reply(settings_moved_text())
    } else {
        AutomodRequestView::Reply("Unknown subcommand"@)
    }
}

/// The request of the prefix `automod` command; the first argument is read
/// lowercased.
pub open spec fn automod_prefix_request(args: Seq<Seq<char>>) -> AutomodRequestView {
    if args.len() == 0 {
        AutomodRequestView::Help
    } else if lowercase(args[0]) == "enable"@ {
        AutomodRequestView::Enable
    } else if lowercase(args[0]) == "disable"@ {
        AutomodRequestView::Disable
    } else {
        AutomodRequestView::Reply("Unknown command. Use `enable` or `disable`."@)
    }
}

/// An `/automod` command, decoded, and whether it is the `settings` subcommand.
pub struct AutomodPlan {
    pub request: AutomodRequest,
    pub is_settings: bool,
}

impl AutomodCommandHandler {
    /// Decodes an `/automod` command. It must come from a guild and carry
    /// command data; with no subcommand there is nothing to do.
    pub fn plan_slash(&self, ctx: &InteractionContext) -> (r: Result<Option<AutomodPlan>, RailwayError>)
        ensures
            ctx.guild_id is None ==> (r matches Err(e) && is_internal(e, "Command must be run in a guild"@)),
            ctx.guild_id is Some ==> match ctx.data {
                InteractionData::ApplicationCommand { options, .. } => if options@.len() == 0 {
                    r matches Ok(None)
                } else {
                    r matches Ok(Some(p)) && p.request@ == automod_slash_request(
                        options@[0].name@,
                        options@[0].value is SubCommand,
                    ) && p.is_settings == (options@[0].name@ == "settings"@)
                },
                _ => r matches Err(e) && is_internal(e, "Not an application command"@),
            },
    {
        if ctx.guild_id.is_none() {
            return Err(RailwayError::internal("Command must be run in a guild"));
        }
        let options = match &ctx.data {
            InteractionData::ApplicationCommand { options, .. } => options,
            _ => return Err(RailwayError::internal("Not an application command")),
        };
        if options.len() == 0 {
            return Ok(None);
        }
        let sub = &options[0];
        let name = sub.name.as_str();
        let is_sub = match &sub.value {
            TopValue::SubCommand(_) => true,
            _ => false,
        };
        let is_settings = str_equals(name, "settings");
        let request = if is_sub && str_equals(name, "enable") {
            AutomodRequest::Enable
        } else if is_sub && str_equals(name, "disable") {
            AutomodRequest::Disable
        } else if is_sub && is_settings {
            AutomodRequest::Reply(
                String::from_str("AutoMod settings are now managed in Discord's native Server Settings -> AutoMod."),
            )
        } else {
            AutomodRequest::Reply(String::from_str("Unknown subcommand"))
        };
        Ok(Some(AutomodPlan { request, is_settings }))
    }

    /// Decodes the prefix `automod` command from its arguments.
    pub fn plan_prefix(&self, args: &Vec<String>) -> (r: AutomodRequest)
        ensures
            r@ == automod_prefix_request(views(args@)),
    {
        if args.len() == 0 {
            return AutomodRequest::Help;
        }
        assert(views(args@)[0] == args@[0]@);
        let sub = str_to_lowercase(args[0].as_str());
        if str_equals(sub.as_str(), "enable") {
            AutomodRequest::Enable
        } else if str_equals(sub.as_str(), "disable") {
            AutomodRequest::Disable
        } else {
            AutomodRequest::Reply(String::from_str("Unknown command. Use `enable` or `disable`."))
        }
    }
}

/// The answer to `/automod settings`: the settings live in Discord now.
pub fn automod_settings_reply() -> (r: String)
    ensures
        r@ == settings_moved_text(),
{
    String::from_str("AutoMod settings are now managed in Discord's native Server Settings -> AutoMod.")
}

/// The reply once the native rules are created.
pub fn automod_enabled_reply() -> (r: String)
    ensures
        r@ == "✅ AutoMod has been **enabled** in this server! All Native rules created."@,
{
    String::from_str("✅ AutoMod has been **enabled** in this server! All Native rules created.")
}

/// The reply once the native rules are deleted.
pub fn automod_disabled_reply() -> (r: String)
    ensures
        r@ == "✅ AutoMod has been **disabled** in this server! All Native rules deleted."@,
{
    String::from_str("✅ AutoMod has been **disabled** in this server! All Native rules deleted.")
}

/// What a native automod rule checks.
#[derive(PartialEq, Eq, Structural, Clone, Copy, Debug)]
pub enum NativeRuleKind {
    /// The bot's list of blocked words.
    Keyword,
    /// Messages with more than the given number of mentions.
    MentionSpam(u8),
    /// Discord's presets of profanity, sexual content and slurs.
    KeywordPreset,
    /// Discord's spam detection.
    Spam,
}

/// A native rule that enabling creates; each blocks the message.
pub struct NativeRule {
    pub name: &'static str,
    pub kind: NativeRuleKind,
}

/// The native rules that enabling automod creates, in order.
pub fn native_rules() -> (r: Vec<NativeRule>)
    ensures
        r@.len() == 4,
        r@[0].name@ == "Prismo AutoMod Rule 1"@ && r@[0].kind == NativeRuleKind::Keyword,
        r@[1].name@ == "Prismo AutoMod Rule 2"@ && r@[1].kind == NativeRuleKind::MentionSpam(5),
        r@[2].name@ == "Prismo AutoMod Rule 3"@ && r@[2].kind == NativeRuleKind::KeywordPreset,
        r@[3].name@ == "Prismo AutoMod Rule 4"@ && r@[3].kind == NativeRuleKind::Spam,
{
    vec![
        NativeRule { name: "Prismo AutoMod Rule 1", kind: NativeRuleKind::Keyword },
        NativeRule { name: "Prismo AutoMod Rule 2", kind: NativeRuleKind::MentionSpam(5) },
        NativeRule { name: "Prismo AutoMod Rule 3", kind: NativeRuleKind::KeywordPreset },
        NativeRule { name: "Prismo AutoMod Rule 4", kind: NativeRuleKind::Spam },
    ]
}

} // verus!
