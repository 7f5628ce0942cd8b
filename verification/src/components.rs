use vstd::prelude::*;
use vstd::string::*;
use crate::automod::AutomodRule;
use crate::error::{RailwayError, is_internal};
use crate::numbers::{dec, parse_unsigned, parse_unsigned_exec, push_dec};
use crate::text::{starts_with, str_equals, str_starts_with, str_trim_start_matches, trim_start_matches};

verus! {

/// Discord's permission bit for administrators.
pub const ADMINISTRATOR: u64 = 0x8;

/// Discord's permission bit for managing the guild.
pub const MANAGE_GUILD: u64 = 0x20;

/// Whether a member with these permission bits may use the settings buttons:
/// managers of the guild and administrators may.
pub open spec fn may_manage(perms: Option<u64>) -> bool {
    match perms {
        Some(p) => (p & MANAGE_GUILD) == MANAGE_GUILD || (p & ADMINISTRATOR) == ADMINISTRATOR,
        None => false,
    }
}

/// Whether a member with these permission bits may use the settings buttons.
pub fn has_manage_permission(perms: Option<u64>) -> (r: bool)
    ensures
        r == may_manage(perms),
{
    match perms {
        Some(p) => (p & MANAGE_GUILD) == MANAGE_GUILD || (p & ADMINISTRATOR) == ADMINISTRATOR,
        None => false,
    }
}

/// What a click on one of the bot's buttons asks for.
pub enum ComponentAction {
    /// The member may not use the buttons; they are told so.
    Deny,
    /// Whitelist a user on behalf of the member who clicked.
    Whitelist { target: u64, clicker: u64 },
    /// Lift a user's ban.
    Unban { target: u64 },
    /// Switch antinuke over.
    ToggleAntinuke,
    /// Switch an automod filter over.
    ToggleAutomod { trigger: i16, filter: String },
    /// Not a button of these commands.
    Ignore,
}

/// The automod trigger code that a toggle button names.
pub open spec fn filter_trigger(f: Seq<char>) -> Option<i16> {
    if f == "spam"@ {
        Some(1)
    } else if f == "antilink"@ {
        Some(2)
    } else if f == "ghostping"@ {
        Some(3)
    } else {
        None
    }
}

/// The outcome of a click, as a specification: the error messages, or the action.
pub open spec fn component_ok(guild: Option<u64>, perms: Option<u64>, id: Seq<char>, author: Option<u64>, r: Result<ComponentAction, RailwayError>) -> bool {
    if guild is None {
        r matches Err(e) && is_internal(e, "Interaction must be in a guild"@)
    } else if !may_manage(perms) {
        r matches Ok(ComponentAction::Deny)
    } else if starts_with(id, "antinuke_wl:"@) {
        match parse_unsigned(trim_start_matches(id, "antinuke_wl:"@), 10, 0xffff_ffff_ffff_ffff) {
            None => r matches Err(e) && is_internal(e, "Invalid target user ID in custom_id"@),
            Some(t) => match author {
                None => r matches Err(e) && is_internal(e, "Interaction has no author"@),
                Some(a) => r matches Ok(ComponentAction::Whitelist { target, clicker }) && target == t && clicker == a,
            },
        }
    } else if starts_with(id, "antinuke_unban:"@) {
        match parse_unsigned(trim_start_matches(id, "antinuke_unban:"@), 10, 0xffff_ffff_ffff_ffff) {
            None => r matches Err(e) && is_internal(e, "Invalid target user ID in custom_id"@),
            Some(t) => r matches Ok(ComponentAction::Unban { target }) && target == t,
        }
    } else if id == "antinuke_toggle"@ {
        r matches Ok(ComponentAction::ToggleAntinuke)
    } else if starts_with(id, "automod_toggle:"@) {
        let f = trim_start_matches(id, "automod_toggle:"@);
        match filter_trigger(f) {
            None => r matches Err(e) && is_internal(e, "Invalid filter type"@),
            Some(code) => r matches Ok(ComponentAction::ToggleAutomod { trigger, filter }) && trigger == code && filter@ == f,
        }
    } else {
        r matches Ok(ComponentAction::Ignore)
    }
}

/// Decides what a click on a settings or moderation button asks for. The click
/// must come from a guild and from a member who may manage it; the custom id
/// names the action and, after its prefix, the user or the filter.
pub fn plan_component(guild_id: Option<u64>, permissions: Option<u64>, custom_id: &str, author: Option<u64>) -> (r: Result<ComponentAction, RailwayError>)
    ensures
        component_ok(guild_id, permissions, custom_id@, author, r),
{
    if guild_id.is_none() {
        return Err(RailwayError::internal("Interaction must be in a guild"));
    }
    if !has_manage_permission(permissions) {
        return Ok(ComponentAction::Deny);
    }
    proof {
        reveal_strlit("antinuke_wl:");
        reveal_strlit("antinuke_unban:");
        reveal_strlit("automod_toggle:");
    }
    if str_starts_with(custom_id, "antinuke_wl:") {
        let rest = str_trim_start_matches(custom_id, "antinuke_wl:");
        let target = match parse_unsigned_exec(rest, 10, 0xffff_ffff_ffff_ffff) {
            Some(t) => t,
            None => return Err(RailwayError::internal("Invalid target user ID in custom_id")),
        };
        match author {
            Some(a) => Ok(ComponentAction::Whitelist { target, clicker: a }),
            None => Err(RailwayError::internal("Interaction has no author")),
        }
    } else if str_starts_with(custom_id, "antinuke_unban:") {
        let rest = str_trim_start_matches(custom_id, "antinuke_unban:");
        match parse_unsigned_exec(rest, 10, 0xffff_ffff_ffff_ffff) {
            Some(t) => Ok(ComponentAction::Unban { target: t }),
            None => Err(RailwayError::internal("Invalid target user ID in custom_id")),
        }
    } else if str_equals(custom_id, "antinuke_toggle") {
        Ok(ComponentAction::ToggleAntinuke)
    } else if str_starts_with(custom_id, "automod_toggle:") {
        let f = str_trim_start_matches(custom_id, "automod_toggle:");
        let code: i16 = if str_equals(f, "spam") {
            1
        } else if str_equals(f, "antilink") {
            2
        } else if str_equals(f, "ghostping") {
            3
        } else {
            return Err(RailwayError::internal("Invalid filter type"));
        };
        Ok(ComponentAction::ToggleAutomod { trigger: code, filter: String::from_str(f) })
    } else {
        Ok(ComponentAction::Ignore)
    }
}

/// The message shown to members who may not use the buttons.
pub fn denied_reply() -> (r: String)
    ensures
        r@ == "❌ Aapke paas is action ko perform karne ki permissions (Manage Guild) nahi hain!"@,
{
    String::from_str("❌ Aapke paas is action ko perform karne ki permissions (Manage Guild) nahi hain!")
}

/// The confirmation of a whitelisting by button.
pub fn whitelisted_by_button_reply(target: u64) -> (r: String)
    ensures
        r@ == "✅ User <@"@ + dec(target as nat) + "> has been whitelisted successfully!"@,
{
    let mut r = String::from_str("✅ User <@");
    push_dec(&mut r, target);
    r.append("> has been whitelisted successfully!");
    r
}

/// The confirmation of an unban.
pub fn unbanned_reply(target: u64) -> (r: String)
    ensures
        r@ == "✅ User <@"@ + dec(target as nat) + "> has been unbanned successfully!"@,
{
    let mut r = String::from_str("✅ User <@");
    push_dec(&mut r, target);
    r.append("> has been unbanned successfully!");
    r
}

/// The message when an unban fails, with the error's text.
pub fn unban_failed_reply(error: &str) -> (r: String)
    ensures
        r@ == "❌ Failed to unban user: "@ + error@,
{
    let mut r = String::from_str("❌ Failed to unban user: ");
    r.append(error);
    r
}

/// The action that a new automod rule takes for a trigger code: timeouts for
/// spam and ghost pings, deletion for links.
pub open spec fn default_action_code(trigger: i16) -> i16 {
    if trigger == 1 { 2 } else if trigger == 2 { 1 } else if trigger == 3 { 2 } else { 1 }
}

/// What switching an automod filter over does to its stored rule.
pub enum AutomodToggle {
    /// Store the rule with its `enabled` flag switched.
    Update(AutomodRule),
    /// No rule yet: create an enabled one with this name and action.
    Create { name: String, action_type: i16 },
}

/// Switches an automod filter over: an existing rule is flipped; otherwise a new,
/// enabled rule is made, named after the filter in debug form.
pub fn plan_automod_toggle(existing: Option<AutomodRule>, trigger: i16, filter: &str) -> (r: AutomodToggle)
    requires
        filter_trigger(filter@) == Some(trigger),
    ensures
        match existing {
            Some(rule) => r matches AutomodToggle::Update(u) && u.enabled == !rule.enabled && u.id == rule.id
                && u.guild_id == rule.guild_id && u.name == rule.name && u.trigger_type == rule.trigger_type
                && u.action_type == rule.action_type && u.created_at == rule.created_at
                && u.updated_at == rule.updated_at,
            None => r matches AutomodToggle::Create { name, action_type }
                && name@ == "AutoMod \""@ + filter@ + "\""@ && action_type == default_action_code(trigger),
        },
{
    match existing {
        Some(rule) => AutomodToggle::Update(AutomodRule { enabled: !rule.enabled, ..rule }),
        None => {
            let mut name = String::from_str("AutoMod \"");
            name.append(filter);
            name.append("\"");
            let action_type: i16 = if trigger == 1 {
                2
            } else if trigger == 2 {
                1
            } else if trigger == 3 {
                2
            } else {
                1
            };
            AutomodToggle::Create { name, action_type }
        },
    }
}

} // verus!
