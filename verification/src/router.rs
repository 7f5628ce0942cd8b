use vstd::prelude::*;
use vstd::string::*;
use crate::commands::{CommandKind, resolve_slash, slash_target};
use crate::components::{ComponentAction, component_ok, plan_component};
use crate::error::{RailwayError, is_internal};
use crate::gateway::handled_by_gateway;
use crate::interaction::{InteractionContext, InteractionData};
use crate::text::str_equals;

verus! {

/// Where the music service sends an interaction.
pub enum InteractionRoute {
    /// Nothing to do (an unknown command, or a button the gateway handles).
    Ignore,
    /// Acknowledge a click that nothing else handles.
    DeferUpdate,
    /// Run a music slash command.
    Slash(CommandKind),
}

/// Routes an interaction in the music service: clicks are acknowledged unless
/// they are now-playing buttons, and slash commands go to the music command of
/// their name.
pub fn route_interaction(ctx: &InteractionContext) -> (r: Result<InteractionRoute, RailwayError>)
    ensures
        match ctx.data {
            InteractionData::MessageComponent { custom_id } => if custom_id@ == "music_stop"@ || custom_id@ == "music_skip"@ {
                r matches Ok(InteractionRoute::Ignore)
            } else {
                r matches Ok(InteractionRoute::DeferUpdate)
            },
            InteractionData::ApplicationCommand { name, .. } => match slash_target(name@) {
                Some(k) => r matches Ok(InteractionRoute::Slash(kind)) && kind == k,
                None => r matches Ok(InteractionRoute::Ignore),
            },
            _ => r matches Err(e) && is_internal(e, "Interaction has no command data"@),
        },
{
    if ctx.is_component() {
        let custom_id = ctx.extract_custom_id()?;
        if handled_by_gateway(custom_id) {
            return Ok(InteractionRoute::Ignore);
        }
        return Ok(InteractionRoute::DeferUpdate);
    }
    let name = ctx.extract_command_name()?;
    match resolve_slash(name) {
        Some(k) => Ok(InteractionRoute::Slash(k)),
        None => Ok(InteractionRoute::Ignore),
    }
}

/// Where the moderation service sends an interaction.
pub enum ModerationRoute {
    /// A click on a settings or moderation button.
    Component(ComponentAction),
    /// `/antinuke`.
    Antinuke,
    /// `/automod`.
    Automod,
}

/// Routes an interaction in the moderation service: clicks by what their custom
/// id asks for, and the `antinuke` and `automod` commands to their handlers;
/// other commands are errors.
pub fn route_moderation(ctx: &InteractionContext, permissions: Option<u64>) -> (r: Result<ModerationRoute, RailwayError>)
    ensures
        match ctx.data {
            InteractionData::MessageComponent { custom_id } => match r {
                Ok(ModerationRoute::Component(a)) => component_ok(ctx.guild_id, permissions, custom_id@, ctx.user_id, Ok(a)),
                Ok(_) => false,
                Err(e) => component_ok(ctx.guild_id, permissions, custom_id@, ctx.user_id, Err(e)),
            },
            InteractionData::ApplicationCommand { name, .. } => if name@ == "antinuke"@ {
                r matches Ok(ModerationRoute::Antinuke)
            } else if name@ == "automod"@ {
                r matches Ok(ModerationRoute::Automod)
            } else {
                r matches Err(e) && is_internal(e, "Unknown command: "@ + name@)
            },
            _ => r matches Err(e) && is_internal(e, "Interaction has no command data"@),
        },
{
    if ctx.is_component() {
        let custom_id = ctx.extract_custom_id()?;
        return match plan_component(ctx.guild_id, permissions, custom_id, ctx.user_id) {
            Ok(a) => Ok(ModerationRoute::Component(a)),
            Err(e) => Err(e),
        };
    }
    let name = ctx.extract_command_name()?;
    if str_equals(name, "antinuke") {
        Ok(ModerationRoute::Antinuke)
    } else if str_equals(name, "automod") {
        Ok(ModerationRoute::Automod)
    } else {
        let mut m = String::from_str("Unknown command: ");
        m.append(name);
        Err(RailwayError::Internal(m))
    }
}

} // verus!
