use vstd::prelude::*;
use crate::ids::BotIdentity;
use crate::prefix::{PrefixRouter, parse_invocation};
use crate::text::{lowercase, split_whitespace, str_equals, str_to_lowercase, views, words};

verus! {

/// The music commands, reachable both as slash commands and by prefix.
#[derive(PartialEq, Eq, Structural, Clone, Copy, Debug)]
pub enum CommandKind {
    Play,
    Stop,
    Skip,
    Pause,
    Resume,
    Volume,
    Filter,
    Queue,
}

/// The slash-command name of each music command.
pub open spec fn slash_name(k: CommandKind) -> Seq<char> {
    match k {
        CommandKind::Play => "play"@,
        CommandKind::Stop => "stop"@,
        CommandKind::Skip => "skip"@,
        CommandKind::Pause => "pause"@,
        CommandKind::Resume => "resume"@,
        CommandKind::Volume => "volume"@,
        CommandKind::Filter => "filter"@,
        CommandKind::Queue => "queue"@,
    }
}

/// The prefix aliases that each music command answers to.
pub open spec fn alias_list(k: CommandKind) -> Seq<Seq<char>> {
    match k {
        CommandKind::Play => seq!["play"@],
        CommandKind::Stop => seq!["stop"@],
        CommandKind::Skip => seq!["skip"@, "s"@, "next"@],
        CommandKind::Pause => seq!["pause"@],
        CommandKind::Resume => seq!["resume"@, "unpause"@],
        CommandKind::Volume => seq!["volume"@, "vol"@, "v"@],
        CommandKind::Filter => seq!["filter"@],
        CommandKind::Queue => seq!["queue"@, "q"@],
    }
}

/// The music command that a (lowercased) prefix command word names.
pub open spec fn alias_target(name: Seq<char>) -> Option<CommandKind> {
    if name == "play"@ {
        Some(CommandKind::Play)
    } else if name == "stop"@ {
        Some(CommandKind::Stop)
    } else if name == "skip"@ || name == "s"@ || name == "next"@ {
        Some(CommandKind::Skip)
    } else if name == "pause"@ {
        Some(CommandKind::Pause)
    } else if name == "resume"@ || name == "unpause"@ {
        Some(CommandKind::Resume)
    } else if name == "volume"@ || name == "vol"@ || name == "v"@ {
        Some(CommandKind::Volume)
    } else if name == "filter"@ {
        Some(CommandKind::Filter)
    } else if name == "queue"@ || name == "q"@ {
        Some(CommandKind::Queue)
    } else {
        None
    }
}

/// The music command that a slash-command name names.
pub open spec fn slash_target(name: Seq<char>) -> Option<CommandKind> {
    if name == "play"@ {
        Some(CommandKind::Play)
    } else if name == "stop"@ {
        Some(CommandKind::Stop)
    } else if name == "skip"@ {
        Some(CommandKind::Skip)
    } else if name == "pause"@ {
        Some(CommandKind::Pause)
    } else if name == "resume"@ {
        Some(CommandKind::Resume)
    } else if name == "volume"@ {
        Some(CommandKind::Volume)
    } else if name == "filter"@ {
        Some(CommandKind::Filter)
    } else if name == "queue"@ {
        Some(CommandKind::Queue)
    } else {
        None
    }
}

/// The music command that a lowercased prefix command word names.
pub fn resolve_alias(name: &str) -> (r: Option<CommandKind>)
    ensures
        r == alias_target(name@),
{
    if str_equals(name, "play") {
        Some(CommandKind::Play)
    } else if str_equals(name, "stop") {
        Some(CommandKind::Stop)
    } else if str_equals(name, "skip") || str_equals(name, "s") || str_equals(name, "next") {
        Some(CommandKind::Skip)
    } else if str_equals(name, "pause") {
        Some(CommandKind::Pause)
    } else if str_equals(name, "resume") || str_equals(name, "unpause") {
        Some(CommandKind::Resume)
    } else if str_equals(name, "volume") || str_equals(name, "vol") || str_equals(name, "v") {
        Some(CommandKind::Volume)
    } else if str_equals(name, "filter") {
        Some(CommandKind::Filter)
    } else if str_equals(name, "queue") || str_equals(name, "q") {
        Some(CommandKind::Queue)
    } else {
        None
    }
}

/// The music command that a slash-command name names.
pub fn resolve_slash(name: &str) -> (r: Option<CommandKind>)
    ensures
        r == slash_target(name@),
{
    if str_equals(name, "play") {
        Some(CommandKind::Play)
    } else if str_equals(name, "stop") {
        Some(CommandKind::Stop)
    } else if str_equals(name, "skip") {
        Some(CommandKind::Skip)
    } else if str_equals(name, "pause") {
        Some(CommandKind::Pause)
    } else if str_equals(name, "resume") {
        Some(CommandKind::Resume)
    } else if str_equals(name, "volume") {
        Some(CommandKind::Volume)
    } else if str_equals(name, "filter") {
        Some(CommandKind::Filter)
    } else if str_equals(name, "queue") {
        Some(CommandKind::Queue)
    } else {
        None
    }
}

/// Every alias that a command declares leads back to that command, and its
/// slash-command name does too: no alias is shared between two commands.
pub proof fn law_aliases_reach_their_command(k: CommandKind)
    ensures
        forall|i: int| 0 <= i < alias_list(k).len() ==> alias_target(#[trigger] alias_list(k)[i]) == Some(k),
        slash_target(slash_name(k)) == Some(k),
{
    reveal_strlit("play");
    reveal_strlit("stop");
    reveal_strlit("skip");
    reveal_strlit("s");
    reveal_strlit("next");
    reveal_strlit("pause");
    reveal_strlit("resume");
    reveal_strlit("unpause");
    reveal_strlit("volume");
    reveal_strlit("vol");
    reveal_strlit("v");
    reveal_strlit("filter");
    reveal_strlit("queue");
    reveal_strlit("q");
    let p = "play"@;
    let st = "stop"@;
    let sk = "skip"@;
    let s1 = "s"@;
    let nx = "next"@;
    let pa = "pause"@;
    let re = "resume"@;
    let un = "unpause"@;
    let vo = "volume"@;
    let vl = "vol"@;
    let v1 = "v"@;
    let fi = "filter"@;
    let qu = "queue"@;
    let q1 = "q"@;
    assert(p[0] == 'p' && p[1] == 'l');
    assert(st[0] == 's' && st[1] == 't');
    assert(sk[0] == 's' && sk[1] == 'k');
    assert(nx[0] == 'n');
    assert(pa[0] == 'p' && pa[1] == 'a');
    assert(re[0] == 'r');
    assert(un[0] == 'u');
    assert(vo[0] == 'v' && vo.len() == 6);
    assert(vl[0] == 'v' && vl.len() == 3);
    assert(v1[0] == 'v' && v1.len() == 1);
    assert(fi[0] == 'f');
    assert(qu[0] == 'q' && qu.len() == 5);
    assert(q1[0] == 'q' && q1.len() == 1);
    assert(s1[0] == 's' && s1.len() == 1);
}

/// A chat message, reduced to what routing reads.
pub struct MessageInfo {
    pub author_is_bot: bool,
    pub from_webhook: bool,
    pub guild_id: Option<u64>,
    pub content: String,
}

/// What a chat message asks for.
pub enum MessageRoute {
    /// Nothing to do.
    Ignore,
    /// The built-in `ping` command.
    Ping,
    /// A music command with its whitespace-separated arguments.
    Run { kind: CommandKind, guild_id: u64, args: Vec<String> },
}

impl PrefixRouter {
    /// Decides what a chat message asks for. Messages from bots, from webhooks and
    /// from outside a guild are ignored; otherwise the command word, lowercased,
    /// selects a music command by its aliases, and `ping` is answered directly.
    pub fn route_message(&self, msg: &MessageInfo, identity: &BotIdentity) -> (r: MessageRoute)
        ensures
            (msg.author_is_bot || msg.from_webhook || msg.guild_id is None
                || parse_invocation(msg.content@, self.prefix(), identity@ as nat) is None)
                ==> r is Ignore,
            !(msg.author_is_bot || msg.from_webhook || msg.guild_id is None)
                ==> match parse_invocation(msg.content@, self.prefix(), identity@ as nat) {
                    None => r is Ignore,
                    Some((command, rest)) => match alias_target(lowercase(command)) {
                        Some(k) => r matches MessageRoute::Run { kind, guild_id, args }
                            && kind == k && guild_id == msg.guild_id->0 && views(args@) == words(rest),
                        None => if lowercase(command) == "ping"@ { r is Ping } else { r is Ignore },
                    },
                },
    {
        if msg.author_is_bot || msg.from_webhook {
            return MessageRoute::Ignore;
        }
        let guild_id = match msg.guild_id {
            Some(id) => id,
            None => return MessageRoute::Ignore,
        };
        match self.parse_prefix(msg.content.as_str(), identity) {
            None => MessageRoute::Ignore,
            Some((command, rest)) => {
                let lower = str_to_lowercase(command);
                match resolve_alias(lower.as_str()) {
                    Some(kind) => MessageRoute::Run { kind, guild_id, args: split_whitespace(rest) },
                    None => {
                        if str_equals(lower.as_str(), "ping") {
                            MessageRoute::Ping
                        } else {
                            MessageRoute::Ignore
                        }
                    },
                }
            },
        }
    }
}


/// The views of a list of static texts.
pub open spec fn str_views(v: Seq<&'static str>) -> Seq<Seq<char>> {
    v.map_values(|s: &'static str| s@)
}

/// The `/stop` slash command.
pub struct StopAppCommand;

impl StopAppCommand {
    /// The slash-command name.
    pub fn name(&self) -> (r: &'static str)
        ensures
            r@ == slash_name(CommandKind::Stop),
    {
        "stop"
    }
}

/// The `stop` prefix command.
pub struct StopPrefixCommand;

impl StopPrefixCommand {
    /// The words that invoke the command after the prefix.
    pub fn aliases(&self) -> (r: Vec<&'static str>)
        ensures
            str_views(r@) == alias_list(CommandKind::Stop),
    {
        let r = vec!["stop"];
        assert(str_views(r@) =~= alias_list(CommandKind::Stop));
        r
    }
}

/// The `/skip` slash command.
pub struct SkipAppCommand;

impl SkipAppCommand {
    /// The slash-command name.
    pub fn name(&self) -> (r: &'static str)
        ensures
            r@ == slash_name(CommandKind::Skip),
    {
        "skip"
    }
}

/// The `skip` prefix command.
pub struct SkipPrefixCommand;

impl SkipPrefixCommand {
    /// The words that invoke the command after the prefix.
    pub fn aliases(&self) -> (r: Vec<&'static str>)
        ensures
            str_views(r@) == alias_list(CommandKind::Skip),
    {
        let r = vec!["skip", "s", "next"];
        assert(str_views(r@) =~= alias_list(CommandKind::Skip));
        r
    }
}

/// The `/pause` slash command.
pub struct PauseAppCommand;

impl PauseAppCommand {
    /// The slash-command name.
    pub fn name(&self) -> (r: &'static str)
        ensures
            r@ == slash_name(CommandKind::Pause),
    {
        "pause"
    }
}

/// The `pause` prefix command.
pub struct PausePrefixCommand;

impl PausePrefixCommand {
    /// The words that invoke the command after the prefix.
    pub fn aliases(&self) -> (r: Vec<&'static str>)
        ensures
            str_views(r@) == alias_list(CommandKind::Pause),
    {
        let r = vec!["pause"];
        assert(str_views(r@) =~= alias_list(CommandKind::Pause));
        r
    }
}

/// The `/resume` slash command.
pub struct ResumeAppCommand;

impl ResumeAppCommand {
    /// The slash-command name.
    pub fn name(&self) -> (r: &'static str)
        ensures
            r@ == slash_name(CommandKind::Resume),
    {
        "resume"
    }
}

/// The `resume` prefix command.
pub struct ResumePrefixCommand;

impl ResumePrefixCommand {
    /// The words that invoke the command after the prefix.
    pub fn aliases(&self) -> (r: Vec<&'static str>)
        ensures
            str_views(r@) == alias_list(CommandKind::Resume),
    {
        let r = vec!["resume", "unpause"];
        assert(str_views(r@) =~= alias_list(CommandKind::Resume));
        r
    }
}

/// The `/volume` slash command.
pub struct VolumeAppCommand;

impl VolumeAppCommand {
    /// The slash-command name.
    pub fn name(&self) -> (r: &'static str)
        ensures
            r@ == slash_name(CommandKind::Volume),
    {
        "volume"
    }
}

/// The `volume` prefix command.
pub struct VolumePrefixCommand;

impl VolumePrefixCommand {
    /// The words that invoke the command after the prefix.
    pub fn aliases(&self) -> (r: Vec<&'static str>)
        ensures
            str_views(r@) == alias_list(CommandKind::Volume),
    {
        let r = vec!["volume", "vol", "v"];
        assert(str_views(r@) =~= alias_list(CommandKind::Volume));
        r
    }
}

/// The `/filter` slash command.
pub struct FilterAppCommand;

impl FilterAppCommand {
    /// The slash-command name.
    pub fn name(&self) -> (r: &'static str)
        ensures
            r@ == slash_name(CommandKind::Filter),
    {
        "filter"
    }
}

/// The `filter` prefix command.
pub struct FilterPrefixCommand;

impl FilterPrefixCommand {
    /// The words that invoke the command after the prefix.
    pub fn aliases(&self) -> (r: Vec<&'static str>)
        ensures
            str_views(r@) == alias_list(CommandKind::Filter),
    {
        let r = vec!["filter"];
        assert(str_views(r@) =~= alias_list(CommandKind::Filter));
        r
    }
}

/// The `/queue` slash command.
pub struct QueueAppCommand;

impl QueueAppCommand {
    /// The slash-command name.
    pub fn name(&self) -> (r: &'static str)
        ensures
            r@ == slash_name(CommandKind::Queue),
    {
        "queue"
    }
}

/// The `queue` prefix command.
pub struct QueuePrefixCommand;

impl QueuePrefixCommand {
    /// The words that invoke the command after the prefix.
    pub fn aliases(&self) -> (r: Vec<&'static str>)
        ensures
            str_views(r@) == alias_list(CommandKind::Queue),
    {
        let r = vec!["queue", "q"];
        assert(str_views(r@) =~= alias_list(CommandKind::Queue));
        r
    }
}

} // verus!
