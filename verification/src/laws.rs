use vstd::prelude::*;
use vstd::string::*;
use crate::antinuke::{RequestView, prefix_request, slash_request};
use crate::automod::{AutomodRequestView, TriggerType, automod_prefix_request, automod_slash_request, trigger_code};
use crate::components::{ComponentAction, component_ok};
use crate::error::RailwayError;
use crate::gateway::{SpeakerState, elapsed, forget_guild, stops, sweep_summary};
use crate::interaction::TopOption;
use crate::music::{FilterType, filter_settings, filter_value, is_prefix_filter_name};
use crate::text::lowercase;

verus! {

/// `/antinuke` turns protection on exactly for the `enable` subcommand and off
/// exactly for the `disable` subcommand: no other option, and no option of
/// another shape, decodes to either.
pub proof fn law_slash_enable_disable(o: TopOption, author: Option<u64>)
    ensures
        slash_request(o, author) == Some(RequestView::Enable) <==> (o.name@ == "enable"@ && o.value is SubCommand),
        slash_request(o, author) == Some(RequestView::Disable) <==> (o.name@ == "disable"@ && o.value is SubCommand),
{
    reveal_strlit("enable");
    reveal_strlit("disable");
    assert("enable"@.len() == 6 && "disable"@.len() == 7);
}

/// The prefix command and the slash command agree: typing `enable`, `disable`,
/// `settings` or `whitelisted` (in lower case) after the prefix asks for what
/// the subcommand of that name asks for.
pub proof fn law_prefix_agrees_with_slash(n: Seq<char>, o: TopOption, author: u64)
    requires
        lowercase(n) == n,
        o.name@ == n,
        o.value is SubCommand,
        n == "enable"@ || n == "disable"@ || n == "settings"@ || n == "whitelisted"@,
    ensures
        slash_request(o, Some(author)) == Some(prefix_request(seq![n], author)),
{
    reveal_strlit("enable");
    reveal_strlit("disable");
    reveal_strlit("settings");
    reveal_strlit("whitelisted");
    reveal_strlit("set");
    reveal_strlit("whitelist");
    assert("enable"@.len() == 6 && "disable"@.len() == 7 && "settings"@.len() == 8);
    assert("whitelisted"@.len() == 11 && "set"@.len() == 3 && "whitelist"@.len() == 9);
    assert(seq![n][0] == n);
}

/// `/automod` creates the native rules exactly for the `enable` subcommand and
/// deletes them exactly for the `disable` subcommand.
pub proof fn law_automod_enable_disable(name: Seq<char>, is_subcommand: bool)
    ensures
        automod_slash_request(name, is_subcommand) == AutomodRequestView::Enable <==> (is_subcommand && name == "enable"@),
        automod_slash_request(name, is_subcommand) == AutomodRequestView::Disable <==> (is_subcommand && name == "disable"@),
{
    reveal_strlit("enable");
    reveal_strlit("disable");
    assert("enable"@.len() == 6 && "disable"@.len() == 7);
}

/// The prefix `automod enable` / `automod disable` (in lower case) asks for what
/// the slash subcommand of the same name asks for.
pub proof fn law_automod_prefix_agrees_with_slash(n: Seq<char>)
    requires
        lowercase(n) == n,
        n == "enable"@ || n == "disable"@,
    ensures
        automod_prefix_request(seq![n]) == automod_slash_request(n, true),
{
    reveal_strlit("enable");
    reveal_strlit("disable");
    assert("enable"@.len() == 6 && "disable"@.len() == 7);
    assert(seq![n][0] == n);
}

/// A click on an automod toggle switches the rule of the trigger that the
/// button names: `spam` the spam rule, `antilink` the link rule, `ghostping`
/// the ghost-ping rule, each by its stored code.
pub proof fn law_toggle_names_its_trigger(
    guild_id: Option<u64>,
    permissions: Option<u64>,
    custom_id: Seq<char>,
    author: Option<u64>,
    trigger: i16,
    filter: String,
)
    requires
        component_ok(guild_id, permissions, custom_id, author, Ok(ComponentAction::ToggleAutomod { trigger, filter })),
    ensures
        (filter@ == "spam"@ && trigger == trigger_code(TriggerType::Spam))
            || (filter@ == "antilink"@ && trigger == trigger_code(TriggerType::AntiLink))
            || (filter@ == "ghostping"@ && trigger == trigger_code(TriggerType::GhostPing)),
{
}

/// A user whose turn is over long ago: quiet, and quiet for at least five seconds.
pub open spec fn long_quiet(s: SpeakerState, now: u64) -> bool {
    s matches SpeakerState::Quiet { since } && elapsed(now, since) >= 5000
}

/// A user that leaves a guild forgettable: quiet for five seconds or more, or
/// speaking and still heard within the last 400 ms (which keeps the guild
/// anyway, through the speaking flag).
spec fn settled(s: SpeakerState, now: u64) -> bool {
    match s {
        SpeakerState::Quiet { since } => elapsed(now, since) >= 5000,
        SpeakerState::Speaking { .. } => !stops(s, now),
    }
}

proof fn lemma_sweep_summary(users: Seq<SpeakerState>, now: u64, k: nat)
    requires
        k <= users.len(),
    ensures
        sweep_summary(users, now, k).0 <==> exists|i: int|
            0 <= i < k && #[trigger] users[i] is Speaking && !stops(users[i], now),
        (match sweep_summary(users, now, k).1 {
            None => true,
            Some(r) => elapsed(now, r) >= 5000,
        }) <==> forall|i: int| 0 <= i < k ==> settled(#[trigger] users[i], now),
    decreases k,
{
    if k > 0 {
        lemma_sweep_summary(users, now, (k - 1) as nat);
        let j = k - 1;
        assert forall|i: int| 0 <= i < k implies (settled(#[trigger] users[i], now) <== (i == j && settled(users[j], now))
            || (i < j && settled(users[i], now))) by {}
        if exists|i: int| 0 <= i < k && #[trigger] users[i] is Speaking && !stops(users[i], now) {
            let i = choose|i: int| 0 <= i < k && #[trigger] users[i] is Speaking && !stops(users[i], now);
            if i < j {
                assert(users[i] is Speaking);
            }
        }
    }
}

/// A guild stops being tracked exactly when everyone in it has been quiet for
/// five seconds or more: one speaker, or one who fell quiet less than five
/// seconds ago (at any position), keeps it.
pub proof fn law_forget_only_long_quiet_guilds(users: Seq<SpeakerState>, now: u64)
    ensures
        forget_guild(users, now) <==> forall|i: int| 0 <= i < users.len() ==> long_quiet(#[trigger] users[i], now),
{
    lemma_sweep_summary(users, now, users.len());
    if forget_guild(users, now) {
        assert forall|i: int| 0 <= i < users.len() implies long_quiet(#[trigger] users[i], now) by {
            assert(settled(users[i], now));
            if users[i] is Speaking {
                assert(users[i] is Speaking && !stops(users[i], now));
            }
        }
    } else {
        if forall|i: int| 0 <= i < users.len() ==> long_quiet(#[trigger] users[i], now) {
            assert forall|i: int| 0 <= i < users.len() implies settled(#[trigger] users[i], now) by {
                assert(long_quiet(users[i], now));
            }
            assert(!exists|i: int| 0 <= i < users.len() && #[trigger] users[i] is Speaking && !stops(users[i], now)) by {
                assert forall|i: int| 0 <= i < users.len() implies !(#[trigger] users[i] is Speaking) by {
                    assert(long_quiet(users[i], now));
                }
            }
        }
    }
}

/// The prefix `filter` command accepts every filter that the audio node has
/// settings for; in particular every filter that `/filter` offers but Studio.
pub proof fn law_prefix_filter_accepts_node_filters(n: Seq<char>, f: FilterType)
    ensures
        filter_settings(n) is Some ==> is_prefix_filter_name(n),
        f != FilterType::Studio ==> is_prefix_filter_name(filter_value(f)),
{
}

} // verus!
