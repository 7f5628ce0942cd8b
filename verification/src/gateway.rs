use vstd::prelude::*;
use vstd::string::*;
use crate::numbers::{dec, push_dec};
use crate::text::str_equals;

verus! {

/// The gateway events that the event loop tells apart.
#[derive(PartialEq, Eq, Structural, Clone, Copy, Debug)]
pub enum GatewayEventKind {
    VoiceStateUpdate,
    VoiceServerUpdate,
    Other,
}

/// Voice events are forwarded at once, without waiting for a task permit.
pub fn is_voice_critical(kind: GatewayEventKind) -> (r: bool)
    ensures
        r == (kind == GatewayEventKind::VoiceStateUpdate || kind == GatewayEventKind::VoiceServerUpdate),
{
    match kind {
        GatewayEventKind::VoiceStateUpdate => true,
        GatewayEventKind::VoiceServerUpdate => true,
        GatewayEventKind::Other => false,
    }
}

/// The player controls that the now-playing buttons trigger on the gateway.
#[derive(PartialEq, Eq, Structural, Clone, Copy, Debug)]
pub enum PlayerControl {
    Stop,
    Skip,
}

/// The control that a now-playing button asks for: `music_stop` and
/// `music_skip`, from a guild.
pub fn music_button(custom_id: &str, guild_id: Option<u64>) -> (r: Option<PlayerControl>)
    ensures
        guild_id is None ==> r is None,
        guild_id is Some ==> r == if custom_id@ == "music_stop"@ {
            Some(PlayerControl::Stop)
        } else if custom_id@ == "music_skip"@ {
            Some(PlayerControl::Skip)
        } else {
            None
        },
{
    if guild_id.is_none() {
        return None;
    }
    if str_equals(custom_id, "music_stop") {
        Some(PlayerControl::Stop)
    } else if str_equals(custom_id, "music_skip") {
        Some(PlayerControl::Skip)
    } else {
        None
    }
}

/// Whether the command service leaves a button alone: the now-playing buttons
/// belong to the gateway; every other click is acknowledged by deferring.
pub fn handled_by_gateway(custom_id: &str) -> (r: bool)
    ensures
        r == (custom_id@ == "music_stop"@ || custom_id@ == "music_skip"@),
{
    str_equals(custom_id, "music_stop") || str_equals(custom_id, "music_skip")
}

/// How long, in milliseconds, a speaker must talk before the music pauses.
pub const AUTO_PAUSE_AFTER_MS: u64 = 10_000;

/// How long, in milliseconds, without a loud packet ends a speaker's turn.
pub const SILENCE_AFTER_MS: u64 = 400;

/// How long, in milliseconds, a guild with nobody speaking stays tracked.
pub const FORGET_AFTER_MS: u64 = 5_000;

/// The volume (percent) while someone speaks, and after.
pub const DUCKED_VOLUME: u16 = 15;
pub const FULL_VOLUME: u16 = 100;

/// Whether a user in a voice channel is talking; times are milliseconds on a
/// monotonic clock.
#[derive(PartialEq, Eq, Structural, Clone, Copy, Debug)]
pub enum SpeakerState {
    Quiet { since: u64 },
    Speaking { speech_start: u64, last_packet: u64, auto_paused: bool },
}

/// What the player should do after a voice packet.
#[derive(PartialEq, Eq, Structural, Clone, Copy, Debug)]
pub enum VoiceEffect {
    Nothing,
    /// Someone started talking: lower the volume.
    Duck,
    /// Someone has talked for a long time: pause.
    AutoPause,
}

/// Time elapsed since `t`, never negative.
pub open spec fn elapsed(now: u64, t: u64) -> nat {
    if now >= t { (now - t) as nat } else { 0 }
}

/// A user's state after a voice packet, and what the player should do.
pub open spec fn after_packet(state: Option<SpeakerState>, loud: bool, now: u64) -> (SpeakerState, VoiceEffect) {
    let s = match state {
        Some(s) => s,
        None => SpeakerState::Quiet { since: now },
    };
    if !loud {
        (s, VoiceEffect::Nothing)
    } else {
        match s {
            SpeakerState::Quiet { .. } => (
                SpeakerState::Speaking { speech_start: now, last_packet: now, auto_paused: false },
                VoiceEffect::Duck,
            ),
            SpeakerState::Speaking { speech_start, auto_paused, .. } => if !auto_paused && elapsed(now, speech_start) >= 10_000 {
                (SpeakerState::Speaking { speech_start, last_packet: now, auto_paused: true }, VoiceEffect::AutoPause)
            } else {
                (SpeakerState::Speaking { speech_start, last_packet: now, auto_paused }, VoiceEffect::Nothing)
            },
        }
    }
}

/// Updates a user's state for a voice packet that was (or was not) loud.
pub fn on_voice_packet(state: Option<SpeakerState>, loud: bool, now: u64) -> (r: (SpeakerState, VoiceEffect))
    ensures
        r == after_packet(state, loud, now),
{
    let s = match state {
        Some(s) => s,
        None => SpeakerState::Quiet { since: now },
    };
    if !loud {
        return (s, VoiceEffect::Nothing);
    }
    match s {
        SpeakerState::Quiet { .. } => (
            SpeakerState::Speaking { speech_start: now, last_packet: now, auto_paused: false },
            VoiceEffect::Duck,
        ),
        SpeakerState::Speaking { speech_start, auto_paused, .. } => {
            if !auto_paused && now.saturating_sub(speech_start) >= AUTO_PAUSE_AFTER_MS {
                (SpeakerState::Speaking { speech_start, last_packet: now, auto_paused: true }, VoiceEffect::AutoPause)
            } else {
                (SpeakerState::Speaking { speech_start, last_packet: now, auto_paused }, VoiceEffect::Nothing)
            }
        },
    }
}

/// The music pauses at most once per turn of speech, and only after ten
/// seconds of it; the volume is lowered only when a turn begins.
pub proof fn law_voice_effects(state: Option<SpeakerState>, loud: bool, now: u64)
    ensures
        after_packet(state, loud, now).1 == VoiceEffect::AutoPause ==> (state matches Some(
            SpeakerState::Speaking { speech_start, auto_paused, .. },
        ) && !auto_paused && elapsed(now, speech_start) >= 10_000),
        after_packet(state, loud, now).1 == VoiceEffect::Duck ==> loud && !(state matches Some(SpeakerState::Speaking { .. })),
        loud ==> after_packet(state, loud, now).0 is Speaking,
{
}

/// A user's state at a periodic check: a speaker who has been silent for more
/// than 400 ms becomes quiet.
pub open spec fn swept(s: SpeakerState, now: u64) -> SpeakerState {
    match s {
        SpeakerState::Speaking { last_packet, .. } => if elapsed(now, last_packet) > 400 {
            SpeakerState::Quiet { since: now }
        } else {
            s
        },
        SpeakerState::Quiet { .. } => s,
    }
}

/// A speaker whose turn ends at this check.
pub open spec fn stops(s: SpeakerState, now: u64) -> bool {
    s matches SpeakerState::Speaking { last_packet, .. } && elapsed(now, last_packet) > 400
}

/// Whether anyone still speaks after the check, and the latest time at which
/// someone fell quiet, over the first `k` users.
pub open spec fn sweep_summary(users: Seq<SpeakerState>, now: u64, k: nat) -> (bool, Option<u64>)
    decreases k,
{
    if k == 0 || k > users.len() {
        (false, None)
    } else {
        let (anyone, recent) = sweep_summary(users, now, (k - 1) as nat);
        let s = users[k - 1];
        match s {
            SpeakerState::Speaking { .. } => if stops(s, now) {
                (anyone, Some(now))
            } else {
                (true, recent)
            },
            SpeakerState::Quiet { since } => (anyone, match recent {
                Some(r) => if since > r { Some(since) } else { Some(r) },
                None => Some(since),
            }),
        }
    }
}

/// A guild stops being tracked when nobody speaks and the last speaker fell
/// quiet five seconds ago or more (or nobody ever did).
pub open spec fn forget_guild(users: Seq<SpeakerState>, now: u64) -> bool {
    let (anyone, recent) = sweep_summary(users, now, users.len());
    !anyone && match recent {
        Some(t) => elapsed(now, t) >= 5000,
        None => true,
    }
}

/// The outcome of a periodic check of a guild.
pub struct SweepOutcome {
    /// The positions of the users whose turn ended; the volume comes back for
    /// them once nobody speaks.
    pub stopped: Vec<usize>,
    /// Whether the guild stops being tracked.
    pub forget: bool,
}

/// The positions, among the first `k` users, of those whose turn ends.
pub open spec fn stopping_positions(users: Seq<SpeakerState>, now: u64, k: nat) -> Seq<usize>
    decreases k,
{
    if k == 0 || k > users.len() {
        Seq::<usize>::empty()
    } else if stops(users[k - 1], now) {
        stopping_positions(users, now, (k - 1) as nat).push((k - 1) as usize)
    } else {
        stopping_positions(users, now, (k - 1) as nat)
    }
}

/// The periodic check of a guild's speakers.
pub fn sweep_guild(users: &mut Vec<SpeakerState>, now: u64) -> (r: SweepOutcome)
    ensures
        final(users)@.len() == old(users)@.len(),
        forall|i: int| 0 <= i < old(users)@.len() ==> #[trigger] final(users)@[i] == swept(old(users)@[i], now),
        r.stopped@ == stopping_positions(old(users)@, now, old(users)@.len()),
        r.forget == forget_guild(old(users)@, now),
{
    let ghost before = users@;
    let n = users.len();
    let mut stopped: Vec<usize> = Vec::new();
    let mut anyone = false;
    let mut recent: Option<u64> = None;
    let mut i: usize = 0;
    while i < n
        invariant
            n == users@.len(),
            n == before.len(),
            i <= n,
            forall|j: int| 0 <= j < i ==> #[trigger] users@[j] == swept(before[j], now),
            forall|j: int| i <= j < n ==> #[trigger] users@[j] == before[j],
            (anyone, recent) == sweep_summary(before, now, i as nat),
            stopped@ == stopping_positions(before, now, i as nat),
        decreases n - i,
    {
        let s = users[i];
        match s {
            SpeakerState::Speaking { last_packet, .. } => {
                if now.saturating_sub(last_packet) > SILENCE_AFTER_MS {
                    users.set(i, SpeakerState::Quiet { since: now });
                    stopped.push(i);
                    recent = Some(now);
                } else {
                    anyone = true;
                }
            },
            SpeakerState::Quiet { since } => {
                recent = match recent {
                    Some(t) => if since > t { Some(since) } else { Some(t) },
                    None => Some(since),
                };
            },
        }
        i = i + 1;
    }
    let forget = !anyone && match recent {
        Some(t) => now.saturating_sub(t) >= FORGET_AFTER_MS,
        None => true,
    };
    SweepOutcome { stopped, forget }
}

/// Whether the full volume comes back: nobody in the guild is speaking.
pub open spec fn silent(users: Seq<SpeakerState>) -> bool {
    forall|i: int| 0 <= i < users.len() ==> !(#[trigger] users[i] is Speaking)
}

/// Whether the full volume comes back: nobody in the guild is speaking.
pub fn should_restore_volume(users: &Vec<SpeakerState>) -> (r: bool)
    ensures
        r == silent(users@),
{
    let n = users.len();
    let mut i: usize = 0;
    while i < n
        invariant
            n == users@.len(),
            i <= n,
            forall|j: int| 0 <= j < i ==> !(#[trigger] users@[j] is Speaking),
        decreases n - i,
    {
        if let SpeakerState::Speaking { .. } = users[i] {
            return false;
        }
        i = i + 1;
    }
    true
}

/// After a check, everyone still counted as speaking was heard within the last
/// 400 ms, and a guild is forgotten only when nobody speaks.
pub proof fn law_sweep(users: Seq<SpeakerState>, now: u64)
    ensures
        forall|i: int| 0 <= i < users.len() ==> (swept(#[trigger] users[i], now) matches SpeakerState::Speaking { last_packet, .. }
            ==> elapsed(now, last_packet) <= 400),
        forget_guild(users, now) ==> !sweep_summary(users, now, users.len()).0,
{
}


/// The custom status that each shard shows.
pub fn presence_state(shard_number: u32) -> (r: String)
    ensures
        r@ == "🔗 /help · harmony · ✦ cluster "@ + dec(shard_number as nat),
{
    let mut r = String::from_str("🔗 /help · harmony · ✦ cluster ");
    push_dec(&mut r, shard_number as u64);
    r
}

/// The wait, in seconds, before reconnecting to the event channel after
/// `retry_count` failed attempts: doubling from one second, at most thirty.
pub open spec fn reconnect_delay_secs(retry_count: nat) -> nat {
    if pow2(retry_count) < 30 { pow2(retry_count) } else { 30 }
}

/// Two to the power `n`.
pub open spec fn pow2(n: nat) -> nat
    decreases n,
{
    if n == 0 { 1 } else { 2 * pow2((n - 1) as nat) }
}

/// The wait before the next reconnection and the count of failed attempts
/// after this one.
pub fn reconnect_backoff(retry_count: u32) -> (r: (u64, u32))
    requires
        retry_count < 64,
    ensures
        r.0 as nat == reconnect_delay_secs(retry_count as nat),
        r.1 == if retry_count < u32::MAX { (retry_count + 1) as u32 } else { u32::MAX },
{
    let mut p: u64 = 1;
    let mut i: u32 = 0;
    while i < retry_count && p < 30
        invariant
            i <= retry_count,
            retry_count < 64,
            p as nat == pow2(i as nat),
            p <= 60,
        decreases retry_count - i,
    {
        p = p * 2;
        i = i + 1;
    }
    proof {
        lemma_pow2_mono(i as nat, retry_count as nat);
    }
    let delay = if p < 30 { p } else { 30 };
    (delay, retry_count.saturating_add(1))
}

proof fn lemma_pow2_mono(a: nat, b: nat)
    requires
        a <= b,
    ensures
        pow2(a) <= pow2(b),
    decreases b - a,
{
    if a < b {
        lemma_pow2_mono(a, (b - 1) as nat);
    }
}


/// The reconnection wait never exceeds thirty seconds and never shrinks while
/// failures go on.
pub proof fn law_backoff_capped_and_growing(a: nat, b: nat)
    requires
        a <= b,
    ensures
        reconnect_delay_secs(a) <= 30,
        reconnect_delay_secs(a) <= reconnect_delay_secs(b),
        reconnect_delay_secs(0) == 1,
{
    lemma_pow2_mono(a, b);
}

} // verus!
