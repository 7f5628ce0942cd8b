use vstd::prelude::*;
use vstd::string::*;
use vstd::utf8::{decode_utf8, encode_utf8, is_char_boundary};
use crate::cache::{is_hyphenated_uuid, random_uuid};
use crate::numbers::{dec, pad2, parse_unsigned, parse_unsigned_exec, push_dec, push_pad2, u64_to_string};
use crate::ui::{ButtonSpec, style_from_number, template_style};
use crate::text::{contains, join, join_strings, lowercase, replace_all, starts_with, str_contains, str_equals, str_replace, str_starts_with, str_to_lowercase, views};

verus! {

/// A request to the audio node, as published on the music request channel.
pub enum MusicCommand {
    Play {
        req_id: String,
        guild_id: String,
        channel_id: String,
        text_channel_id: Option<String>,
        query: String,
    },
    Pause { guild_id: String },
    Stop { guild_id: String },
    Resume { guild_id: String },
    Skip { guild_id: String },
    Queue { req_id: String, guild_id: String },
    Filter { guild_id: String, filter_type: String },
}

/// The text of an embed reply, and whether it is shown in the error colour
/// (`0xFF0000`) rather than the configured embed colour.
pub struct EmbedReply {
    pub description: String,
    pub is_error: bool,
}

/// The error colour of embeds.
pub const ERROR_COLOR: u32 = 0xFF0000;

/// The audio filters offered by the `/filter` command.
#[derive(PartialEq, Eq, Structural, Clone, Copy, Debug)]
pub enum FilterType {
    Bassboost,
    Nightcore,
    Vaporwave,
    EightD,
    Studio,
    Tremolo,
    Vibrato,
    Clear,
}

/// The option value of each filter.
pub open spec fn filter_value(f: FilterType) -> Seq<char> {
    match f {
        FilterType::Bassboost => "bassboost"@,
        FilterType::Nightcore => "nightcore"@,
        FilterType::Vaporwave => "vaporwave"@,
        FilterType::EightD => "8d"@,
        FilterType::Studio => "studio"@,
        FilterType::Tremolo => "tremolo"@,
        FilterType::Vibrato => "vibrato"@,
        FilterType::Clear => "clear"@,
    }
}

impl FilterType {
    /// The option value of the filter.
    pub fn as_str(&self) -> (r: &'static str)
        ensures
            r@ == filter_value(*self),
    {
        match self {
            FilterType::Bassboost => "bassboost",
            FilterType::Nightcore => "nightcore",
            FilterType::Vaporwave => "vaporwave",
            FilterType::EightD => "8d",
            FilterType::Studio => "studio",
            FilterType::Tremolo => "tremolo",
            FilterType::Vibrato => "vibrato",
            FilterType::Clear => "clear",
        }
    }
}

/// Arguments of `/stop`.
pub struct StopCommand {}

/// Arguments of `/skip`.
pub struct SkipCommand {}

/// Arguments of `/pause`.
pub struct PauseCommand {}

/// Arguments of `/resume`.
pub struct ResumeCommand {}

/// Arguments of `/volume`.
pub struct VolumeCommand {
    pub level: i64,
}

/// Arguments of `/filter`.
pub struct FilterCommand {
    pub filter_type: FilterType,
}

/// Arguments of `/queue`.
pub struct QueueCommand {}

/// The playback controls that are forwarded to the audio node as they are.
#[derive(PartialEq, Eq, Structural, Clone, Copy, Debug)]
pub enum ControlAction {
    Stop,
    Skip,
    Pause,
    Resume,
}

/// The confirmation shown for each playback control.
pub open spec fn control_text(a: ControlAction) -> Seq<char> {
    match a {
        ControlAction::Stop => "⏹️ Stopped playback."@,
        ControlAction::Skip => "⏭️ Skipped the current track."@,
        ControlAction::Pause => "⏸️ Paused playback."@,
        ControlAction::Resume => "▶️ Resumed playback."@,
    }
}

/// The request that a playback control sends for a guild.
pub open spec fn control_request_spec(a: ControlAction, guild: Seq<char>, r: MusicCommand) -> bool {
    match a {
        ControlAction::Stop => r matches MusicCommand::Stop { guild_id } && guild_id@ == guild,
        ControlAction::Skip => r matches MusicCommand::Skip { guild_id } && guild_id@ == guild,
        ControlAction::Pause => r matches MusicCommand::Pause { guild_id } && guild_id@ == guild,
        ControlAction::Resume => r matches MusicCommand::Resume { guild_id } && guild_id@ == guild,
    }
}

/// The audio-node request and the confirmation of a playback control
/// (`/stop`, `/skip`, `/pause`, `/resume` and their prefix forms).
pub fn control_request(action: ControlAction, guild_id: u64) -> (r: (MusicCommand, EmbedReply))
    ensures
        control_request_spec(action, dec(guild_id as nat), r.0),
        r.1.description@ == control_text(action),
        !r.1.is_error,
{
    let g = u64_to_string(guild_id);
    match action {
        ControlAction::Stop => (
            MusicCommand::Stop { guild_id: g },
            EmbedReply { description: String::from_str("⏹️ Stopped playback."), is_error: false },
        ),
        ControlAction::Skip => (
            MusicCommand::Skip { guild_id: g },
            EmbedReply { description: String::from_str("⏭️ Skipped the current track."), is_error: false },
        ),
        ControlAction::Pause => (
            MusicCommand::Pause { guild_id: g },
            EmbedReply { description: String::from_str("⏸️ Paused playback."), is_error: false },
        ),
        ControlAction::Resume => (
            MusicCommand::Resume { guild_id: g },
            EmbedReply { description: String::from_str("▶️ Resumed playback."), is_error: false },
        ),
    }
}

/// The answer to `/volume` and its prefix form: volume changes are not carried
/// to the audio node, so nothing is sent and the reply says so.
pub fn volume_reply() -> (r: EmbedReply)
    ensures
        r.description@ == "🔊 Volume control over IPC is not yet supported."@,
        r.is_error,
{
    EmbedReply {
        description: String::from_str("🔊 Volume control over IPC is not yet supported."),
        is_error: true,
    }
}

/// The confirmation of `/filter`.
pub open spec fn filter_text(f: FilterType) -> Seq<char> {
    if f == FilterType::Clear {
        "🧹 Cleared all audio filters."@
    } else {
        "🎛️ Applied **"@ + filter_value(f) + "** filter."@
    }
}

/// The audio-node request and the confirmation of `/filter`.
pub fn filter_request(cmd: &FilterCommand, guild_id: u64) -> (r: (MusicCommand, EmbedReply))
    ensures
        r.0 matches MusicCommand::Filter { guild_id: g, filter_type }
            && g@ == dec(guild_id as nat) && filter_type@ == filter_value(cmd.filter_type),
        r.1.description@ == filter_text(cmd.filter_type),
        !r.1.is_error,
{
    let name = cmd.filter_type.as_str();
    let mut description: String;
    if str_equals(name, "clear") {
        description = String::from_str("🧹 Cleared all audio filters.");
        proof {
            reveal_strlit("clear");
            reveal_strlit("bassboost");
            reveal_strlit("nightcore");
            reveal_strlit("vaporwave");
            reveal_strlit("8d");
            reveal_strlit("studio");
            reveal_strlit("tremolo");
            reveal_strlit("vibrato");
            assert(cmd.filter_type == FilterType::Clear) by {
                if cmd.filter_type != FilterType::Clear {
                    assert(filter_value(cmd.filter_type) != "clear"@) by {
                        let v = filter_value(cmd.filter_type);
                        assert(v.len() != 5 || v[0] != 'c');
                    }
                }
            }
        }
    } else {
        description = String::from_str("🎛️ Applied **");
        description.append(name);
        description.append("** filter.");
    }
    let request = MusicCommand::Filter {
        guild_id: u64_to_string(guild_id),
        filter_type: String::from_str(name),
    };
    (request, EmbedReply { description, is_error: false })
}


/// Why a search query or URL is refused before anything is sent.
#[derive(PartialEq, Eq, Structural, Clone, Copy, Debug)]
pub enum PlayQueryError {
    Empty,
    TooLong,
    InvalidUrl,
    LocalUrl,
}

/// The check on a query for `/play` and its prefix form: it must not be empty,
/// must be at most 500 bytes long, and a text that starts with `http` must be
/// an `http://` or `https://` URL that names no local host.
pub open spec fn play_query_check(q: Seq<char>) -> Option<PlayQueryError> {
    if q.len() == 0 {
        Some(PlayQueryError::Empty)
    } else if encode_utf8(q).len() > 500 {
        Some(PlayQueryError::TooLong)
    } else if starts_with(q, "http"@) {
        if !starts_with(q, "https://"@) && !starts_with(q, "http://"@) {
            Some(PlayQueryError::InvalidUrl)
        } else if contains(q, "localhost"@) || contains(q, "127.0.0.1"@) || contains(q, "0.0.0.0"@) {
            Some(PlayQueryError::LocalUrl)
        } else {
            None
        }
    } else {
        None
    }
}

/// The reply for each refused query.
pub open spec fn play_query_error_text(e: PlayQueryError) -> Seq<char> {
    match e {
        PlayQueryError::Empty => "❌ Please provide a search query or URL."@,
        PlayQueryError::TooLong => "❌ Query too long! Maximum 500 characters."@,
        PlayQueryError::InvalidUrl => "❌ Invalid URL format!"@,
        PlayQueryError::LocalUrl => "❌ Cannot play from local URLs!"@,
    }
}

impl PlayQueryError {
    /// The reply that tells the user why the query was refused.
    pub fn reply(&self) -> (r: EmbedReply)
        ensures
            r.description@ == play_query_error_text(*self),
            r.is_error,
    {
        let text = match self {
            PlayQueryError::Empty => "❌ Please provide a search query or URL.",
            PlayQueryError::TooLong => "❌ Query too long! Maximum 500 characters.",
            PlayQueryError::InvalidUrl => "❌ Invalid URL format!",
            PlayQueryError::LocalUrl => "❌ Cannot play from local URLs!",
        };
        EmbedReply { description: String::from_str(text), is_error: true }
    }
}

/// Checks a query for `/play`.
pub fn check_play_query(query: &str) -> (r: Option<PlayQueryError>)
    requires
        encode_utf8(query@).len() <= usize::MAX,
    ensures
        r == play_query_check(query@),
{
    if query.unicode_len() == 0 {
        return Some(PlayQueryError::Empty);
    }
    if query.len() > 500 {
        return Some(PlayQueryError::TooLong);
    }
    if str_starts_with(query, "http") {
        if !str_starts_with(query, "https://") && !str_starts_with(query, "http://") {
            return Some(PlayQueryError::InvalidUrl);
        }
        if str_contains(query, "localhost") || str_contains(query, "127.0.0.1") || str_contains(query, "0.0.0.0") {
            return Some(PlayQueryError::LocalUrl);
        }
    }
    None
}

/// The reply when the user who asked for a track is in no voice channel.
pub fn not_in_voice_reply() -> (r: EmbedReply)
    ensures
        r.description@ == "❌ You must be in a voice channel!"@,
        r.is_error,
{
    EmbedReply { description: String::from_str("❌ You must be in a voice channel!"), is_error: true }
}

/// The reply when the audio node does not answer a play request in time.
pub fn play_timeout_reply() -> (r: EmbedReply)
    ensures
        r.description@ == "❌ Timeout waiting for audio node."@,
        r.is_error,
{
    EmbedReply { description: String::from_str("❌ Timeout waiting for audio node."), is_error: true }
}

/// The reply when the audio node does not answer a queue request in time: the
/// slash command and the prefix form word it differently.
pub fn queue_timeout_reply(prefix_form: bool) -> (r: EmbedReply)
    ensures
        r.description@ == if prefix_form { "❌ Timeout waiting for queue."@ } else { "❌ Timeout waiting for queue data."@ },
        r.is_error,
{
    let text = if prefix_form { "❌ Timeout waiting for queue." } else { "❌ Timeout waiting for queue data." };
    EmbedReply { description: String::from_str(text), is_error: true }
}

/// What the audio node is asked to load: a URL as it is, anything else as a
/// YouTube search.
pub open spec fn search_query(q: Seq<char>) -> Seq<char> {
    if starts_with(q, "http"@) {
        q
    } else {
        "ytsearch:"@ + q
    }
}

/// The audio-node request of `/play` and its prefix form, once the query has
/// passed its check and the user's voice channel is known; the request carries
/// a fresh identifier that the answer will quote.
pub fn play_request(query: &str, guild_id: u64, channel_id: &str, text_channel_id: Option<u64>) -> (r: MusicCommand)
    ensures
        r matches MusicCommand::Play { req_id: rq, guild_id: g, channel_id: c, text_channel_id: t, query: q }
            && is_hyphenated_uuid(rq@) && g@ == dec(guild_id as nat) && c@ == channel_id@
            && q@ == search_query(query@)
            && (t is Some <==> text_channel_id is Some)
            && (t is Some ==> t->0@ == dec(text_channel_id->0 as nat)),
{
    let q = if str_starts_with(query, "http") {
        String::from_str(query)
    } else {
        let mut s = String::from_str("ytsearch:");
        s.append(query);
        s
    };
    let t = match text_channel_id {
        Some(id) => Some(u64_to_string(id)),
        None => None,
    };
    MusicCommand::Play {
        req_id: random_uuid(),
        guild_id: u64_to_string(guild_id),
        channel_id: String::from_str(channel_id),
        text_channel_id: t,
        query: q,
    }
}

/// A duration in milliseconds as `MM:SS`, or `HH:MM:SS` from an hour up.
pub open spec fn duration_text(ms: nat) -> Seq<char> {
    let seconds = ms / 1000;
    let minutes = seconds / 60;
    if minutes >= 60 {
        pad2(minutes / 60) + seq![':'] + pad2(minutes % 60) + seq![':'] + pad2(seconds % 60)
    } else {
        pad2(minutes) + seq![':'] + pad2(seconds % 60)
    }
}

/// Formats a track length.
pub fn format_duration(ms: u64) -> (r: String)
    ensures
        r@ == duration_text(ms as nat),
{
    let seconds = ms / 1000;
    let minutes = seconds / 60;
    let secs = seconds % 60;
    let mut r = String::new();
    if minutes >= 60 {
        push_pad2(&mut r, minutes / 60);
        r.push(':');
        push_pad2(&mut r, minutes % 60);
        r.push(':');
        push_pad2(&mut r, secs);
    } else {
        push_pad2(&mut r, minutes);
        r.push(':');
        push_pad2(&mut r, secs);
    }
    assert(r@ =~= duration_text(ms as nat));
    r
}

/// The filter settings, as the player's JSON, that a filter name stands for on
/// the audio node; names without settings are refused there.
pub open spec fn filter_settings(name: Seq<char>) -> Option<Seq<char>> {
    if name == "bassboost"@ {
        Some("{\"equalizer\":[{\"band\":0,\"gain\":0.2},{\"band\":1,\"gain\":0.15},{\"band\":2,\"gain\":0.1}]}"@)
    } else if name == "nightcore"@ {
        Some("{\"timescale\":{\"speed\":1.3,\"pitch\":1.3,\"rate\":1.0}}"@)
    } else if name == "vaporwave"@ {
        Some("{\"timescale\":{\"speed\":0.8,\"pitch\":0.8,\"rate\":1.0}}"@)
    } else if name == "8d"@ {
        Some("{\"rotation\":{\"rotationHz\":0.2}}"@)
    } else if name == "tremolo"@ {
        Some("{\"tremolo\":{\"frequency\":2.0,\"depth\":0.5}}"@)
    } else if name == "vibrato"@ {
        Some("{\"vibrato\":{\"frequency\":2.0,\"depth\":0.5}}"@)
    } else if name == "clear"@ {
        Some("{}"@)
    } else {
        None
    }
}

/// The filter settings that the audio node applies for a filter request.
pub fn filter_payload(name: &str) -> (r: Option<&'static str>)
    ensures
        match r {
            Some(p) => filter_settings(name@) == Some(p@),
            None => filter_settings(name@) is None,
        },
{
    if str_equals(name, "bassboost") {
        Some("{\"equalizer\":[{\"band\":0,\"gain\":0.2},{\"band\":1,\"gain\":0.15},{\"band\":2,\"gain\":0.1}]}")
    } else if str_equals(name, "nightcore") {
        Some("{\"timescale\":{\"speed\":1.3,\"pitch\":1.3,\"rate\":1.0}}")
    } else if str_equals(name, "vaporwave") {
        Some("{\"timescale\":{\"speed\":0.8,\"pitch\":0.8,\"rate\":1.0}}")
    } else if str_equals(name, "8d") {
        Some("{\"rotation\":{\"rotationHz\":0.2}}")
    } else if str_equals(name, "tremolo") {
        Some("{\"tremolo\":{\"frequency\":2.0,\"depth\":0.5}}")
    } else if str_equals(name, "vibrato") {
        Some("{\"vibrato\":{\"frequency\":2.0,\"depth\":0.5}}")
    } else if str_equals(name, "clear") {
        Some("{}")
    } else {
        None
    }
}


/// The filter names that the prefix `filter` command accepts (lowercased).
pub open spec fn is_prefix_filter_name(n: Seq<char>) -> bool {
    n == "nightcore"@ || n == "bassboost"@ || n == "vaporwave"@ || n == "8d"@ || n == "karaoke"@
        || n == "tremolo"@ || n == "vibrato"@ || n == "pop"@ || n == "soft"@ || n == "treblebass"@
        || n == "echo"@ || n == "chorus"@ || n == "flanger"@ || n == "gate"@ || n == "haas"@
        || n == "phaser"@ || n == "compressor"@ || n == "expander"@ || n == "lowpass"@
        || n == "highpass"@ || n == "none"@ || n == "clear"@ || n == "reset"@ || n == ""@
}

/// Whether the prefix `filter` command accepts a (lowercased) filter name.
pub fn prefix_filter_known(n: &str) -> (r: bool)
    ensures
        r == is_prefix_filter_name(n@),
{
    str_equals(n, "nightcore") || str_equals(n, "bassboost") || str_equals(n, "vaporwave")
        || str_equals(n, "8d") || str_equals(n, "karaoke") || str_equals(n, "tremolo")
        || str_equals(n, "vibrato") || str_equals(n, "pop") || str_equals(n, "soft")
        || str_equals(n, "treblebass") || str_equals(n, "echo") || str_equals(n, "chorus")
        || str_equals(n, "flanger") || str_equals(n, "gate") || str_equals(n, "haas")
        || str_equals(n, "phaser") || str_equals(n, "compressor") || str_equals(n, "expander")
        || str_equals(n, "lowpass") || str_equals(n, "highpass") || str_equals(n, "none")
        || str_equals(n, "clear") || str_equals(n, "reset") || str_equals(n, "")
}

/// What the prefix `filter` command does.
pub enum PrefixFilterOutcome {
    /// The filter is not known: only the reply is shown.
    Unknown { reply: EmbedReply },
    /// The request goes to the audio node and the reply is shown.
    Apply { request: MusicCommand, reply: EmbedReply },
}

/// The confirmation of the prefix `filter` command for the filter as typed.
pub open spec fn prefix_filter_text(filter: Seq<char>) -> Seq<char> {
    if filter.len() == 0 || filter == "none"@ {
        "🎛️ Cleared all audio filters"@
    } else {
        "🎛️ Applied filter: **"@ + filter + "**"@
    }
}

/// The prefix `filter` command: the arguments joined by spaces name the filter,
/// which is checked and sent lowercased; the confirmation repeats it as typed.
pub fn prefix_filter(args: &Vec<String>, guild_id: u64) -> (r: PrefixFilterOutcome)
    ensures
        ({
            let filter = join(views(args@), " "@);
            let lower = lowercase(filter);
            if is_prefix_filter_name(lower) {
                r matches PrefixFilterOutcome::Apply { request, reply }
                    && request matches MusicCommand::Filter { guild_id: g, filter_type }
                    && g@ == dec(guild_id as nat) && filter_type@ == lower
                    && reply.description@ == prefix_filter_text(filter) && !reply.is_error
            } else {
                r matches PrefixFilterOutcome::Unknown { reply }
                    && reply.description@ == "❌ Unknown filter!"@ && reply.is_error
            }
        }),
{
    let filter = join_strings(args, " ");
    let lower = str_to_lowercase(filter.as_str());
    if !prefix_filter_known(lower.as_str()) {
        return PrefixFilterOutcome::Unknown {
            reply: EmbedReply { description: String::from_str("❌ Unknown filter!"), is_error: true },
        };
    }
    let text = if filter.as_str().unicode_len() == 0 || str_equals(filter.as_str(), "none") {
        String::from_str("🎛️ Cleared all audio filters")
    } else {
        let mut t = String::from_str("🎛️ Applied filter: **");
        t.append(filter.as_str());
        t.append("**");
        t
    };
    PrefixFilterOutcome::Apply {
        request: MusicCommand::Filter { guild_id: u64_to_string(guild_id), filter_type: lower },
        reply: EmbedReply { description: text, is_error: false },
    }
}

/// A track as the audio node describes it.
pub struct TrackInfo {
    pub title: String,
    pub author: String,
    pub uri: Option<String>,
    pub length: u64,
    pub artwork_url: Option<String>,
}

/// What the audio node found for a query.
pub enum LoadOutcome {
    /// Nothing was found.
    Empty,
    /// A single track (a URL).
    Track(TrackInfo),
    /// Search results, best first.
    Search(Vec<TrackInfo>),
    /// A playlist.
    Playlist(Vec<TrackInfo>),
    /// Loading failed; the error message as the node reports it, in debug form.
    Error(String),
}

/// An answer of the audio node to a request.
pub enum MusicResponse {
    PlayResult { req_id: String, result: LoadOutcome },
    QueueResult { req_id: String, tracks: Vec<TrackInfo>, current: Option<TrackInfo> },
    Error { req_id: String, message: String },
}

/// The reply to a play request, with the picture of the track if it has one.
pub struct PlayReply {
    pub reply: EmbedReply,
    pub thumbnail: Option<String>,
}

/// The confirmation that a track was queued.
pub open spec fn added_text(t: TrackInfo) -> Seq<char> {
    "✅ Added to queue: **"@ + t.title@ + "**"@
}

/// The reply to what the audio node loaded; none for an empty search result.
pub open spec fn load_reply_spec(result: LoadOutcome, r: Option<PlayReply>) -> bool {
    match result {
        LoadOutcome::Empty => r matches Some(p)
            && p.reply.description@ == "❌ No results found."@ && p.reply.is_error && p.thumbnail is None,
        LoadOutcome::Track(t) => r matches Some(p)
            && p.reply.description@ == added_text(t) && !p.reply.is_error && p.thumbnail == t.artwork_url,
        LoadOutcome::Search(ts) => if ts@.len() == 0 {
            r is None
        } else {
            r matches Some(p) && p.reply.description@ == added_text(ts@[0]) && !p.reply.is_error
                && p.thumbnail == ts@[0].artwork_url
        },
        LoadOutcome::Playlist(ts) => r matches Some(p)
            && p.reply.description@ == "📃 Added **"@ + dec(ts@.len()) + "** tracks from playlist"@
            && !p.reply.is_error && p.thumbnail is None,
        LoadOutcome::Error(m) => r matches Some(p)
            && p.reply.description@ == "❌ Error loading track: "@ + m@ && p.reply.is_error
            && p.thumbnail is None,
    }
}

fn clone_option_string(o: &Option<String>) -> (r: Option<String>)
    ensures
        r == *o,
{
    match o {
        Some(s) => Some(s.clone()),
        None => None,
    }
}

fn added_reply(t: &TrackInfo) -> (r: PlayReply)
    ensures
        r.reply.description@ == added_text(*t),
        !r.reply.is_error,
        r.thumbnail == t.artwork_url,
{
    let mut d = String::from_str("✅ Added to queue: **");
    d.append(t.title.as_str());
    d.append("**");
    PlayReply { reply: EmbedReply { description: d, is_error: false }, thumbnail: clone_option_string(&t.artwork_url) }
}

/// The reply to what the audio node loaded for `/play` and its prefix form.
pub fn load_reply(result: &LoadOutcome) -> (r: Option<PlayReply>)
    requires
        result matches LoadOutcome::Playlist(ts) ==> ts@.len() <= u64::MAX,
    ensures
        load_reply_spec(*result, r),
{
    match result {
        LoadOutcome::Empty => Some(PlayReply {
            reply: EmbedReply { description: String::from_str("❌ No results found."), is_error: true },
            thumbnail: None,
        }),
        LoadOutcome::Track(t) => Some(added_reply(t)),
        LoadOutcome::Search(ts) => {
            if ts.len() == 0 {
                None
            } else {
                Some(added_reply(&ts[0]))
            }
        },
        LoadOutcome::Playlist(ts) => {
            let mut d = String::from_str("📃 Added **");
            push_dec(&mut d, ts.len() as u64);
            d.append("** tracks from playlist");
            Some(PlayReply { reply: EmbedReply { description: d, is_error: false }, thumbnail: None })
        },
        LoadOutcome::Error(m) => {
            let mut d = String::from_str("❌ Error loading track: ");
            d.append(m.as_str());
            Some(PlayReply { reply: EmbedReply { description: d, is_error: true }, thumbnail: None })
        },
    }
}

/// The reply to the audio node's answer to a play request.
pub fn play_response_reply(resp: &MusicResponse) -> (r: Option<PlayReply>)
    requires
        resp matches MusicResponse::PlayResult { result, .. } ==> (result matches LoadOutcome::Playlist(ts) ==> ts@.len() <= u64::MAX),
    ensures
        match *resp {
            MusicResponse::PlayResult { result, .. } => load_reply_spec(result, r),
            MusicResponse::Error { message, .. } => r matches Some(p)
                && p.reply.description@ == "❌ Search failed: "@ + message@ && p.reply.is_error && p.thumbnail is None,
            MusicResponse::QueueResult { .. } => r matches Some(p)
                && p.reply.description@ == "❌ Invalid response from audio node."@ && p.reply.is_error
                && p.thumbnail is None,
        },
{
    match resp {
        MusicResponse::PlayResult { result, .. } => load_reply(result),
        MusicResponse::Error { message, .. } => {
            let mut d = String::from_str("❌ Search failed: ");
            d.append(message.as_str());
            Some(PlayReply { reply: EmbedReply { description: d, is_error: true }, thumbnail: None })
        },
        MusicResponse::QueueResult { .. } => Some(PlayReply {
            reply: EmbedReply { description: String::from_str("❌ Invalid response from audio node."), is_error: true },
            thumbnail: None,
        }),
    }
}


/// The link of a track, empty when it has none.
pub open spec fn uri_text(t: TrackInfo) -> Seq<char> {
    match t.uri {
        Some(u) => u@,
        None => Seq::<char>::empty(),
    }
}

/// The "now playing" block of `/queue`.
pub open spec fn now_playing_block(t: TrackInfo) -> Seq<char> {
    "**🎵 Now Playing:**\n["@ + t.title@ + "]("@ + uri_text(t) + ") | `"@ + duration_text(t.length as nat) + "`\n\n"@
}

/// Line `i` (from zero) of the upcoming tracks in `/queue`.
pub open spec fn up_next_line(i: nat, t: TrackInfo) -> Seq<char> {
    "`"@ + dec(i + 1) + ".` ["@ + t.title@ + "]("@ + uri_text(t) + ") | `"@ + duration_text(t.length as nat) + "`\n"@
}

/// The first `k` lines of the upcoming tracks in `/queue`.
pub open spec fn up_next_lines(ts: Seq<TrackInfo>, k: nat) -> Seq<char>
    decreases k,
{
    if k == 0 || k > ts.len() {
        Seq::<char>::empty()
    } else {
        up_next_lines(ts, (k - 1) as nat) + up_next_line((k - 1) as nat, ts[k - 1])
    }
}

/// The total length of the tracks.
pub open spec fn total_length(ts: Seq<TrackInfo>) -> nat
    decreases ts.len(),
{
    if ts.len() == 0 {
        0
    } else {
        total_length(ts.drop_last()) + ts.last().length as nat
    }
}

/// The length of the current track, or zero.
pub open spec fn current_length(c: Option<TrackInfo>) -> nat {
    match c {
        Some(t) => t.length as nat,
        None => 0,
    }
}

/// The smaller of two numbers.
pub open spec fn min_nat(a: nat, b: nat) -> nat {
    if a <= b { a } else { b }
}

/// The body of `/queue`: the current track (or that nothing plays), then up to
/// ten upcoming tracks and how many more follow.
pub open spec fn queue_description(current: Option<TrackInfo>, ts: Seq<TrackInfo>) -> Seq<char> {
    let head = match current {
        Some(t) => now_playing_block(t),
        None => "**🔇 Not playing anything.**\n\n"@,
    };
    if ts.len() > 0 {
        head + "**Up Next ("@ + dec(ts.len()) + " tracks):**\n"@ + up_next_lines(ts, min_nat(10, ts.len()))
            + if ts.len() > 10 { "\n*...and "@ + dec((ts.len() - 10) as nat) + " more tracks*"@ } else { Seq::<char>::empty() }
    } else {
        head + "📭 The queue is empty."@
    }
}

/// What `/queue` shows.
pub enum QueueView {
    /// Nothing plays and nothing is queued.
    NoPlayer { reply: EmbedReply },
    /// The queue, with its total length in the footer.
    Listing { description: String, footer: String },
}

proof fn lemma_total_length_push(ts: Seq<TrackInfo>, k: int)
    requires
        0 <= k < ts.len(),
    ensures
        total_length(ts.take(k + 1)) == total_length(ts.take(k)) + ts[k].length,
{
    assert(ts.take(k + 1).drop_last() =~= ts.take(k));
}

/// The view of `/queue` for the audio node's answer: the current track and the
/// tracks that follow it.
#[verifier::rlimit(40)]
pub fn queue_view(current: &Option<TrackInfo>, tracks: &Vec<TrackInfo>) -> (r: QueueView)
    requires
        current_length(*current) + total_length(tracks@) <= u64::MAX,
        tracks@.len() <= u64::MAX,
    ensures
        (current is None && tracks@.len() == 0) ==> (r matches QueueView::NoPlayer { reply }
            && reply.description@ == "❌ No active player in this server."@ && reply.is_error),
        !(current is None && tracks@.len() == 0) ==> (r matches QueueView::Listing { description, footer }
            && description@ == queue_description(*current, tracks@)
            && footer@ == "Total Queue Duration: "@ + duration_text(current_length(*current) + total_length(tracks@))),
{
    let size = tracks.len();
    let mut total: u64 = 0;
    let mut description = String::new();
    match current {
        Some(t) => {
            description.append("**🎵 Now Playing:**\n[");
            description.append(t.title.as_str());
            description.append("](");
            match &t.uri {
                Some(u) => description.append(u.as_str()),
                None => {},
            }
            description.append(") | `");
            let d = format_duration(t.length);
            description.append(d.as_str());
            description.append("`\n\n");
            total = t.length;
            proof {
                reveal_strlit("");
            }
        },
        None => {
            description.append("**🔇 Not playing anything.**\n\n");
        },
    }
    let ghost head = description@;
    if size == 0 {
        if current.is_none() {
            return QueueView::NoPlayer {
                reply: EmbedReply { description: String::from_str("❌ No active player in this server."), is_error: true },
            };
        }
        description.append("📭 The queue is empty.");
    } else {
        description.append("**Up Next (");
        push_dec(&mut description, size as u64);
        description.append(" tracks):**\n");
        let ghost intro = description@;
        let limit: usize = if size < 10 { size } else { 10 };
        let mut i: usize = 0;
        proof {
            assert(tracks@.take(0) =~= Seq::<TrackInfo>::empty());
        }
        while i < limit
            invariant
                size == tracks@.len(),
                limit == min_nat(10, size as nat),
                i <= limit,
                description@ == intro + up_next_lines(tracks@, i as nat),
                total == current_length(*current) + total_length(tracks@.take(i as int)),
                current_length(*current) + total_length(tracks@) <= u64::MAX,
                size <= u64::MAX,
            decreases limit - i,
        {
            let t = &tracks[i];
            description.append("`");
            push_dec(&mut description, (i + 1) as u64);
            description.append(".` [");
            description.append(t.title.as_str());
            description.append("](");
            match &t.uri {
                Some(u) => description.append(u.as_str()),
                None => {},
            }
            description.append(") | `");
            let d = format_duration(t.length);
            description.append(d.as_str());
            description.append("`\n");
            proof {
                lemma_total_length_push(tracks@, i as int);
                lemma_total_length_prefix(tracks@, i + 1);
            }
            total = total + t.length;
            proof {
                reveal_strlit("");
                assert(description@ =~= intro + up_next_lines(tracks@, (i + 1) as nat));
            }
            i = i + 1;
        }
        if size > 10 {
            description.append("\n*...and ");
            push_dec(&mut description, (size - 10) as u64);
            description.append(" more tracks*");
            while i < size
                invariant
                    size == tracks@.len(),
                    i <= size,
                    total == current_length(*current) + total_length(tracks@.take(i as int)),
                    current_length(*current) + total_length(tracks@) <= u64::MAX,
                decreases size - i,
            {
                proof {
                    lemma_total_length_push(tracks@, i as int);
                    lemma_total_length_prefix(tracks@, i + 1);
                }
                total = total + tracks[i].length;
                i = i + 1;
            }
        }
        proof {
            assert(tracks@.take(size as int) =~= tracks@);
        }
    }
    assert(description@ =~= queue_description(*current, tracks@));
    let mut footer = String::from_str("Total Queue Duration: ");
    let d = format_duration(total);
    footer.append(d.as_str());
    QueueView::Listing { description, footer }
}

proof fn lemma_total_length_prefix(ts: Seq<TrackInfo>, k: int)
    requires
        0 <= k <= ts.len(),
    ensures
        total_length(ts.take(k)) <= total_length(ts),
    decreases ts.len() - k,
{
    if k < ts.len() {
        lemma_total_length_prefix(ts, k + 1);
        lemma_total_length_push(ts, k);
    } else {
        assert(ts.take(k) =~= ts);
    }
}


/// A title as the prefix `queue` command lists it: titles longer than fifty
/// bytes keep their first forty-seven bytes and end in `...`.
pub open spec fn short_title(t: Seq<char>) -> Seq<char> {
    if encode_utf8(t).len() > 50 {
        decode_utf8(encode_utf8(t).subrange(0, 47)) + "..."@
    } else {
        t
    }
}

/// A title can be listed: it fits in memory and, when it is shortened, the
/// forty-seventh byte ends a character.
pub open spec fn listable_title(t: Seq<char>) -> bool {
    encode_utf8(t).len() <= usize::MAX && (encode_utf8(t).len() > 50 ==> is_char_boundary(encode_utf8(t), 47))
}

/// Line `i` (from zero) of the prefix `queue` command.
pub open spec fn prefix_queue_line(i: nat, t: TrackInfo) -> Seq<char> {
    "`"@ + dec(i + 1) + ".` **"@ + short_title(t.title@) + "** `["@ + pad2((t.length / 60000) as nat)
        + seq![':'] + pad2(((t.length / 1000) % 60) as nat) + "]`\n"@
}

/// The first `k` lines of the prefix `queue` command.
pub open spec fn prefix_queue_lines(ts: Seq<TrackInfo>, k: nat) -> Seq<char>
    decreases k,
{
    if k == 0 || k > ts.len() {
        Seq::<char>::empty()
    } else {
        prefix_queue_lines(ts, (k - 1) as nat) + prefix_queue_line((k - 1) as nat, ts[k - 1])
    }
}

/// The body of the prefix `queue` command for a non-empty queue.
pub open spec fn prefix_queue_text(ts: Seq<TrackInfo>) -> Seq<char> {
    prefix_queue_lines(ts, min_nat(10, ts.len()))
        + if ts.len() > 10 { "\n*...and "@ + dec((ts.len() - 10) as nat) + " more tracks*"@ } else { Seq::<char>::empty() }
}

fn push_short_title(s: &mut String, title: &String)
    requires
        listable_title(title@),
    ensures
        final(s)@ == old(s)@ + short_title(title@),
{
    let t = title.as_str();
    if t.len() > 50 {
        let (head, _tail) = t.split_at(47);
        proof {
            broadcast use vstd::utf8::encode_utf8_decode_utf8;
            assert(decode_utf8(encode_utf8(head@)) == head@);
        }
        s.append(head);
        s.append("...");
    } else {
        s.append(t);
    }
}

fn push_prefix_queue_line(content: &mut String, i: u64, t: &TrackInfo)
    requires
        i < u64::MAX,
        listable_title(t.title@),
    ensures
        final(content)@ == old(content)@ + prefix_queue_line(i as nat, *t),
{
    content.append("`");
    push_dec(content, i + 1);
    content.append(".` **");
    push_short_title(content, &t.title);
    content.append("** `[");
    push_pad2(content, t.length / 60000);
    content.push(':');
    push_pad2(content, (t.length / 1000) % 60);
    content.append("]`\n");
    assert(content@ =~= old(content)@ + prefix_queue_line(i as nat, *t));
}

/// What the prefix `queue` command shows.
pub struct QueueListing {
    pub title: Option<String>,
    pub reply: EmbedReply,
}

/// The reply of the prefix `queue` command to the audio node's answer.
pub fn prefix_queue_reply(resp: &MusicResponse) -> (r: QueueListing)
    requires
        resp matches MusicResponse::QueueResult { tracks, .. } ==> (tracks@.len() <= u64::MAX
            && forall|i: int| 0 <= i < tracks@.len() && i < 10 ==> listable_title(#[trigger] tracks@[i].title@)),
    ensures
        match *resp {
            MusicResponse::QueueResult { tracks, .. } => if tracks@.len() == 0 {
                r.title is None && r.reply.description@ == "📭 The queue is currently empty."@ && !r.reply.is_error
            } else {
                r.title matches Some(t) && t@ == "🎶 Current Queue"@
                    && r.reply.description@ == prefix_queue_text(tracks@) && !r.reply.is_error
            },
            MusicResponse::Error { message, .. } => r.title is None
                && r.reply.description@ == "❌ Could not fetch queue: "@ + message@ && r.reply.is_error,
            MusicResponse::PlayResult { .. } => r.title is None
                && r.reply.description@ == "❌ Invalid response from audio node."@ && r.reply.is_error,
        },
{
    match resp {
        MusicResponse::QueueResult { tracks, .. } => {
            let size = tracks.len();
            if size == 0 {
                return QueueListing {
                    title: None,
                    reply: EmbedReply { description: String::from_str("📭 The queue is currently empty."), is_error: false },
                };
            }
            let mut content = String::new();
            let limit: usize = if size < 10 { size } else { 10 };
            let mut i: usize = 0;
            while i < limit
                invariant
                    size == tracks@.len(),
                    limit == min_nat(10, size as nat),
                    i <= limit,
                    content@ == prefix_queue_lines(tracks@, i as nat),
                    size <= u64::MAX,
                    forall|j: int| 0 <= j < tracks@.len() && j < 10 ==> listable_title(#[trigger] tracks@[j].title@),
                decreases limit - i,
            {
                push_prefix_queue_line(&mut content, i as u64, &tracks[i]);
                assert(content@ =~= prefix_queue_lines(tracks@, (i + 1) as nat));
                i = i + 1;
            }
            if size > 10 {
                content.append("\n*...and ");
                push_dec(&mut content, (size - 10) as u64);
                content.append(" more tracks*");
            }
            assert(content@ =~= prefix_queue_text(tracks@));
            QueueListing {
                title: Some(String::from_str("🎶 Current Queue")),
                reply: EmbedReply { description: content, is_error: false },
            }
        },
        MusicResponse::Error { message, .. } => {
            let mut d = String::from_str("❌ Could not fetch queue: ");
            d.append(message.as_str());
            QueueListing { title: None, reply: EmbedReply { description: d, is_error: true } }
        },
        MusicResponse::PlayResult { .. } => QueueListing {
            title: None,
            reply: EmbedReply { description: String::from_str("❌ Invalid response from audio node."), is_error: true },
        },
    }
}


/// The channel that requests to the audio node are published on.
pub fn music_request_channel() -> (r: &'static str)
    ensures
        r@ == "harmony:music:requests"@,
{
    "harmony:music:requests"
}

/// The channel that the answer to a request is published on.
pub fn response_channel(req_id: &str) -> (r: String)
    ensures
        r@ == "harmony:music:responses:"@ + req_id@,
{
    let mut r = String::from_str("harmony:music:responses:");
    r.append(req_id);
    r
}

/// The request of `/queue` and its prefix form, with a fresh identifier that
/// the answer will quote.
pub fn queue_request(guild_id: u64) -> (r: MusicCommand)
    ensures
        r matches MusicCommand::Queue { req_id, guild_id: g } && is_hyphenated_uuid(req_id@) && g@ == dec(guild_id as nat),
{
    MusicCommand::Queue { req_id: random_uuid(), guild_id: u64_to_string(guild_id) }
}

/// What the audio node does for a request.
pub enum AudioAction {
    /// Join the voice channel, search, queue what was found, and answer.
    Play { req_id: String, guild_id: String, channel_id: String, text_channel_id: Option<u64>, query: String },
    /// Pause the guild's player.
    Pause { guild_id: String },
    /// Unpause the guild's player.
    Resume { guild_id: String },
    /// Stop the guild's player.
    Stop { guild_id: String },
    /// Skip the current track.
    Skip { guild_id: String },
    /// Answer with the guild's queue.
    Queue { req_id: String, guild_id: String },
    /// Apply filter settings to the guild's player.
    Filter { guild_id: String, settings: &'static str },
    /// A filter with no settings: the request is dropped.
    UnknownFilter { filter_type: String },
}

/// The text channel for now-playing messages, if it is given as a number.
pub open spec fn text_channel_of(t: Option<String>) -> Option<u64> {
    match t {
        Some(s) => match parse_unsigned(s@, 10, 0xffff_ffff_ffff_ffff) {
            Some(v) => Some(v as u64),
            None => None,
        },
        None => None,
    }
}

/// Decides what the audio node does for a request.
pub fn audio_action(cmd: MusicCommand) -> (r: AudioAction)
    ensures
        match cmd {
            MusicCommand::Play { req_id, guild_id, channel_id, text_channel_id, query } => r matches AudioAction::Play {
                req_id: a, guild_id: b, channel_id: c, text_channel_id: t, query: q,
            } && a == req_id && b == guild_id && c == channel_id && q == query && t == text_channel_of(text_channel_id),
            MusicCommand::Pause { guild_id } => r matches AudioAction::Pause { guild_id: g } && g == guild_id,
            MusicCommand::Resume { guild_id } => r matches AudioAction::Resume { guild_id: g } && g == guild_id,
            MusicCommand::Stop { guild_id } => r matches AudioAction::Stop { guild_id: g } && g == guild_id,
            MusicCommand::Skip { guild_id } => r matches AudioAction::Skip { guild_id: g } && g == guild_id,
            MusicCommand::Queue { req_id, guild_id } => r matches AudioAction::Queue { req_id: a, guild_id: g }
                && a == req_id && g == guild_id,
            MusicCommand::Filter { guild_id, filter_type } => match filter_settings(filter_type@) {
                Some(p) => r matches AudioAction::Filter { guild_id: g, settings } && g == guild_id && settings@ == p,
                None => r matches AudioAction::UnknownFilter { filter_type: f } && f == filter_type,
            },
        },
{
    match cmd {
        MusicCommand::Play { req_id, guild_id, channel_id, text_channel_id, query } => {
            let t = match &text_channel_id {
                Some(s) => parse_unsigned_exec(s.as_str(), 10, 0xffff_ffff_ffff_ffff),
                None => None,
            };
            AudioAction::Play { req_id, guild_id, channel_id, text_channel_id: t, query }
        },
        MusicCommand::Pause { guild_id } => AudioAction::Pause { guild_id },
        MusicCommand::Resume { guild_id } => AudioAction::Resume { guild_id },
        MusicCommand::Stop { guild_id } => AudioAction::Stop { guild_id },
        MusicCommand::Skip { guild_id } => AudioAction::Skip { guild_id },
        MusicCommand::Queue { req_id, guild_id } => AudioAction::Queue { req_id, guild_id },
        MusicCommand::Filter { guild_id, filter_type } => match filter_payload(filter_type.as_str()) {
            Some(settings) => AudioAction::Filter { guild_id, settings },
            None => AudioAction::UnknownFilter { filter_type },
        },
    }
}

/// How many of the tracks that a search returned go into the queue, from the
/// front: a single track or the first search result, or a whole playlist.
pub open spec fn enqueue_count_spec(result: LoadOutcome) -> nat {
    match result {
        LoadOutcome::Track(_) => 1,
        LoadOutcome::Search(ts) => if ts@.len() > 0 { 1 } else { 0 },
        LoadOutcome::Playlist(ts) => ts@.len(),
        _ => 0,
    }
}

/// How many of the tracks that a search returned go into the queue.
pub fn enqueue_count(result: &LoadOutcome) -> (r: usize)
    ensures
        r as nat == enqueue_count_spec(*result),
{
    match result {
        LoadOutcome::Track(_) => 1,
        LoadOutcome::Search(ts) => if ts.len() > 0 { 1 } else { 0 },
        LoadOutcome::Playlist(ts) => ts.len(),
        _ => 0,
    }
}

/// Playback starts after a search only when nothing was playing or queued.
pub fn should_start_playback(has_current: bool, queued: usize) -> (r: bool)
    ensures
        r == (!has_current && queued == 0),
{
    !has_current && queued == 0
}

/// A button of the now-playing message, as the stored template gives it.
pub struct TemplateButton {
    pub style: u8,
    pub custom_id: String,
    pub emoji: String,
    pub label: String,
}

/// The now-playing message template kept in Redis.
pub struct NowPlayingTemplate {
    pub description: String,
    pub color: u32,
    pub buttons: Vec<TemplateButton>,
}

/// The template's text with `{title}`, `{url}` and `{author}` filled in, in
/// that order.
pub open spec fn now_playing_text(template: Seq<char>, t: TrackInfo) -> Seq<char> {
    replace_all(replace_all(replace_all(template, "{title}"@, t.title@), "{url}"@, uri_text(t)), "{author}"@, t.author@)
}

/// A now-playing button as rendered from its template.
pub open spec fn rendered_button(b: TemplateButton, r: ButtonSpec) -> bool {
    &&& r.custom_id matches Some(c) && c@ == b.custom_id@
    &&& r.emoji matches Some(e) && e@ == b.emoji@
    &&& r.label@ == b.label@
    &&& r.style == template_style(b.style)
    &&& r.url is None
}

/// The now-playing message for a track: the text and the buttons.
pub fn render_now_playing(template: &NowPlayingTemplate, track: &TrackInfo) -> (r: (String, Vec<ButtonSpec>))
    ensures
        r.0@ == now_playing_text(template.description@, *track),
        r.1@.len() == template.buttons@.len(),
        forall|i: int| 0 <= i < r.1@.len() ==> rendered_button(template.buttons@[i], #[trigger] r.1@[i]),
{
    proof {
        reveal_strlit("{title}");
        reveal_strlit("{url}");
        reveal_strlit("{author}");
    }
    let a = str_replace(template.description.as_str(), "{title}", track.title.as_str());
    let url = match &track.uri {
        Some(u) => u.clone(),
        None => String::new(),
    };
    let b = str_replace(a.as_str(), "{url}", url.as_str());
    let text = str_replace(b.as_str(), "{author}", track.author.as_str());
    let n = template.buttons.len();
    let mut buttons: Vec<ButtonSpec> = Vec::new();
    let mut i: usize = 0;
    while i < n
        invariant
            n == template.buttons@.len(),
            i <= n,
            buttons@.len() == i,
            forall|j: int| 0 <= j < i ==> rendered_button(template.buttons@[j], #[trigger] buttons@[j]),
        decreases n - i,
    {
        let src = &template.buttons[i];
        buttons.push(ButtonSpec {
            custom_id: Some(src.custom_id.clone()),
            label: src.label.clone(),
            style: style_from_number(src.style),
            url: None,
            emoji: Some(src.emoji.clone()),
        });
        i = i + 1;
    }
    (text, buttons)
}

} // verus!
