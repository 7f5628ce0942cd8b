use vstd::prelude::*;

verus! {

/// The bot's own user id, as learned at start-up; zero until it is known.
pub struct BotIdentity {
    id: u64,
}

impl View for BotIdentity {
    type V = u64;

    closed spec fn view(&self) -> u64 {
        self.id
    }
}

impl BotIdentity {
    /// An identity that is not known yet.
    pub fn new() -> (r: BotIdentity)
        ensures
            r@ == 0,
    {
        BotIdentity { id: 0 }
    }
}

/// The bot's user id (zero while unknown).
pub fn get_bot_id(identity: &BotIdentity) -> (r: u64)
    ensures
        r == identity@,
{
    identity.id
}

/// Records the bot's user id.
pub fn set_bot_id(identity: &mut BotIdentity, id: u64)
    ensures
        final(identity)@ == id,
{
    identity.id = id;
}

/// The shard that serves a guild: the guild id's timestamp bits (above bit 22)
/// modulo the number of shards.
pub open spec fn shard_of(guild_id: u64, shard_count: u64) -> u32 {
    ((guild_id >> 22u64) % shard_count) as u32
}

/// The shard that a payload for `guild_id` goes to.
pub fn shard_for_guild(guild_id: u64, shard_count: u64) -> (r: u32)
    requires
        shard_count > 0,
    ensures
        r == shard_of(guild_id, shard_count),
        shard_count <= 0x1_0000_0000 ==> (r as u64) < shard_count,
{
    let r = ((guild_id >> 22u64) % shard_count) as u32;
    r
}

} // verus!
