//! The voice API façade: one player per guild. The join sequence's I/O —
//! gateway start, voice handshake, socket setup — runs with the caller;
//! the map from guild to player and its reuse rule live here. Guilds are
//! keyed by their numeric snowflake id.

use std::collections::HashMap;
use vstd::prelude::*;

use crate::player::AudioPlayer;

verus! {

broadcast use vstd::std_specs::hash::group_hash_axioms;

/// The per-process map from guild id to its player.
pub struct DiscordVoiceApi {
    players: HashMap<u64, AudioPlayer>,
}

impl DiscordVoiceApi {
    /// The model: which guild has which player.
    pub closed spec fn players_view(&self) -> Map<u64, AudioPlayer> {
        self.players@
    }

    /// An empty façade: no guild joined yet.
    pub fn new() -> (api: DiscordVoiceApi)
        ensures
            api.players_view() == Map::<u64, AudioPlayer>::empty(),
    {
        DiscordVoiceApi { players: HashMap::new() }
    }

    /// The player of a guild, when one exists.
    pub fn get_player(&self, guild_id: u64) -> (p: Option<&AudioPlayer>)
        ensures
            self.players_view().contains_key(guild_id) ==> {
                &&& p matches Some(v) && *v == self.players_view()[guild_id]
            },
            !self.players_view().contains_key(guild_id) ==> p is None,
    {
        self.players.get(&guild_id)
    }

    /// Whether a join may be skipped: the guild already has a player.
    pub fn has_player(&self, guild_id: u64) -> (r: bool)
        ensures
            r == self.players_view().contains_key(guild_id),
    {
        self.players.contains_key(&guild_id)
    }

    /// Stores the player built by a completed join.
    pub fn insert_player(&mut self, guild_id: u64, player: AudioPlayer)
        ensures
            final(self).players_view() == old(self).players_view().insert(guild_id, player),
    {
        self.players.insert(guild_id, player);
    }
}

} // verus!
