//! Live playback and filter control: the command set shared by the two
//! command channels, and the filter-toggle state the consumer reads
//! before every frame.

use vstd::prelude::*;

verus! {

/// A command sent to the player while it plays. The filter channel acts
/// on the toggle and volume commands; the playback channel acts on
/// pause, resume and skip.
pub enum AudioCommand {
    /// Gate the DSP chain on or off.
    ToggleBassBoost(bool),
    /// Reserved resampling toggle; recorded but not applied.
    ToggleNightcore(bool),
    /// Reserved pitch toggle; recorded but not applied.
    ToggleVaporwave(bool),
    /// Output volume in hundredths (100 is unity gain).
    SetVolume(u32),
    /// Freeze the producer.
    Pause,
    /// Unfreeze the producer.
    Resume,
    /// Drop the current track and move on.
    Skip,
}

/// The filter toggles and the volume, read concurrently by the consumer
/// and written only in response to filter commands. The volume is kept
/// in hundredths of unity gain.
pub struct AudioFilterState {
    pub bass_boost: bool,
    pub nightcore: bool,
    pub vaporwave: bool,
    pub volume_hundredths: u32,
}

impl Default for AudioFilterState {
    /// The initial state: every toggle off, volume at unity.
    fn default() -> (s: AudioFilterState)
        ensures
            !s.bass_boost,
            !s.nightcore,
            !s.vaporwave,
            s.volume_hundredths == 100,
    {
        AudioFilterState { bass_boost: false, nightcore: false, vaporwave: false,
            volume_hundredths: 100 }
    }
}

/// What one command does to the filter state: each toggle and the volume
/// land in their field; playback commands change nothing.
pub open spec fn spec_filter_step(s: AudioFilterState, cmd: AudioCommand) -> AudioFilterState {
    match cmd {
        AudioCommand::ToggleBassBoost(on) => AudioFilterState { bass_boost: on, ..s },
        AudioCommand::ToggleNightcore(on) => AudioFilterState { nightcore: on, ..s },
        AudioCommand::ToggleVaporwave(on) => AudioFilterState { vaporwave: on, ..s },
        AudioCommand::SetVolume(v) => AudioFilterState { volume_hundredths: v, ..s },
        _ => s,
    }
}

/// The filter state after a drained batch of commands, applied in order.
pub open spec fn spec_filter_fold(s: AudioFilterState, cmds: Seq<AudioCommand>) -> AudioFilterState
    decreases cmds.len(),
{
    if cmds.len() == 0 {
        s
    } else {
        spec_filter_fold(spec_filter_step(s, cmds.first()), cmds.drop_first())
    }
}

/// Applies one command to the filter state.
pub fn apply_filter_command(state: &mut AudioFilterState, cmd: &AudioCommand)
    ensures
        *final(state) == spec_filter_step(*old(state), *cmd),
{
    match cmd {
        AudioCommand::ToggleBassBoost(on) => {
            state.bass_boost = *on;
        },
        AudioCommand::ToggleNightcore(on) => {
            state.nightcore = *on;
        },
        AudioCommand::ToggleVaporwave(on) => {
            state.vaporwave = *on;
        },
        AudioCommand::SetVolume(v) => {
            state.volume_hundredths = *v;
        },
        AudioCommand::Pause => {},
        AudioCommand::Resume => {},
        AudioCommand::Skip => {},
    }
}

/// Applies a whole drained batch of commands in order.
pub fn apply_filter_commands(state: &mut AudioFilterState, cmds: &Vec<AudioCommand>)
    ensures
        *final(state) == spec_filter_fold(*old(state), cmds@),
{
    let mut i: usize = 0;
    assert(cmds@.skip(0) =~= cmds@);
    while i < cmds.len()
        invariant
            i <= cmds@.len(),
            spec_filter_fold(*state, cmds@.skip(i as int)) == spec_filter_fold(*old(state), cmds@),
        decreases cmds@.len() - i,
    {
        proof {
            assert(cmds@.skip(i as int).first() == cmds@[i as int]);
            assert(cmds@.skip(i as int).drop_first() =~= cmds@.skip(i as int + 1));
        }
        apply_filter_command(state, &cmds[i]);
        i = i + 1;
    }
    assert(cmds@.skip(i as int) =~= Seq::<AudioCommand>::empty());
}

} // verus!
