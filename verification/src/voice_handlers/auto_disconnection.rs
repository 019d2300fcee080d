use vstd::prelude::*;

verus! {

/// One user's voice state in a guild: the user id and the voice channel the
/// user is in, if any.
pub type VoiceState = (u64, Option<u64>);

/// How many of `states` are in `channel_id`, not counting the user who just
/// disconnected.
pub open spec fn users_in_channel(states: Seq<VoiceState>, channel_id: u64, just_left: u64) -> nat
    decreases states.len(),
{
    if states.len() == 0 {
        0
    } else {
        let (user, channel) = states.last();
        users_in_channel(states.drop_last(), channel_id, just_left) + if channel == Some(channel_id)
            && user != just_left {
            1nat
        } else {
            0nat
        }
    }
}

/// Counts the users still in the bot's voice channel after `just_left`
/// disconnected.
pub fn count_users_in_channel(states: &Vec<VoiceState>, channel_id: u64, just_left: u64) -> (count:
    usize)
    ensures
        count as nat == users_in_channel(states@, channel_id, just_left),
{
    let mut count: usize = 0;
    let mut i: usize = 0;
    while i < states.len()
        invariant
            0 <= i <= states.len(),
            count as nat == users_in_channel(states@.take(i as int), channel_id, just_left),
            count <= i,
        decreases states.len() - i,
    {
        assert(states@.take(i + 1).drop_last() =~= states@.take(i as int));
        let (user, channel) = states[i];
        if channel == Some(channel_id) && user != just_left {
            count = count + 1;
        }
        i = i + 1;
    }
    assert(states@.take(states.len() as int) =~= states@);
    count
}

/// Whether the bot should leave its voice channel after `just_left`
/// disconnected: it does when it is the only one left there.
pub fn check_for_clients(states: &Vec<VoiceState>, channel_id: u64, just_left: u64) -> (leave: bool)
    ensures
        leave == (users_in_channel(states@, channel_id, just_left) == 1),
{
    count_users_in_channel(states, channel_id, just_left) == 1
}

/// Every voice state in the bot's channel whose user is not the one who
/// just left adds one to the count, whatever the user ids; a voice state
/// in another channel, or in none, adds nothing.
pub proof fn lemma_each_other_user_counts(
    states: Seq<VoiceState>,
    channel_id: u64,
    just_left: u64,
    user: u64,
    channel: Option<u64>,
)
    ensures
        user != just_left ==> users_in_channel(states.push((user, Some(channel_id))), channel_id, just_left)
            == users_in_channel(states, channel_id, just_left) + 1,
        channel != Some(channel_id) ==> users_in_channel(states.push((user, channel)), channel_id, just_left)
            == users_in_channel(states, channel_id, just_left),
{
    assert(states.push((user, Some(channel_id))).drop_last() =~= states);
    assert(states.push((user, channel)).drop_last() =~= states);
}

/// The user who just disconnected is never counted, and no one is counted
/// twice for one voice state.
pub proof fn lemma_users_in_channel_bounds(
    states: Seq<VoiceState>,
    channel_id: u64,
    just_left: u64,
    channel: Option<u64>,
)
    ensures
        users_in_channel(states, channel_id, just_left) <= states.len(),
        users_in_channel(states.push((just_left, channel)), channel_id, just_left)
            == users_in_channel(states, channel_id, just_left),
    decreases states.len(),
{
    assert(states.push((just_left, channel)).drop_last() =~= states);
    if states.len() > 0 {
        lemma_users_in_channel_bounds(states.drop_last(), channel_id, just_left, channel);
    }
}

} // verus!
