//! Voice-presence tracking for one observed channel: which users are known
//! to be inside it, seeded once from a full snapshot and then driven by
//! incremental voice-state events. Each event yields at most one effect —
//! a join, a departure, or a self-move of the bot's own identity.

use vstd::prelude::*;

verus! {

/// One user's voice state in a snapshot: the channel the user sits in, if any.
#[derive(Clone, Copy, Debug)]
pub struct VoiceEntry {
    pub user_id: u64,
    pub channel_id: Option<u64>,
}

/// The voice states of one server in the platform's full-state snapshot.
#[derive(Clone, Debug)]
pub struct ServerSnapshot {
    pub server_id: u64,
    pub voice_states: Vec<VoiceEntry>,
}

/// What one voice-state event came to.
#[derive(Clone, Copy, PartialEq, Eq, Structural, Debug)]
pub enum PresenceEffect {
    /// The user entered the observed channel.
    Joined(u64),
    /// The user left the observed channel.
    Left(u64),
    /// The bot's own identity crossed the observed channel's boundary;
    /// handled as a reconnection cue, never announced.
    SelfMoved,
    /// The event did not cross the observed channel's membership boundary.
    NoChange,
}

/// The mathematical state of a [`PresenceTracker`].
pub ghost struct TrackerV {
    /// Users currently known to be inside the observed channel.
    pub users: Set<u64>,
    /// Whether the one-time seeding from a snapshot has happened.
    pub has_synced: bool,
    /// The bot's own user identifier.
    pub bot_id: u64,
    /// The one voice channel being observed.
    pub observed_channel_id: u64,
}

/// Whether an event's channel is the observed one.
pub open spec fn places_in_observed(t: TrackerV, channel_id: Option<u64>) -> bool {
    channel_id == Some(t.observed_channel_id)
}

/// The presence set after one incremental voice-state event.
pub open spec fn apply_users(t: TrackerV, user_id: u64, channel_id: Option<u64>) -> Set<u64> {
    let inside = places_in_observed(t, channel_id);
    let present = t.users.contains(user_id);
    if user_id == t.bot_id {
        if inside && !present {
            t.users.insert(user_id)
        } else {
            t.users
        }
    } else {
        if inside && !present {
            t.users.insert(user_id)
        } else if !inside && present {
            t.users.remove(user_id)
        } else {
            t.users
        }
    }
}

/// The effect of one incremental voice-state event.
pub open spec fn apply_effect(t: TrackerV, user_id: u64, channel_id: Option<u64>) -> PresenceEffect {
    let inside = places_in_observed(t, channel_id);
    let present = t.users.contains(user_id);
    if user_id == t.bot_id {
        if inside != present {
            PresenceEffect::SelfMoved
        } else {
            PresenceEffect::NoChange
        }
    } else if inside && !present {
        PresenceEffect::Joined(user_id)
    } else if !inside && present {
        PresenceEffect::Left(user_id)
    } else {
        PresenceEffect::NoChange
    }
}

/// The users a snapshot's voice states place in the observed channel.
pub open spec fn entry_seeds(entries: Seq<VoiceEntry>, observed: u64) -> Set<u64>
    decreases entries.len(),
{
    if entries.len() == 0 {
        Set::<u64>::empty()
    } else {
        let rest = entry_seeds(entries.drop_last(), observed);
        if entries.last().channel_id == Some(observed) {
            rest.insert(entries.last().user_id)
        } else {
            rest
        }
    }
}

/// A user is seeded exactly when some entry places them in the observed channel.
pub proof fn lemma_entry_seeds_contains(entries: Seq<VoiceEntry>, observed: u64, u: u64)
    ensures
        entry_seeds(entries, observed).contains(u) <==> exists|j: int|
            0 <= j < entries.len() && entries[j].user_id == u && entries[j].channel_id == Some(
                observed,
            ),
    decreases entries.len(),
{
    if entries.len() > 0 {
        lemma_entry_seeds_contains(entries.drop_last(), observed, u);
        let last = entries.len() - 1;
        if entry_seeds(entries, observed).contains(u) {
            if !(entries[last].user_id == u && entries[last].channel_id == Some(observed)) {
                let j = choose|j: int|
                    0 <= j < entries.drop_last().len() && entries.drop_last()[j].user_id == u
                        && entries.drop_last()[j].channel_id == Some(observed);
                assert(entries[j].user_id == u && entries[j].channel_id == Some(observed));
            }
        }
        if exists|j: int|
            0 <= j < entries.len() && entries[j].user_id == u && entries[j].channel_id == Some(
                observed,
            ) {
            let j = choose|j: int|
                0 <= j < entries.len() && entries[j].user_id == u && entries[j].channel_id == Some(
                    observed,
                );
            if j < last {
                assert(entries.drop_last()[j].user_id == u && entries.drop_last()[j].channel_id
                    == Some(observed));
            }
        }
    }
}

/// The users seeded from a full snapshot: those whose voice state, in a
/// server carrying the given identifier, is the observed channel.
pub open spec fn snapshot_seeds(snapshot: Seq<ServerSnapshot>, server_id: u64, observed: u64) -> Set<
    u64,
>
    decreases snapshot.len(),
{
    if snapshot.len() == 0 {
        Set::<u64>::empty()
    } else {
        let rest = snapshot_seeds(snapshot.drop_last(), server_id, observed);
        if snapshot.last().server_id == server_id {
            rest.union(entry_seeds(snapshot.last().voice_states@, observed))
        } else {
            rest
        }
    }
}

/// Whether the snapshot carries the server whose channel is observed.
pub open spec fn snapshot_relevant(snapshot: Seq<ServerSnapshot>, server_id: u64) -> bool
    decreases snapshot.len(),
{
    if snapshot.len() == 0 {
        false
    } else {
        snapshot_relevant(snapshot.drop_last(), server_id) || snapshot.last().server_id == server_id
    }
}

/// The presence set after the one-time seeding ran against a snapshot.
pub open spec fn sync_users(t: TrackerV, server_id: u64, snapshot: Seq<ServerSnapshot>) -> Set<u64> {
    if t.has_synced {
        t.users
    } else {
        t.users.union(snapshot_seeds(snapshot, server_id, t.observed_channel_id))
    }
}

/// The sync flag after the seeding ran against a snapshot.
pub open spec fn sync_flag(t: TrackerV, server_id: u64, snapshot: Seq<ServerSnapshot>) -> bool {
    t.has_synced || snapshot_relevant(snapshot, server_id)
}

/// A user is seeded from a snapshot exactly when some voice state of a
/// server with the given identifier places them in the observed channel.
pub proof fn lemma_snapshot_seeds_contains(
    snapshot: Seq<ServerSnapshot>,
    server_id: u64,
    observed: u64,
    u: u64,
)
    ensures
        snapshot_seeds(snapshot, server_id, observed).contains(u) <==> exists|i: int|
            0 <= i < snapshot.len() && snapshot[i].server_id == server_id && exists|j: int|
                0 <= j < snapshot[i].voice_states@.len()
                    && snapshot[i].voice_states@[j].user_id == u
                    && snapshot[i].voice_states@[j].channel_id == Some(observed),
    decreases snapshot.len(),
{
    if snapshot.len() > 0 {
        lemma_snapshot_seeds_contains(snapshot.drop_last(), server_id, observed, u);
        lemma_entry_seeds_contains(snapshot.last().voice_states@, observed, u);
        let last = snapshot.len() - 1;
        if snapshot_seeds(snapshot, server_id, observed).contains(u) {
            if snapshot_seeds(snapshot.drop_last(), server_id, observed).contains(u) {
                let i = choose|i: int|
                    0 <= i < snapshot.drop_last().len() && snapshot.drop_last()[i].server_id
                        == server_id && exists|j: int|
                        0 <= j < snapshot.drop_last()[i].voice_states@.len()
                            && snapshot.drop_last()[i].voice_states@[j].user_id == u
                            && snapshot.drop_last()[i].voice_states@[j].channel_id == Some(
                            observed,
                        );
                assert(snapshot[i] == snapshot.drop_last()[i]);
            }
        }
        if exists|i: int|
            0 <= i < snapshot.len() && snapshot[i].server_id == server_id && exists|j: int|
                0 <= j < snapshot[i].voice_states@.len()
                    && snapshot[i].voice_states@[j].user_id == u
                    && snapshot[i].voice_states@[j].channel_id == Some(observed) {
            let i = choose|i: int|
                0 <= i < snapshot.len() && snapshot[i].server_id == server_id && exists|j: int|
                    0 <= j < snapshot[i].voice_states@.len()
                        && snapshot[i].voice_states@[j].user_id == u
                        && snapshot[i].voice_states@[j].channel_id == Some(observed);
            if i < last {
                assert(snapshot.drop_last()[i] == snapshot[i]);
                assert(snapshot_seeds(snapshot.drop_last(), server_id, observed).contains(u));
            }
        }
    }
}

/// One incremental event applied to the tracker's mathematical state.
pub open spec fn apply_model(t: TrackerV, ev: (u64, Option<u64>)) -> TrackerV {
    TrackerV { users: apply_users(t, ev.0, ev.1), ..t }
}

/// A whole sequence of incremental events applied in order.
pub open spec fn apply_all(t: TrackerV, events: Seq<(u64, Option<u64>)>) -> TrackerV
    decreases events.len(),
{
    if events.len() == 0 {
        t
    } else {
        apply_model(apply_all(t, events.drop_last()), events.last())
    }
}

/// The channel named by the last event that concerns the user, if any does.
pub open spec fn last_event_for(events: Seq<(u64, Option<u64>)>, u: u64) -> Option<Option<u64>>
    decreases events.len(),
{
    if events.len() == 0 {
        None
    } else if events.last().0 == u {
        Some(events.last().1)
    } else {
        last_event_for(events.drop_last(), u)
    }
}

/// Events only move users in and out; they never touch the identifiers or
/// the sync mark.
pub proof fn lemma_apply_all_fixed_fields(t: TrackerV, events: Seq<(u64, Option<u64>)>)
    ensures
        apply_all(t, events).bot_id == t.bot_id,
        apply_all(t, events).observed_channel_id == t.observed_channel_id,
        apply_all(t, events).has_synced == t.has_synced,
    decreases events.len(),
{
    if events.len() > 0 {
        lemma_apply_all_fixed_fields(t, events.drop_last());
    }
}

/// After any sequence of incremental events, a user other than the bot is
/// present exactly when the last event that names the user placed them in
/// the observed channel — or, when no event names them, when they were
/// present to begin with.
pub proof fn lemma_presence_matches_last_event(
    t: TrackerV,
    events: Seq<(u64, Option<u64>)>,
    u: u64,
)
    requires
        u != t.bot_id,
    ensures
        apply_all(t, events).users.contains(u) == match last_event_for(events, u) {
            Some(ch) => ch == Some(t.observed_channel_id),
            None => t.users.contains(u),
        },
    decreases events.len(),
{
    if events.len() > 0 {
        lemma_presence_matches_last_event(t, events.drop_last(), u);
        lemma_apply_all_fixed_fields(t, events.drop_last());
    }
}

/// Delivering the same event a second time changes nothing in the presence
/// set and never yields a second join or departure.
pub proof fn lemma_apply_idempotent(t: TrackerV, user_id: u64, channel_id: Option<u64>)
    ensures
        apply_users(apply_model(t, (user_id, channel_id)), user_id, channel_id) == apply_users(
            t,
            user_id,
            channel_id,
        ),
        !(apply_effect(apply_model(t, (user_id, channel_id)), user_id, channel_id)
            is Joined),
        !(apply_effect(apply_model(t, (user_id, channel_id)), user_id, channel_id) is Left),
        user_id != t.bot_id ==> apply_effect(
            apply_model(t, (user_id, channel_id)),
            user_id,
            channel_id,
        ) is NoChange,
{
}

/// The bot's own identity never joins or leaves as an announceable effect:
/// an event that moves it across the observed channel's boundary is exactly
/// one self-move, and any other event for it is without effect.
pub proof fn lemma_self_move(t: TrackerV, channel_id: Option<u64>)
    ensures
        !(apply_effect(t, t.bot_id, channel_id) is Joined),
        !(apply_effect(t, t.bot_id, channel_id) is Left),
        apply_effect(t, t.bot_id, channel_id) is SelfMoved <==> places_in_observed(t, channel_id)
            != t.users.contains(t.bot_id),
{
}

/// The tracker's mathematical state right after a reset.
pub open spec fn reset_model(t: TrackerV) -> TrackerV {
    TrackerV { users: Set::<u64>::empty(), has_synced: false, ..t }
}

/// After a reset — performed around a reconnect — the next snapshot reseeds
/// the presence set from scratch: nothing of the old set carries over.
pub proof fn lemma_reset_then_sync_reseeds(
    t: TrackerV,
    server_id: u64,
    snapshot: Seq<ServerSnapshot>,
)
    ensures
        sync_users(reset_model(t), server_id, snapshot) == snapshot_seeds(
            snapshot,
            server_id,
            t.observed_channel_id,
        ),
        sync_flag(reset_model(t), server_id, snapshot) == snapshot_relevant(snapshot, server_id),
{
    assert(Set::<u64>::empty().union(
        snapshot_seeds(snapshot, server_id, t.observed_channel_id),
    ) =~= snapshot_seeds(snapshot, server_id, t.observed_channel_id));
}

/// Tracks the set of users currently inside the observed voice channel.
pub struct PresenceTracker {
    users: Vec<u64>,
    has_synced: bool,
    bot_id: u64,
    observed_channel_id: u64,
}

impl View for PresenceTracker {
    type V = TrackerV;

    closed spec fn view(&self) -> TrackerV {
        TrackerV {
            users: self.users@.to_set(),
            has_synced: self.has_synced,
            bot_id: self.bot_id,
            observed_channel_id: self.observed_channel_id,
        }
    }
}

impl PresenceTracker {
    /// The tracked user list never holds a user twice.
    pub closed spec fn wf(&self) -> bool {
        forall|i: int, j: int|
            0 <= i < j < self.users@.len() ==> self.users@[i] != self.users@[j]
    }

    pub fn new(bot_id: u64, observed_channel_id: u64) -> (t: PresenceTracker)
        ensures
            t.wf(),
            t@ == (TrackerV {
                users: Set::<u64>::empty(),
                has_synced: false,
                bot_id,
                observed_channel_id,
            }),
    {
        let t = PresenceTracker { users: Vec::new(), has_synced: false, bot_id, observed_channel_id };
        proof {
            assert(t.users@.to_set() =~= Set::<u64>::empty());
        }
        t
    }

    /// Whether the user is currently known to be in the observed channel.
    pub fn contains(&self, user_id: u64) -> (r: bool)
        ensures
            r == self@.users.contains(user_id),
    {
        let n = self.users.len();
        let mut i: usize = 0;
        while i < n
            invariant
                n == self.users@.len(),
                i <= n,
                forall|j: int| 0 <= j < i ==> self.users@[j] != user_id,
            decreases n - i,
        {
            if self.users[i] == user_id {
                return true;
            }
            i = i + 1;
        }
        false
    }

    /// Whether the one-time seeding from a snapshot has happened.
    pub fn is_synced(&self) -> (r: bool)
        ensures
            r == self@.has_synced,
    {
        self.has_synced
    }

    /// Forgets all presence and the sync mark, ahead of a reconnect: the next
    /// snapshot reseeds from scratch.
    pub fn reset(&mut self)
        ensures
            final(self).wf(),
            final(self)@ == (TrackerV {
                users: Set::<u64>::empty(),
                has_synced: false,
                bot_id: old(self)@.bot_id,
                observed_channel_id: old(self)@.observed_channel_id,
            }),
    {
        self.users = Vec::new();
        self.has_synced = false;
        proof {
            assert(self.users@.to_set() =~= Set::<u64>::empty());
        }
    }

    fn insert(&mut self, user_id: u64)
        requires
            old(self).wf(),
        ensures
            final(self).wf(),
            final(self)@ == (TrackerV {
                users: old(self)@.users.insert(user_id),
                ..old(self)@
            }),
    {
        if !self.contains(user_id) {
            self.users.push(user_id);
            proof {
                let before = old(self).users@;
                let after = self.users@;
                assert forall|x: u64| after.to_set().contains(x) implies before.to_set().insert(
                    user_id,
                ).contains(x) by {
                    let j = choose|j: int| 0 <= j < after.len() && after[j] == x;
                    if j < before.len() {
                        assert(before[j] == x);
                    }
                }
                assert forall|x: u64| before.to_set().insert(user_id).contains(x)
                    implies after.to_set().contains(x) by {
                    if x == user_id {
                        assert(after[after.len() - 1] == x);
                    } else {
                        let j = choose|j: int| 0 <= j < before.len() && before[j] == x;
                        assert(after[j] == x);
                    }
                }
                assert(after.to_set() =~= before.to_set().insert(user_id));
                assert forall|i: int, j: int| 0 <= i < j < after.len() implies after[i] != after[j]
                    by {
                    if j == after.len() - 1 {
                        assert(!before.to_set().contains(user_id));
                        assert(before[i] == after[i]);
                    }
                }
            }
        } else {
            proof {
                assert(self.users@.to_set() =~= old(self).users@.to_set().insert(user_id));
            }
        }
    }

    fn remove(&mut self, user_id: u64)
        requires
            old(self).wf(),
        ensures
            final(self).wf(),
            final(self)@ == (TrackerV {
                users: old(self)@.users.remove(user_id),
                ..old(self)@
            }),
    {
        let n = self.users.len();
        let mut i: usize = 0;
        while i < n
            invariant
                n == self.users@.len(),
                i <= n,
                self.wf(),
                *self == *old(self),
                forall|j: int| 0 <= j < i ==> self.users@[j] != user_id,
            decreases n - i,
        {
            if self.users[i] == user_id {
                self.users.remove(i);
                proof {
                    let before = old(self).users@;
                    let after = self.users@;
                    assert forall|x: u64| after.to_set().contains(x) implies before.to_set().remove(
                        user_id,
                    ).contains(x) by {
                        let j = choose|j: int| 0 <= j < after.len() && after[j] == x;
                        if j < i {
                            assert(before[j] == x);
                        } else {
                            assert(before[j + 1] == x);
                        }
                    }
                    assert forall|x: u64| before.to_set().remove(user_id).contains(x)
                        implies after.to_set().contains(x) by {
                        let j = choose|j: int| 0 <= j < before.len() && before[j] == x;
                        if j < i {
                            assert(after[j] == x);
                        } else {
                            assert(before[i as int] == user_id);
                            assert(j != i);
                            assert(after[j - 1] == x);
                        }
                    }
                    assert(after.to_set() =~= before.to_set().remove(user_id));
                }
                return;
            }
            i = i + 1;
        }
        proof {
            assert(!self.users@.to_set().contains(user_id));
            assert(self.users@.to_set() =~= self.users@.to_set().remove(user_id));
        }
    }

    /// Feeds one incremental voice-state event through the tracker and
    /// reports the membership transition it caused, if any. The bot's own
    /// identity crossing the boundary is a self-move, never a join or a
    /// departure, and a departure never drops the bot from the set.
    pub fn apply_voice_update(&mut self, user_id: u64, channel_id: Option<u64>) -> (eff:
        PresenceEffect)
        requires
            old(self).wf(),
        ensures
            final(self).wf(),
            final(self)@ == (TrackerV {
                users: apply_users(old(self)@, user_id, channel_id),
                ..old(self)@
            }),
            eff == apply_effect(old(self)@, user_id, channel_id),
    {
        let inside = match channel_id {
            Some(ch) => ch == self.observed_channel_id,
            None => false,
        };
        let present = self.contains(user_id);
        if user_id == self.bot_id {
            if inside && !present {
                self.insert(user_id);
                PresenceEffect::SelfMoved
            } else {
                proof {
                    assert(self.users@.to_set() =~= apply_users(old(self)@, user_id, channel_id));
                }
                if !inside && present {
                    PresenceEffect::SelfMoved
                } else {
                    PresenceEffect::NoChange
                }
            }
        } else if inside && !present {
            self.insert(user_id);
            PresenceEffect::Joined(user_id)
        } else if !inside && present {
            self.remove(user_id);
            PresenceEffect::Left(user_id)
        } else {
            proof {
                assert(self.users@.to_set() =~= apply_users(old(self)@, user_id, channel_id));
            }
            PresenceEffect::NoChange
        }
    }

    /// Seeds the presence set, once, from the platform's full-state snapshot:
    /// every user whose voice state in the given server is the observed
    /// channel becomes present. After the first snapshot that carries the
    /// server, later calls change nothing.
    #[verifier::loop_isolation(false)]
    pub fn sync_voice_user_state(&mut self, server_id: u64, snapshot: &Vec<ServerSnapshot>)
        requires
            old(self).wf(),
        ensures
            final(self).wf(),
            final(self)@ == (TrackerV {
                users: sync_users(old(self)@, server_id, snapshot@),
                has_synced: sync_flag(old(self)@, server_id, snapshot@),
                ..old(self)@
            }),
    {
        if self.has_synced {
            return;
        }
        let ghost t0 = self@;
        let n = snapshot.len();
        let mut i: usize = 0;
        while i < n
            invariant
                old(self).wf(),
                !t0.has_synced,
                t0 == old(self)@,
                n == snapshot@.len(),
                i <= n,
                self.wf(),
                self.bot_id == old(self).bot_id,
                self.observed_channel_id == old(self).observed_channel_id,
                self@.users == t0.users.union(
                    snapshot_seeds(snapshot@.take(i as int), server_id, t0.observed_channel_id),
                ),
                self.has_synced == snapshot_relevant(snapshot@.take(i as int), server_id),
            decreases n - i,
        {
            proof {
                assert(snapshot@.take(i + 1).drop_last() =~= snapshot@.take(i as int));
                assert(snapshot@.take(i + 1).last() == snapshot@[i as int]);
            }
            if snapshot[i].server_id == server_id {
                let entries = &snapshot[i].voice_states;
                let m = entries.len();
                let mut j: usize = 0;
                while j < m
                    invariant
                        m == entries@.len(),
                        j <= m,
                        self.wf(),
                        self.bot_id == old(self).bot_id,
                        self.observed_channel_id == old(self).observed_channel_id,
                        self.has_synced == snapshot_relevant(
                            snapshot@.take(i as int),
                            server_id,
                        ),
                        self@.users == t0.users.union(
                            snapshot_seeds(
                                snapshot@.take(i as int),
                                server_id,
                                t0.observed_channel_id,
                            ),
                        ).union(entry_seeds(entries@.take(j as int), t0.observed_channel_id)),
                    decreases m - j,
                {
                    proof {
                        assert(entries@.take(j + 1).drop_last() =~= entries@.take(j as int));
                        assert(entries@.take(j + 1).last() == entries@[j as int]);
                    }
                    let keep = match entries[j].channel_id {
                        Some(ch) => ch == self.observed_channel_id,
                        None => false,
                    };
                    if keep {
                        self.insert(entries[j].user_id);
                        proof {
                            assert(self@.users =~= t0.users.union(
                                snapshot_seeds(
                                    snapshot@.take(i as int),
                                    server_id,
                                    t0.observed_channel_id,
                                ),
                            ).union(entry_seeds(entries@.take(j + 1), t0.observed_channel_id)));
                        }
                    } else {
                        proof {
                            assert(entry_seeds(entries@.take(j + 1), t0.observed_channel_id)
                                == entry_seeds(entries@.take(j as int), t0.observed_channel_id));
                        }
                    }
                    j = j + 1;
                }
                self.has_synced = true;
                proof {
                    assert(entries@.take(m as int) =~= entries@);
                    assert(self@.users =~= t0.users.union(
                        snapshot_seeds(snapshot@.take(i + 1), server_id, t0.observed_channel_id),
                    ));
                }
            } else {
                proof {
                    assert(snapshot_seeds(snapshot@.take(i + 1), server_id, t0.observed_channel_id)
                        == snapshot_seeds(
                        snapshot@.take(i as int),
                        server_id,
                        t0.observed_channel_id,
                    ));
                }
            }
            i = i + 1;
        }
        proof {
            assert(snapshot@.take(n as int) =~= snapshot@);
        }
    }
}

} // verus!
