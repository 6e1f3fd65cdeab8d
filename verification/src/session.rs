//! The session's decision logic: one connection lifecycle — connect,
//! receive, reconnect on a recoverable transport error, terminate on a
//! fatal one — with every incoming event reduced to a phase change and a
//! list of actions for the caller to perform.

use vstd::prelude::*;

use crate::action::{Action, ActionV};
use crate::command::{
    dispatch_spec, CommandRegistry, CommandV, Context, DispatchOutcome, DispatchOutcomeV,
    names_unique,
};
use crate::presence::{
    apply_effect, apply_users, lemma_reset_then_sync_reseeds, reset_model, snapshot_seeds,
    sync_flag, sync_users, PresenceEffect, PresenceTracker, ServerSnapshot, TrackerV,
};
use crate::text::{lemma_split_spaces_len, split_on_spaces, split_spaces, str_eq};

verus! {

/// Where the session stands in its lifecycle.
#[derive(Clone, Copy, PartialEq, Eq, Structural, Debug)]
pub enum Phase {
    Connecting,
    Connected,
    Reconnecting,
    Terminating,
}

/// The fixed configuration of one session.
#[derive(Clone, Copy, PartialEq, Eq, Structural, Debug)]
pub struct BotConfig {
    /// The server whose voice channel is observed.
    pub server_id: u64,
    /// The observed voice channel.
    pub voice_channel_id: u64,
    /// Where arrivals and departures are announced.
    pub status_channel_id: u64,
    /// The one identity allowed to run permission-gated commands.
    pub master_id: u64,
    /// The bot's own identity.
    pub bot_id: u64,
}

/// One event pulled from the gateway, reduced to what the decisions read.
pub enum SessionEvent {
    /// A recoverable transport error: the connection must be re-established.
    RecoverableError,
    /// The remote side closed the connection for good.
    FatalClosed { code: Option<u16>, reason: String },
    /// A chat message.
    Message { author_id: u64, author_name: String, channel_id: u64, content: String },
    /// A voice-state change for one user.
    VoiceUpdate { user_id: u64, channel_id: Option<u64> },
    /// Anything else; ignored.
    Other,
}

/// The mathematical shape of a [`SessionEvent`].
pub ghost enum SessionEventV {
    RecoverableError,
    FatalClosed { code: Option<u16>, reason: Seq<char> },
    Message { author_id: u64, author_name: Seq<char>, channel_id: u64, content: Seq<char> },
    VoiceUpdate { user_id: u64, channel_id: Option<u64> },
    Other,
}

impl View for SessionEvent {
    type V = SessionEventV;

    open spec fn view(&self) -> SessionEventV {
        match self {
            SessionEvent::RecoverableError => SessionEventV::RecoverableError,
            SessionEvent::FatalClosed { code, reason } => SessionEventV::FatalClosed {
                code: *code,
                reason: reason@,
            },
            SessionEvent::Message { author_id, author_name, channel_id, content } => {
                SessionEventV::Message {
                    author_id: *author_id,
                    author_name: author_name@,
                    channel_id: *channel_id,
                    content: content@,
                }
            },
            SessionEvent::VoiceUpdate { user_id, channel_id } => SessionEventV::VoiceUpdate {
                user_id: *user_id,
                channel_id: *channel_id,
            },
            SessionEvent::Other => SessionEventV::Other,
        }
    }
}

/// The mathematical state of a [`SessionLoop`].
pub ghost struct SessionV {
    pub phase: Phase,
    pub tracker: TrackerV,
    pub commands: Seq<CommandV>,
    pub config: BotConfig,
}

/// The name and arguments of a chat message that carries a command: the
/// prefix stripped, the rest split on spaces.
pub open spec fn parse_command(content: Seq<char>) -> Option<(Seq<char>, Seq<Seq<char>>)> {
    if content.len() > 1 && content[0] == '!' {
        let tokens = split_spaces(content.drop_first());
        Some((tokens[0], tokens.drop_first()))
    } else {
        None
    }
}

/// The informational reply to "!code".
pub open spec fn code_reply() -> Seq<char> {
    "I watch one voice channel, announce arrivals and departures, and take chat commands."@
}

/// The farewell sent on an authorized "!quit".
pub open spec fn quit_reply(author_name: Seq<char>) -> Seq<char> {
    "Bye "@ + author_name + "."@
}

/// What a chat message makes the session do: first whatever the dispatched
/// command's handler asks for, then the built-in replies — the informational
/// reply to "!code", and, for the authorized identity alone, the farewell of
/// "!quit".
pub open spec fn message_actions(
    m: SessionV,
    author_id: u64,
    author_name: Seq<char>,
    channel_id: u64,
    content: Seq<char>,
) -> Seq<ActionV> {
    let ctx = Context {
        server_id: m.config.server_id,
        voice_channel_id: m.config.voice_channel_id,
        user_id: author_id,
    };
    let dispatched = match parse_command(content) {
        Some((name, args)) => match dispatch_spec(
            m.commands,
            name,
            ctx,
            args,
            author_id == m.config.master_id,
        ) {
            DispatchOutcomeV::Invoked(acts) => acts,
            _ => Seq::<ActionV>::empty(),
        },
        None => Seq::<ActionV>::empty(),
    };
    let builtin = if content == "!code"@ {
        seq![ActionV::SendMessage { channel_id, text: code_reply() }]
    } else if content == "!quit"@ && author_id == m.config.master_id {
        seq![ActionV::SendMessage { channel_id, text: quit_reply(author_name) }]
    } else {
        Seq::<ActionV>::empty()
    };
    dispatched + builtin
}

/// What one voice-state event makes the session do: announce a join or a
/// departure, or — when the bot's own identity was moved — rejoin the
/// observed channel.
pub open spec fn voice_actions(m: SessionV, user_id: u64, channel_id: Option<u64>) -> Seq<ActionV> {
    match apply_effect(m.tracker, user_id, channel_id) {
        PresenceEffect::Joined(u) => seq![ActionV::AnnounceJoin { user_id: u }],
        PresenceEffect::Left(u) => seq![ActionV::AnnounceLeave { user_id: u }],
        PresenceEffect::SelfMoved => seq![
            ActionV::JoinVoice { channel_id: m.config.voice_channel_id },
        ],
        PresenceEffect::NoChange => Seq::<ActionV>::empty(),
    }
}

/// The phase after one event: a recoverable error reconnects, a fatal close
/// terminates, an authorized "!quit" terminates, everything else stays
/// connected.
pub open spec fn step_phase(m: SessionV, ev: SessionEventV) -> Phase {
    match ev {
        SessionEventV::RecoverableError => Phase::Reconnecting,
        SessionEventV::FatalClosed { .. } => Phase::Terminating,
        SessionEventV::Message { author_id, content, .. } => {
            if content == "!quit"@ && author_id == m.config.master_id {
                Phase::Terminating
            } else {
                Phase::Connected
            }
        },
        SessionEventV::VoiceUpdate { .. } => Phase::Connected,
        SessionEventV::Other => Phase::Connected,
    }
}

/// The presence tracker after one event: a recoverable error forgets all
/// presence ahead of the reconnect, a voice-state event is applied, and
/// everything else leaves it alone.
pub open spec fn step_tracker(m: SessionV, ev: SessionEventV) -> TrackerV {
    match ev {
        SessionEventV::RecoverableError => reset_model(m.tracker),
        SessionEventV::VoiceUpdate { user_id, channel_id } => TrackerV {
            users: apply_users(m.tracker, user_id, channel_id),
            ..m.tracker
        },
        _ => m.tracker,
    }
}

/// The actions one event asks the caller to perform.
pub open spec fn step_actions(m: SessionV, ev: SessionEventV) -> Seq<ActionV> {
    match ev {
        SessionEventV::RecoverableError => seq![ActionV::Reconnect],
        SessionEventV::FatalClosed { .. } => Seq::<ActionV>::empty(),
        SessionEventV::Message { author_id, author_name, channel_id, content } => message_actions(
            m,
            author_id,
            author_name,
            channel_id,
            content,
        ),
        SessionEventV::VoiceUpdate { user_id, channel_id } => voice_actions(
            m,
            user_id,
            channel_id,
        ),
        SessionEventV::Other => Seq::<ActionV>::empty(),
    }
}

/// A recoverable transport error wipes the presence set and the sync mark,
/// so the snapshot seen at the reconnect reseeds presence from scratch:
/// nothing of the old set carries over.
pub proof fn lemma_reconnect_reseeds_session(m: SessionV, snapshot: Seq<ServerSnapshot>)
    ensures
        !step_tracker(m, SessionEventV::RecoverableError).has_synced,
        step_tracker(m, SessionEventV::RecoverableError).users == Set::<u64>::empty(),
        sync_users(
            step_tracker(m, SessionEventV::RecoverableError),
            m.config.server_id,
            snapshot,
        ) == snapshot_seeds(snapshot, m.config.server_id, m.tracker.observed_channel_id),
{
    lemma_reset_then_sync_reseeds(m.tracker, m.config.server_id, snapshot);
}

/// Owns the connection lifecycle's state: the phase, the presence tracker,
/// the command registry, and the configuration.
pub struct SessionLoop {
    phase: Phase,
    tracker: PresenceTracker,
    registry: CommandRegistry,
    config: BotConfig,
}

impl View for SessionLoop {
    type V = SessionV;

    closed spec fn view(&self) -> SessionV {
        SessionV {
            phase: self.phase,
            tracker: self.tracker@,
            commands: self.registry@,
            config: self.config,
        }
    }
}

impl SessionLoop {
    /// The tracker is well formed and watches the configured bot identity
    /// and voice channel, and no two commands share a name.
    pub closed spec fn wf(&self) -> bool {
        &&& self.tracker.wf()
        &&& self.tracker@.bot_id == self.config.bot_id
        &&& self.tracker@.observed_channel_id == self.config.voice_channel_id
        &&& names_unique(self.registry@)
    }

    /// A fresh session: about to connect, no presence known, nothing synced.
    pub fn new(config: BotConfig, registry: CommandRegistry) -> (s: SessionLoop)
        requires
            names_unique(registry@),
        ensures
            s.wf(),
            s@ == (SessionV {
                phase: Phase::Connecting,
                tracker: TrackerV {
                    users: Set::<u64>::empty(),
                    has_synced: false,
                    bot_id: config.bot_id,
                    observed_channel_id: config.voice_channel_id,
                },
                commands: registry@,
                config,
            }),
    {
        SessionLoop {
            phase: Phase::Connecting,
            tracker: PresenceTracker::new(config.bot_id, config.voice_channel_id),
            registry,
            config,
        }
    }

    pub fn phase(&self) -> (p: Phase)
        ensures
            p == self@.phase,
    {
        self.phase
    }

    pub fn config(&self) -> (c: BotConfig)
        ensures
            c == self@.config,
    {
        self.config
    }

    /// Whether the user is currently known to be in the observed channel.
    pub fn is_present(&self, user_id: u64) -> (r: bool)
        ensures
            r == self@.tracker.users.contains(user_id),
    {
        self.tracker.contains(user_id)
    }

    /// Whether presence has been seeded from a snapshot since the last
    /// connect or reconnect.
    pub fn has_synced(&self) -> (r: bool)
        ensures
            r == self@.tracker.has_synced,
    {
        self.tracker.is_synced()
    }

    /// Marks the connection established: seeds presence from the snapshot
    /// (once), moves to Connected, and asks for the voice-channel join —
    /// also after a reconnect, since voice sessions do not survive one.
    pub fn on_connected(&mut self, snapshot: &Vec<ServerSnapshot>) -> (acts: Vec<Action>)
        requires
            old(self).wf(),
            old(self)@.phase is Connecting || old(self)@.phase is Reconnecting,
        ensures
            final(self).wf(),
            final(self)@ == (SessionV {
                phase: Phase::Connected,
                tracker: TrackerV {
                    users: sync_users(old(self)@.tracker, old(self)@.config.server_id, snapshot@),
                    has_synced: sync_flag(
                        old(self)@.tracker,
                        old(self)@.config.server_id,
                        snapshot@,
                    ),
                    ..old(self)@.tracker
                },
                ..old(self)@
            }),
            acts.deep_view() == seq![
                ActionV::JoinVoice { channel_id: old(self)@.config.voice_channel_id },
            ],
    {
        self.tracker.sync_voice_user_state(self.config.server_id, snapshot);
        self.phase = Phase::Connected;
        let mut acts: Vec<Action> = Vec::new();
        acts.push(Action::JoinVoice { channel_id: self.config.voice_channel_id });
        proof {
            assert(acts.deep_view() =~~= seq![
                ActionV::JoinVoice { channel_id: old(self)@.config.voice_channel_id },
            ]);
        }
        acts
    }

    /// Routes one received event: decides the next phase, updates the
    /// presence tracker, and returns the actions to perform, in order.
    pub fn step(&mut self, event: &SessionEvent) -> (acts: Vec<Action>)
        requires
            old(self).wf(),
            old(self)@.phase is Connected,
        ensures
            final(self).wf(),
            final(self)@.commands == old(self)@.commands,
            final(self)@.config == old(self)@.config,
            final(self)@.phase == step_phase(old(self)@, event@),
            final(self)@.tracker == step_tracker(old(self)@, event@),
            acts.deep_view() == step_actions(old(self)@, event@),
    {
        match event {
            SessionEvent::RecoverableError => {
                self.tracker.reset();
                self.phase = Phase::Reconnecting;
                let mut acts: Vec<Action> = Vec::new();
                acts.push(Action::Reconnect);
                proof {
                    assert(acts.deep_view() =~~= step_actions(old(self)@, event@));
                }
                acts
            },
            SessionEvent::FatalClosed { .. } => {
                self.phase = Phase::Terminating;
                let acts: Vec<Action> = Vec::new();
                proof {
                    assert(acts.deep_view() =~~= step_actions(old(self)@, event@));
                }
                acts
            },
            SessionEvent::Message { author_id, author_name, channel_id, content } => {
                self.handle_message(*author_id, author_name, *channel_id, content)
            },
            SessionEvent::VoiceUpdate { user_id, channel_id } => {
                let eff = self.tracker.apply_voice_update(*user_id, *channel_id);
                let mut acts: Vec<Action> = Vec::new();
                match eff {
                    PresenceEffect::Joined(u) => {
                        acts.push(Action::AnnounceJoin { user_id: u });
                    },
                    PresenceEffect::Left(u) => {
                        acts.push(Action::AnnounceLeave { user_id: u });
                    },
                    PresenceEffect::SelfMoved => {
                        acts.push(Action::JoinVoice { channel_id: self.config.voice_channel_id });
                    },
                    PresenceEffect::NoChange => {},
                }
                proof {
                    assert(acts.deep_view() =~~= step_actions(old(self)@, event@));
                }
                acts
            },
            SessionEvent::Other => {
                let acts: Vec<Action> = Vec::new();
                proof {
                    assert(acts.deep_view() =~~= step_actions(old(self)@, event@));
                }
                acts
            },
        }
    }

    /// A chat message: dispatch a prefixed command, then the built-ins —
    /// the "!code" self-description, and the authorized "!quit" farewell,
    /// which ends the session.
    #[verifier::loop_isolation(false)]
    fn handle_message(
        &mut self,
        author_id: u64,
        author_name: &String,
        channel_id: u64,
        content: &String,
    ) -> (acts: Vec<Action>)
        requires
            old(self).wf(),
            old(self)@.phase is Connected,
        ensures
            final(self).wf(),
            final(self)@.commands == old(self)@.commands,
            final(self)@.config == old(self)@.config,
            final(self)@.tracker == old(self)@.tracker,
            final(self)@.phase == (if content@ == "!quit"@ && author_id
                == old(self)@.config.master_id {
                Phase::Terminating
            } else {
                Phase::Connected
            }),
            acts.deep_view() == message_actions(
                old(self)@,
                author_id,
                author_name@,
                channel_id,
                content@,
            ),
    {
        let mut acts: Vec<Action> = Vec::new();
        let len = content.as_str().unicode_len();
        if len > 1 && content.as_str().get_char(0) == '!' {
            let rest = content.as_str().substring_char(1, len);
            proof {
                assert(rest@ =~= content@.drop_first());
                lemma_split_spaces_len(rest@);
            }
            let tokens = split_on_spaces(rest);
            let mut args: Vec<String> = Vec::new();
            let mut i: usize = 1;
            proof {
                assert(tokens@.len() == tokens.deep_view().len());
                assert(args.deep_view() =~~= tokens.deep_view().subrange(1, 1));
            }
            while i < tokens.len()
                invariant
                    1 <= i <= tokens@.len(),
                    args.deep_view() == tokens.deep_view().subrange(1, i as int),
                decreases tokens@.len() - i,
            {
                let ghost prev = args.deep_view();
                args.push(tokens[i].clone());
                proof {
                    assert(args@.len() == prev.len() + 1);
                    assert forall|j: int| 0 <= j < args@.len() implies args.deep_view()[j]
                        == tokens.deep_view().subrange(1, i + 1)[j] by {
                        if j < prev.len() {
                            assert(args.deep_view()[j] == prev[j]);
                        } else {
                            assert(args@[j] == tokens@[i as int]);
                        }
                    }
                    assert(args.deep_view() =~~= tokens.deep_view().subrange(1, i + 1));
                }
                i = i + 1;
            }
            proof {
                assert(tokens.deep_view().subrange(1, tokens.deep_view().len() as int)
                    =~~= tokens.deep_view().drop_first());
            }
            let ctx = Context::new(self.config.server_id, self.config.voice_channel_id, author_id);
            let authorized = author_id == self.config.master_id;
            let outcome = self.registry.dispatch(tokens[0].as_str(), &ctx, &args, authorized);
            if let DispatchOutcome::Invoked(mut invoked) = outcome {
                let ghost invoked0 = invoked.deep_view();
                acts.append(&mut invoked);
                proof {
                    assert(acts.deep_view() =~~= invoked0);
                }
            }
        }
        proof {
            reveal_strlit("!code");
            reveal_strlit("!quit");
            assert("!code"@[1] != "!quit"@[1]);
        }
        if str_eq(content.as_str(), "!code") {
            acts.push(Action::SendMessage {
                channel_id,
                text: String::from_str(
                    "I watch one voice channel, announce arrivals and departures, and take chat commands.",
                ),
            });
        } else if str_eq(content.as_str(), "!quit") {
            if author_id == self.config.master_id {
                let mut text = String::from_str("Bye ");
                text.append(author_name.as_str());
                text.append(".");
                acts.push(Action::SendMessage { channel_id, text });
                self.phase = Phase::Terminating;
            }
        }
        proof {
            assert(acts.deep_view() =~~= message_actions(
                old(self)@,
                author_id,
                author_name@,
                channel_id,
                content@,
            ));
        }
        acts
    }
}

} // verus!
