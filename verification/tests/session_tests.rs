use fs_bot::action::Action;
use fs_bot::command::{Command, CommandRegistry, HandlerId};
use fs_bot::presence::{ServerSnapshot, VoiceEntry};
use fs_bot::session::{BotConfig, Phase, SessionEvent, SessionLoop};

const SERVER: u64 = 1;
const VOICE: u64 = 10;
const STATUS: u64 = 20;
const MASTER: u64 = 100;
const BOT: u64 = 99;

fn config() -> BotConfig {
    BotConfig {
        server_id: SERVER,
        voice_channel_id: VOICE,
        status_channel_id: STATUS,
        master_id: MASTER,
        bot_id: BOT,
    }
}

fn registry() -> CommandRegistry {
    let mut reg = CommandRegistry::new();
    reg.register(Command::new_default("play".to_string(), HandlerId::Play)).unwrap();
    reg.register(Command::new_default("voice".to_string(), HandlerId::Voice)).unwrap();
    reg
}

fn entry(user_id: u64, channel_id: Option<u64>) -> VoiceEntry {
    VoiceEntry { user_id, channel_id }
}

fn message(author_id: u64, author_name: &str, content: &str) -> SessionEvent {
    SessionEvent::Message {
        author_id,
        author_name: author_name.to_string(),
        channel_id: 30,
        content: content.to_string(),
    }
}

/// Connects a fresh session, seeding presence with users 201 and 202 and the
/// bot inside the observed channel.
fn connected_session() -> SessionLoop {
    let mut s = SessionLoop::new(config(), registry());
    assert_eq!(s.phase(), Phase::Connecting);
    let snapshot = vec![ServerSnapshot {
        server_id: SERVER,
        voice_states: vec![
            entry(201, Some(VOICE)),
            entry(202, Some(VOICE)),
            entry(BOT, Some(VOICE)),
            entry(203, Some(11)),
        ],
    }];
    let acts = s.on_connected(&snapshot);
    assert_eq!(acts.len(), 1);
    assert!(matches!(&acts[0], Action::JoinVoice { channel_id: VOICE }));
    assert_eq!(s.phase(), Phase::Connected);
    s
}

#[test]
fn initial_snapshot_seeds_presence_without_announcements() {
    let s = connected_session();
    assert!(s.has_synced());
    assert!(s.is_present(201));
    assert!(s.is_present(202));
    assert!(!s.is_present(203));
}

#[test]
fn arrival_departure_and_self_move_scenario() {
    let mut s = connected_session();
    // A third user joins the observed channel: exactly one arrival.
    let acts = s.step(&SessionEvent::VoiceUpdate { user_id: 204, channel_id: Some(VOICE) });
    assert_eq!(acts.len(), 1);
    assert!(matches!(&acts[0], Action::AnnounceJoin { user_id: 204 }));
    assert!(s.is_present(204));
    // One of the seeded users moves to a different channel: one departure.
    let acts = s.step(&SessionEvent::VoiceUpdate { user_id: 201, channel_id: Some(11) });
    assert_eq!(acts.len(), 1);
    assert!(matches!(&acts[0], Action::AnnounceLeave { user_id: 201 }));
    assert!(!s.is_present(201));
    // The bot's own identity moves: a rejoin, never an announcement, and the
    // absence-tracking path leaves it in place.
    let acts = s.step(&SessionEvent::VoiceUpdate { user_id: BOT, channel_id: Some(11) });
    assert_eq!(acts.len(), 1);
    assert!(matches!(&acts[0], Action::JoinVoice { channel_id: VOICE }));
    assert!(s.is_present(BOT));
    assert_eq!(s.phase(), Phase::Connected);
}

#[test]
fn repeated_presence_event_announces_once() {
    let mut s = connected_session();
    let ev = SessionEvent::VoiceUpdate { user_id: 204, channel_id: Some(VOICE) };
    let first = s.step(&ev);
    assert_eq!(first.len(), 1);
    let second = s.step(&ev);
    assert!(second.is_empty());
}

#[test]
fn reconnection_reseeds_presence_from_scratch() {
    let mut s = connected_session();
    assert!(s.is_present(201));
    let acts = s.step(&SessionEvent::RecoverableError);
    assert_eq!(acts.len(), 1);
    assert!(matches!(&acts[0], Action::Reconnect));
    assert_eq!(s.phase(), Phase::Reconnecting);
    assert!(!s.has_synced());
    assert!(!s.is_present(201));
    // The fresh snapshot after the reconnect carries user 205 alone.
    let snapshot = vec![ServerSnapshot {
        server_id: SERVER,
        voice_states: vec![entry(205, Some(VOICE))],
    }];
    let acts = s.on_connected(&snapshot);
    assert!(matches!(&acts[0], Action::JoinVoice { channel_id: VOICE }));
    assert_eq!(s.phase(), Phase::Connected);
    assert!(s.has_synced());
    assert!(s.is_present(205));
    assert!(!s.is_present(201));
    assert!(!s.is_present(202));
}

#[test]
fn fatal_close_terminates() {
    let mut s = connected_session();
    let acts = s.step(&SessionEvent::FatalClosed {
        code: Some(1000),
        reason: "going away".to_string(),
    });
    assert!(acts.is_empty());
    assert_eq!(s.phase(), Phase::Terminating);
}

#[test]
fn play_command_runs_from_chat() {
    let mut s = connected_session();
    let acts = s.step(&message(50, "Ann", "!play hello0"));
    assert_eq!(acts.len(), 1);
    match &acts[0] {
        Action::PlaySound { name } => assert_eq!(name, "hello0"),
        _ => panic!("expected a playback action"),
    }
    assert_eq!(s.phase(), Phase::Connected);
}

#[test]
fn voice_command_runs_from_chat() {
    let mut s = connected_session();
    let acts = s.step(&message(50, "Ann", "!voice join"));
    assert_eq!(acts.len(), 1);
    assert!(matches!(&acts[0], Action::JoinVoice { channel_id: VOICE }));
    let acts = s.step(&message(50, "Ann", "!voice leave"));
    assert_eq!(acts.len(), 1);
    assert!(matches!(&acts[0], Action::LeaveVoice));
}

#[test]
fn unknown_command_and_plain_chat_do_nothing() {
    let mut s = connected_session();
    assert!(s.step(&message(50, "Ann", "!nope")).is_empty());
    assert!(s.step(&message(50, "Ann", "hello there")).is_empty());
    assert!(s.step(&message(50, "Ann", "!")).is_empty());
    assert!(s.step(&SessionEvent::Other).is_empty());
    assert_eq!(s.phase(), Phase::Connected);
}

#[test]
fn code_reply_is_sent_to_the_message_channel() {
    let mut s = connected_session();
    let acts = s.step(&message(50, "Ann", "!code"));
    assert_eq!(acts.len(), 1);
    match &acts[0] {
        Action::SendMessage { channel_id, text } => {
            assert_eq!(*channel_id, 30);
            assert!(!text.is_empty());
        },
        _ => panic!("expected an informational reply"),
    }
    assert_eq!(s.phase(), Phase::Connected);
}

#[test]
fn quit_by_master_says_farewell_and_terminates() {
    let mut s = connected_session();
    let acts = s.step(&message(MASTER, "Master", "!quit"));
    assert_eq!(acts.len(), 1);
    match &acts[0] {
        Action::SendMessage { channel_id, text } => {
            assert_eq!(*channel_id, 30);
            assert_eq!(text, "Bye Master.");
        },
        _ => panic!("expected the farewell"),
    }
    assert_eq!(s.phase(), Phase::Terminating);
}

#[test]
fn quit_by_anyone_else_is_ignored() {
    let mut s = connected_session();
    let acts = s.step(&message(50, "Ann", "!quit"));
    assert!(acts.is_empty());
    assert_eq!(s.phase(), Phase::Connected);
}
