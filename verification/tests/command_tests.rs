use fs_bot::action::Action;
use fs_bot::command::{
    Command, CommandRegistry, Context, DispatchOutcome, HandlerId, RegistryError,
};

fn sample_registry() -> CommandRegistry {
    let mut reg = CommandRegistry::new();
    reg.register(Command::new_default("play".to_string(), HandlerId::Play)).unwrap();
    reg.register(Command::new_default("voice".to_string(), HandlerId::Voice)).unwrap();
    reg
}

fn sample_context() -> Context {
    Context::new(1, 10, 50)
}

#[test]
fn dispatch_play_invokes_handler_once() {
    let reg = sample_registry();
    let ctx = sample_context();
    let args = vec!["hello0".to_string()];
    match reg.dispatch("play", &ctx, &args, false) {
        DispatchOutcome::Invoked(acts) => {
            assert_eq!(acts.len(), 1);
            match &acts[0] {
                Action::PlaySound { name } => assert_eq!(name, "hello0"),
                _ => panic!("expected a playback action"),
            }
        },
        _ => panic!("expected the play handler to run"),
    }
}

#[test]
fn dispatch_unknown_name_reports_not_found() {
    let reg = sample_registry();
    let ctx = sample_context();
    let args: Vec<String> = vec![];
    assert!(matches!(reg.dispatch("nope", &ctx, &args, false), DispatchOutcome::NotFound));
    assert!(matches!(reg.dispatch("nope", &ctx, &args, true), DispatchOutcome::NotFound));
}

#[test]
fn dispatch_is_case_sensitive() {
    let reg = sample_registry();
    let ctx = sample_context();
    let args: Vec<String> = vec![];
    assert!(matches!(reg.dispatch("Play", &ctx, &args, false), DispatchOutcome::NotFound));
}

#[test]
fn permission_gate_holds_unauthorized_out() {
    let mut reg = sample_registry();
    reg.register(Command::new("secret".to_string(), HandlerId::Play, true)).unwrap();
    let ctx = sample_context();
    let args = vec!["x".to_string()];
    assert!(matches!(reg.dispatch("secret", &ctx, &args, false), DispatchOutcome::Denied));
    match reg.dispatch("secret", &ctx, &args, true) {
        DispatchOutcome::Invoked(acts) => {
            assert_eq!(acts.len(), 1);
            match &acts[0] {
                Action::PlaySound { name } => assert_eq!(name, "x"),
                _ => panic!("expected a playback action"),
            }
        },
        _ => panic!("expected the gated handler to run for the authorized identity"),
    }
}

#[test]
fn register_rejects_duplicate_names() {
    let mut reg = sample_registry();
    let r = reg.register(Command::new_default("play".to_string(), HandlerId::Voice));
    assert_eq!(r, Err(RegistryError::DuplicateCommand));
    // The original registration is untouched.
    let ctx = sample_context();
    let args = vec!["s".to_string()];
    match reg.dispatch("play", &ctx, &args, false) {
        DispatchOutcome::Invoked(acts) => {
            assert!(matches!(&acts[0], Action::PlaySound { .. }));
        },
        _ => panic!("expected the first registration to stand"),
    }
}

#[test]
fn resolve_finds_by_exact_name() {
    let reg = sample_registry();
    let c = reg.resolve("voice").expect("voice is registered");
    assert_eq!(c.get_name(), "voice");
    assert!(!c.is_permission_required());
    assert!(c.matches("voice"));
    assert!(!c.matches("voices"));
    assert!(reg.resolve("absent").is_none());
}

#[test]
fn voice_handler_joins_and_leaves() {
    let reg = sample_registry();
    let ctx = sample_context();
    match reg.dispatch("voice", &ctx, &vec!["join".to_string()], false) {
        DispatchOutcome::Invoked(acts) => {
            assert_eq!(acts.len(), 1);
            assert!(matches!(&acts[0], Action::JoinVoice { channel_id: 10 }));
        },
        _ => panic!("expected the voice handler to run"),
    }
    match reg.dispatch("voice", &ctx, &vec!["leave".to_string()], false) {
        DispatchOutcome::Invoked(acts) => {
            assert_eq!(acts.len(), 1);
            assert!(matches!(&acts[0], Action::LeaveVoice));
        },
        _ => panic!("expected the voice handler to run"),
    }
}

#[test]
fn handlers_without_arguments_do_nothing() {
    let reg = sample_registry();
    let ctx = sample_context();
    let none: Vec<String> = vec![];
    match reg.dispatch("play", &ctx, &none, false) {
        DispatchOutcome::Invoked(acts) => assert!(acts.is_empty()),
        _ => panic!("expected the handler to run and do nothing"),
    }
    match reg.dispatch("voice", &ctx, &vec!["dance".to_string()], false) {
        DispatchOutcome::Invoked(acts) => assert!(acts.is_empty()),
        _ => panic!("expected the handler to run and do nothing"),
    }
}

#[test]
fn invoke_runs_the_handler_directly() {
    let cmd = Command::new_default("play".to_string(), HandlerId::Play);
    let ctx = sample_context();
    let acts = cmd.invoke(&ctx, &vec!["b".to_string(), "c".to_string()]);
    assert_eq!(acts.len(), 1);
    match &acts[0] {
        Action::PlaySound { name } => assert_eq!(name, "b"),
        _ => panic!("expected a playback action"),
    }
}
