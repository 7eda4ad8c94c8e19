use warp_tui::voice_input::{TuiVoiceInputEvent, TuiVoiceInputModel, TuiVoiceInputState};

#[test]
fn production_model_rejects_overlapping_sessions() {
    let mut events = Vec::new();
    let mut voice = TuiVoiceInputModel::new();
    assert!(voice.start(&mut events));
    assert!(!voice.start(&mut events));
    assert_eq!(voice.state(), TuiVoiceInputState::Listening);
    assert!(voice.stop(&mut events));
    assert!(!voice.stop(&mut events));
    assert_eq!(voice.state(), TuiVoiceInputState::Transcribing);
}

#[test]
fn stale_completion_cannot_mutate_a_later_session() {
    let mut events = Vec::new();
    let mut voice = TuiVoiceInputModel::new();
    assert!(voice.start(&mut events));
    let first_generation = voice.generation();
    assert!(voice.stop(&mut events));
    assert!(voice.complete(first_generation, "hello".to_owned(), &mut events));

    assert!(voice.start(&mut events));
    let second_generation = voice.generation();
    assert_ne!(first_generation, second_generation);
    assert!(voice.stop(&mut events));
    assert!(!voice.complete(first_generation, "stale".to_owned(), &mut events));
    assert!(!voice.fail(first_generation, "stale".to_owned(), &mut events));
    assert_eq!(voice.state(), TuiVoiceInputState::Transcribing);
}

#[test]
fn cancellation_and_failure_return_to_idle() {
    let mut events = Vec::new();
    let mut voice = TuiVoiceInputModel::new();
    assert!(voice.start(&mut events));
    assert!(voice.stop(&mut events));
    assert!(voice.cancel(&mut events));
    assert_eq!(voice.state(), TuiVoiceInputState::Idle);

    assert!(voice.start(&mut events));
    let generation = voice.generation();
    assert!(voice.stop(&mut events));
    assert!(voice.fail(generation, "failed".to_owned(), &mut events));
    assert_eq!(voice.state(), TuiVoiceInputState::Idle);
}

#[test]
fn accepted_transitions_announce_the_new_phase() {
    let mut events = Vec::new();
    let mut voice = TuiVoiceInputModel::new();
    assert!(voice.start(&mut events));
    let generation = voice.generation();
    assert!(voice.stop(&mut events));
    assert!(voice.complete(generation, "hello".to_owned(), &mut events));
    assert_eq!(
        events,
        vec![
            TuiVoiceInputEvent::StateChanged(TuiVoiceInputState::Listening),
            TuiVoiceInputEvent::StateChanged(TuiVoiceInputState::Transcribing),
            TuiVoiceInputEvent::Completed { generation, text: "hello".to_owned() },
            TuiVoiceInputEvent::StateChanged(TuiVoiceInputState::Idle),
        ]
    );
}

#[test]
fn refused_requests_announce_nothing() {
    let mut events = Vec::new();
    let mut voice = TuiVoiceInputModel::new();
    assert!(!voice.stop(&mut events));
    assert!(!voice.cancel(&mut events));
    assert!(!voice.complete(0, "early".to_owned(), &mut events));
    assert!(!voice.fail(0, "early".to_owned(), &mut events));
    assert!(events.is_empty());

    assert!(voice.start(&mut events));
    let generation = voice.generation();
    assert!(!voice.start(&mut events));
    assert!(!voice.complete(generation, "too early".to_owned(), &mut events));
    assert_eq!(events, vec![TuiVoiceInputEvent::StateChanged(TuiVoiceInputState::Listening)]);
}

#[test]
fn failure_is_announced_with_its_hint() {
    let mut events = Vec::new();
    let mut voice = TuiVoiceInputModel::new();
    assert!(voice.start(&mut events));
    let generation = voice.generation();
    assert!(voice.is_active());
    assert!(!voice.is_transcribing_generation(generation));
    assert!(voice.stop(&mut events));
    assert!(voice.is_transcribing_generation(generation));
    assert!(!voice.is_transcribing_generation(generation + 1));
    events.clear();
    assert!(voice.fail(generation, "microphone busy".to_owned(), &mut events));
    assert!(!voice.is_active());
    assert_eq!(
        events,
        vec![
            TuiVoiceInputEvent::Failed { generation, hint: "microphone busy".to_owned() },
            TuiVoiceInputEvent::StateChanged(TuiVoiceInputState::Idle),
        ]
    );
}
