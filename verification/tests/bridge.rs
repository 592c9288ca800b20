//! The callback bridge and the event stream: filtering, termination
//! priority, and late-callback safety.

use spx::engine::{Engine, EventData, HandleData};
use spx::speech::events::{
    Flags, CANCELED, RECOGNIZED, RECOGNIZING, SESSION, SESSION_STOPPED, SPEECH,
};
use spx::speech::recognizer::{fire_on_event, raise_event, Polled, Recognizer};

fn session(engine: &mut Engine) -> Recognizer {
    let cfg = engine.open_handle(HandleData::Plain).unwrap();
    let h = engine.create_session(cfg, 0).unwrap();
    Recognizer::new(h, None, Flags::empty(), 1000)
}

fn plain_event(session_id: &str) -> EventData {
    EventData {
        session: session_id.to_string(),
        offset_ticks: 0,
        outcome: None,
    }
}

#[test]
fn streaming_filter_yields_exactly_the_matching_subsequence() {
    // Starting with filter = {recognized}, the sequence
    // [recognizing, recognizing, recognized, session-stopped] yields exactly
    // one item (the recognized one) followed by stream end.
    let mut engine = Engine::new();
    let cfg = engine.open_handle(HandleData::Plain).unwrap();
    let h = engine.create_session(cfg, 0).unwrap();
    let mut reco = Recognizer::new(h, None, Flags::new(RECOGNIZING | RECOGNIZED), 1000);
    let wide = reco.start(&mut engine).unwrap();
    let mut stream = wide.set_filter(Flags::new(RECOGNIZED));
    let owner = reco.handle;

    raise_event(&mut engine, owner, Flags::new(RECOGNIZING), plain_event("s1")).unwrap();
    raise_event(&mut engine, owner, Flags::new(RECOGNIZING), plain_event("s1")).unwrap();
    raise_event(&mut engine, owner, Flags::new(RECOGNIZED), plain_event("s1")).unwrap();
    raise_event(&mut engine, owner, Flags::new(SESSION_STOPPED), plain_event("s1")).unwrap();

    match stream.poll(&mut engine) {
        Polled::Item(evt) => assert_eq!(evt.flag.bits, RECOGNIZED),
        _ => panic!("expected the recognized event"),
    }
    assert!(matches!(stream.poll(&mut engine), Polled::Done));
    assert!(matches!(stream.poll(&mut engine), Polled::Done));
}

#[test]
fn filter_keeps_original_order() {
    let mut engine = Engine::new();
    let mut reco = session(&mut engine);
    let mut stream = reco
        .start_flags(&mut engine, Flags::new(RECOGNIZING | RECOGNIZED))
        .unwrap();
    let owner = reco.handle;

    raise_event(&mut engine, owner, Flags::new(RECOGNIZING), plain_event("a")).unwrap();
    raise_event(&mut engine, owner, Flags::new(RECOGNIZED), plain_event("b")).unwrap();
    raise_event(&mut engine, owner, Flags::new(RECOGNIZING), plain_event("c")).unwrap();

    let mut seen = Vec::new();
    loop {
        match stream.poll(&mut engine) {
            Polled::Item(evt) => seen.push(evt.flag.bits),
            Polled::Pending => break,
            Polled::Done => break,
        }
    }
    assert_eq!(seen, vec![RECOGNIZING, RECOGNIZED, RECOGNIZING]);
}

#[test]
fn termination_takes_priority_over_buffered_events() {
    // Once a session-stopped event is observed, the next poll reports the
    // end even though a filtered event is still buffered behind it.
    let mut engine = Engine::new();
    let cfg = engine.open_handle(HandleData::Plain).unwrap();
    let h = engine.create_session(cfg, 0).unwrap();
    let mut reco = Recognizer::new(h, None, Flags::new(RECOGNIZED), 1000);
    let wide = reco.start(&mut engine).unwrap();
    let mut stream = wide.set_filter(Flags::new(RECOGNIZED));
    let owner = reco.handle;

    raise_event(&mut engine, owner, Flags::new(RECOGNIZED), plain_event("s")).unwrap();
    raise_event(&mut engine, owner, Flags::new(SESSION_STOPPED), plain_event("s")).unwrap();
    raise_event(&mut engine, owner, Flags::new(RECOGNIZED), plain_event("s")).unwrap();

    assert!(matches!(stream.poll(&mut engine), Polled::Item(_)));
    assert!(matches!(stream.poll(&mut engine), Polled::Done));
    assert!(matches!(stream.poll(&mut engine), Polled::Done));
}

#[test]
fn stopped_event_itself_is_yielded_when_it_passes_the_filter() {
    let mut engine = Engine::new();
    let mut reco = session(&mut engine);
    let mut stream = reco
        .start_flags(&mut engine, Flags::new(SESSION | CANCELED))
        .unwrap();
    let owner = reco.handle;

    raise_event(&mut engine, owner, Flags::new(SESSION_STOPPED), plain_event("s")).unwrap();
    match stream.poll(&mut engine) {
        Polled::Item(evt) => assert_eq!(evt.flag.bits, SESSION_STOPPED),
        _ => panic!("the stopping event passes the session filter"),
    }
    assert!(matches!(stream.poll(&mut engine), Polled::Done));
}

#[test]
fn empty_queue_is_pending_while_the_sender_lives() {
    let mut engine = Engine::new();
    let mut reco = session(&mut engine);
    let mut stream = reco.start_flags(&mut engine, Flags::new(RECOGNIZED)).unwrap();
    assert!(matches!(stream.poll(&mut engine), Polled::Pending));
    reco.stop(&mut engine).unwrap();
    assert!(matches!(stream.poll(&mut engine), Polled::Done));
}

#[test]
fn late_callback_after_teardown_is_silently_discarded() {
    // A fake engine invoking the trampoline after the strong sender has
    // been dropped must not panic; the event is dropped.
    let mut engine = Engine::new();
    let mut reco = session(&mut engine);
    let mut stream = reco.start_flags(&mut engine, Flags::new(RECOGNIZED)).unwrap();
    let token = stream.token;
    reco.stop(&mut engine).unwrap();

    let hevent = engine
        .open_handle(HandleData::Event(plain_event("late")))
        .unwrap();
    fire_on_event(&mut engine, Flags::new(RECOGNIZED), hevent, token);
    // Nothing was queued, and the discarded event handle was released.
    assert!(matches!(stream.poll(&mut engine), Polled::Done));
    assert!(!engine.is_valid(hevent));
}

#[test]
fn late_callback_with_unknown_context_is_ignored() {
    let mut engine = Engine::new();
    let hevent = engine
        .open_handle(HandleData::Event(plain_event("stray")))
        .unwrap();
    fire_on_event(&mut engine, Flags::new(RECOGNIZED), hevent, 999);
    assert!(!engine.is_valid(hevent));
}

#[test]
fn events_queued_before_stop_stay_readable() {
    let mut engine = Engine::new();
    let mut reco = session(&mut engine);
    let mut stream = reco.start_flags(&mut engine, Flags::new(RECOGNIZED)).unwrap();
    let owner = reco.handle;
    raise_event(&mut engine, owner, Flags::new(RECOGNIZED), plain_event("s")).unwrap();
    reco.stop(&mut engine).unwrap();
    assert!(matches!(stream.poll(&mut engine), Polled::Item(_)));
    assert!(matches!(stream.poll(&mut engine), Polled::Done));
}

#[test]
fn start_twice_is_already_exists() {
    let mut engine = Engine::new();
    let mut reco = session(&mut engine);
    let _stream = reco.start(&mut engine).unwrap();
    assert!(matches!(
        reco.start(&mut engine),
        Err(spx::error::SpxError::AlreadyExists)
    ));
}

#[test]
fn default_start_always_registers_session_and_cancellation() {
    let mut engine = Engine::new();
    let mut reco = session(&mut engine);
    let stream = reco.start(&mut engine).unwrap();
    assert_eq!(stream.filter.bits & SESSION, SESSION);
    assert_eq!(stream.filter.bits & CANCELED, CANCELED);
    assert_eq!(stream.terminal.bits, SESSION_STOPPED);
}

#[test]
fn set_filter_narrows_the_stream() {
    let mut engine = Engine::new();
    let mut reco = session(&mut engine);
    let stream = reco
        .start_flags(&mut engine, Flags::new(RECOGNIZING | RECOGNIZED | SPEECH))
        .unwrap();
    let mut narrowed = stream.set_filter(Flags::new(RECOGNIZED));
    let owner = reco.handle;
    raise_event(&mut engine, owner, Flags::new(RECOGNIZING), plain_event("s")).unwrap();
    raise_event(&mut engine, owner, Flags::new(RECOGNIZED), plain_event("s")).unwrap();
    match narrowed.poll(&mut engine) {
        Polled::Item(evt) => assert_eq!(evt.flag.bits, RECOGNIZED),
        _ => panic!("only the recognized event passes"),
    }
}

#[test]
fn event_not_delivered_without_registration() {
    let mut engine = Engine::new();
    let mut reco = session(&mut engine);
    let mut stream = reco.start_flags(&mut engine, Flags::new(RECOGNIZED)).unwrap();
    let owner = reco.handle;
    // The translation category was never registered by this session.
    let delivered = raise_event(
        &mut engine,
        owner,
        Flags::new(spx::speech::events::TRANSLATION),
        plain_event("s"),
    )
    .unwrap();
    assert!(!delivered);
    assert!(matches!(stream.poll(&mut engine), Polled::Pending));
}
