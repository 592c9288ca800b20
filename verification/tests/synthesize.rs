//! Synthesizer sessions: texts reach the engine, one-shot outcomes come
//! back classified, and the stream terminates at session stop or
//! cancellation.

use spx::engine::{
    Engine, EventData, HandleData, ResultData, REASON_SYNTHESIZING_AUDIO_COMPLETE,
};
use spx::error::SpxError;
use spx::speech::audio::{Audio, AudioSpec};
use spx::speech::events::{Flags, CANCELED, RECOGNIZED, SESSION_STOPPED, SYNTHESIS};
use spx::speech::recognizer::{raise_event, Polled};
use spx::speech::synthesizer::Synthesizer;

fn synthesizer(engine: &mut Engine) -> Synthesizer {
    let cfg = engine.open_handle(HandleData::Plain).unwrap();
    let h = engine.create_session(cfg, 0).unwrap();
    let audio = Audio::create_push_output(&AudioSpec::default(), engine).unwrap();
    Synthesizer::new(h, audio, Flags::empty(), engine).unwrap()
}

#[test]
fn synthesize_hands_the_text_to_the_engine() {
    let mut engine = Engine::new();
    let mut synth = synthesizer(&mut engine);
    synth.synthesize(&mut engine, "good morning").unwrap();
    synth.ssml_synthesis(&mut engine, "<speak>hi</speak>").unwrap();
    synth.start_synthesize(&mut engine, "later").unwrap();
    synth.start_ssml_synthesis(&mut engine, "<speak>x</speak>").unwrap();
    let spoken: Vec<&str> = engine.spoken.iter().map(|s| s.as_str()).collect();
    assert_eq!(
        spoken,
        vec!["good morning", "<speak>hi</speak>", "later", "<speak>x</speak>"]
    );
}

#[test]
fn synthesis_once_classifies_the_scripted_outcome() {
    let mut engine = Engine::new();
    let mut synth = synthesizer(&mut engine);
    let mut o = ResultData::empty();
    o.reason = REASON_SYNTHESIZING_AUDIO_COMPLETE;
    o.synthesis = vec![42, 43];
    engine.push_outcome(o);
    let er = synth.synthesis_once(&mut engine, "say this").unwrap();
    assert_eq!(er.reason.bits, RECOGNIZED | SYNTHESIS);
    assert_eq!(er.synthesis_data_length(&engine).unwrap(), 2);
    assert_eq!(er.synthesis(&mut engine).unwrap(), vec![42, 43]);
    assert_eq!(engine.spoken.len(), 1);
}

#[test]
fn synthesis_refuses_nul_text() {
    let mut engine = Engine::new();
    let mut synth = synthesizer(&mut engine);
    assert!(matches!(
        synth.synthesize(&mut engine, "bad\0text"),
        Err(SpxError::IsNull)
    ));
    assert!(engine.spoken.is_empty());
}

#[test]
fn synthesizer_stream_terminates_at_cancellation() {
    let mut engine = Engine::new();
    let mut synth = synthesizer(&mut engine);
    let mut stream = synth.start(&mut engine).unwrap();
    assert_eq!(stream.terminal.bits, SESSION_STOPPED | CANCELED);
    let owner = synth.handle;
    raise_event(
        &mut engine,
        owner,
        Flags::new(CANCELED),
        EventData {
            session: "s".to_string(),
            offset_ticks: 0,
            outcome: None,
        },
    )
    .unwrap();
    match stream.poll(&mut engine) {
        Polled::Item(evt) => assert_eq!(evt.flag.bits, CANCELED),
        _ => panic!("the canceled event passes the default filter"),
    }
    assert!(matches!(stream.poll(&mut engine), Polled::Done));
}

#[test]
fn synthesizer_stream_terminates_at_session_stopped_too() {
    let mut engine = Engine::new();
    let mut synth = synthesizer(&mut engine);
    let wide = synth.start(&mut engine).unwrap();
    let mut stream = wide.set_filter(Flags::new(RECOGNIZED));
    let owner = synth.handle;
    // The session-stop notification arrives on the session-started
    // registration's category set; raise it directly as its own category.
    engine.set_callback(owner, SESSION_STOPPED, stream.token).unwrap();
    raise_event(
        &mut engine,
        owner,
        Flags::new(SESSION_STOPPED),
        EventData {
            session: "s".to_string(),
            offset_ticks: 0,
            outcome: None,
        },
    )
    .unwrap();
    // The stop event does not pass the narrowed filter, but it latches the
    // stream shut all the same.
    assert!(matches!(stream.poll(&mut engine), Polled::Done));
}

#[test]
fn synthesizer_start_twice_is_already_exists() {
    let mut engine = Engine::new();
    let mut synth = synthesizer(&mut engine);
    let _s = synth.start(&mut engine).unwrap();
    assert!(matches!(
        synth.start(&mut engine),
        Err(SpxError::AlreadyExists)
    ));
    synth.stop(&mut engine).unwrap();
    assert!(!synth.started());
}

#[test]
fn synthesizer_audio_round_trips_through_the_stream() {
    let mut engine = Engine::new();
    let mut synth = synthesizer(&mut engine);
    match &mut synth.audio.stream {
        Some(spx::speech::audio::AnyAudioStream::PushOutput(s)) => {
            s.on_stream_write(vec![7, 8, 9]);
        }
        _ => panic!("a push output stream backs this synthesizer"),
    }
    assert_eq!(synth.read_stream(&mut engine, 2).unwrap(), vec![7, 8]);
    assert_eq!(synth.read_stream(&mut engine, 2).unwrap(), vec![9]);
}

#[test]
fn ticks_convert_to_nanoseconds() {
    assert_eq!(spx::speech::events::ticks_to_nanos(0), 0);
    assert_eq!(spx::speech::events::ticks_to_nanos(1), 100);
    assert_eq!(spx::speech::events::ticks_to_nanos(123), 12300);
    assert_eq!(
        spx::speech::events::ticks_to_nanos(u64::MAX),
        (u64::MAX as u128) * 100
    );
}
