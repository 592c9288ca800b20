//! Classification: the reason-code taxonomy, its determinism, and the
//! flattening of events into recognition outputs.

use spx::engine::{
    Engine, EventData, HandleData, ResultData, CANCEL_CODE_NO_ERROR,
    NO_MATCH_INITIAL_SILENCE_TIMEOUT, REASON_CANCELED, REASON_NO_MATCH, REASON_RECOGNIZED_INTENT,
    REASON_RECOGNIZED_SPEECH, REASON_RECOGNIZING_SPEECH, REASON_TRANSLATED_SPEECH,
};
use spx::error::SpxError;
use spx::properties::{PROPERTY_JSON_ERROR_DETAILS, PROPERTY_LUIS_JSON_RESULT};
use spx::speech::events::{
    Event, Flags, Matching, CANCELED, CONNECTED, INTENT, NO_MATCH, RECOGNIZED, RECOGNIZING,
    SESSION_STARTED, SPEECH, SPEECH_START_DETECTED, TRANSLATION,
};

fn outcome(reason: u64) -> ResultData {
    let mut o = ResultData::empty();
    o.reason = reason;
    o
}

fn event_with(session: &str, outcome: Option<ResultData>) -> EventData {
    EventData {
        session: session.to_string(),
        offset_ticks: 0,
        outcome,
    }
}

#[test]
fn classification_is_idempotent_per_reason_code() {
    // Classifying the same reason code twice always yields the same mask.
    for reason in 0u64..12 {
        let a = Flags::from(reason);
        let b = Flags::from(reason);
        assert_eq!(a, b);
    }
}

#[test]
fn classification_table_is_exact() {
    assert_eq!(Flags::from(REASON_NO_MATCH).bits, NO_MATCH);
    assert_eq!(Flags::from(REASON_CANCELED).bits, CANCELED);
    assert_eq!(Flags::from(REASON_RECOGNIZING_SPEECH).bits, RECOGNIZING | SPEECH);
    assert_eq!(Flags::from(REASON_RECOGNIZED_SPEECH).bits, RECOGNIZED | SPEECH);
    assert_eq!(Flags::from(REASON_RECOGNIZED_INTENT).bits, RECOGNIZED | INTENT);
    assert_eq!(Flags::from(REASON_TRANSLATED_SPEECH).bits, RECOGNIZED | TRANSLATION);
    // An unknown code classifies to the empty set, never a fatal error.
    assert_eq!(Flags::from(77).bits, 0);
}

#[test]
fn no_match_reason_codes_read_as_their_variants() {
    assert_eq!(Matching::from(1u64), Matching::NotRecognized);
    assert_eq!(Matching::from(2u64), Matching::InitialSilenceTimeout);
    assert_eq!(Matching::from(3u64), Matching::InitialBabbleTimeout);
    assert_eq!(Matching::from(99u64), Matching::NotRecognized);
}

#[test]
fn envelope_categories_short_circuit_to_a_bare_envelope() {
    let mut engine = Engine::new();
    let h = engine
        .open_handle(HandleData::Event(event_with("sess-1", None)))
        .unwrap();
    let evt = Event::new(Flags::new(CONNECTED), h);
    let r = evt.into_result(&mut engine).unwrap();
    assert_eq!(r.flag.bits, CONNECTED);
    assert_eq!(r.session.as_str(), "sess-1");
    assert!(r.id.is_none());
    assert!(r.text.is_none());
    assert!(r.offset.is_none());

    let h2 = engine
        .open_handle(HandleData::Event(event_with("sess-1", None)))
        .unwrap();
    let evt2 = Event::new(Flags::new(SESSION_STARTED), h2);
    let r2 = evt2.into_result(&mut engine).unwrap();
    assert_eq!(r2.flag.bits, SESSION_STARTED);
    assert!(r2.reason.is_none());
}

#[test]
fn boundary_categories_attach_only_an_offset() {
    let mut engine = Engine::new();
    let mut data = event_with("sess-2", None);
    data.offset_ticks = 250;
    let h = engine.open_handle(HandleData::Event(data)).unwrap();
    let evt = Event::new(Flags::new(SPEECH_START_DETECTED), h);
    let r = evt.into_result(&mut engine).unwrap();
    // A tick is one hundred nanoseconds.
    assert_eq!(r.offset, Some(25000));
    assert!(r.text.is_none());
    assert!(r.id.is_none());
}

#[test]
fn recognized_speech_event_carries_text_duration_and_offset() {
    let mut engine = Engine::new();
    let mut o = outcome(REASON_RECOGNIZED_SPEECH);
    o.id = "r-1".to_string();
    o.text = "hello world".to_string();
    o.duration_ticks = 30;
    o.offset_ticks = 10;
    let h = engine
        .open_handle(HandleData::Event(event_with("sess-3", Some(o))))
        .unwrap();
    let evt = Event::new(Flags::new(RECOGNIZED), h);
    let r = evt.into_result(&mut engine).unwrap();
    assert_eq!(r.flag.bits, RECOGNIZED);
    assert_eq!(r.reason.unwrap().bits, RECOGNIZED | SPEECH);
    assert_eq!(r.id.unwrap().as_str(), "r-1");
    assert_eq!(r.text.unwrap().as_str(), "hello world");
    assert_eq!(r.duration, Some(3000));
    assert_eq!(r.offset, Some(1000));
    assert!(r.matching.is_none());
    assert!(r.translations.is_none());
}

#[test]
fn no_match_event_reports_its_reason_and_no_text() {
    let mut engine = Engine::new();
    let mut o = outcome(REASON_NO_MATCH);
    o.no_match_reason = NO_MATCH_INITIAL_SILENCE_TIMEOUT;
    let h = engine
        .open_handle(HandleData::Event(event_with("s", Some(o))))
        .unwrap();
    let evt = Event::new(Flags::new(RECOGNIZED), h);
    let r = evt.into_result(&mut engine).unwrap();
    assert_eq!(r.matching, Some(Matching::InitialSilenceTimeout));
    assert!(r.text.is_none());
}

#[test]
fn cancellation_with_no_error_is_a_bare_result() {
    let mut engine = Engine::new();
    let mut o = outcome(REASON_CANCELED);
    o.error_code = CANCEL_CODE_NO_ERROR;
    let h = engine
        .open_handle(HandleData::Event(event_with("s", Some(o))))
        .unwrap();
    let evt = Event::new(Flags::new(CANCELED), h);
    let r = evt.into_result(&mut engine).unwrap();
    assert!(r.text.is_none());
    assert!(r.id.is_some());
}

#[test]
fn cancellation_with_an_error_code_travels_the_error_channel() {
    let mut engine = Engine::new();
    let mut o = outcome(REASON_CANCELED);
    o.cancellation_reason = 1;
    o.error_code = 5;
    o.bag
        .by_id
        .push((PROPERTY_JSON_ERROR_DETAILS, "{\"why\":\"lost\"}".to_string()));
    let h = engine
        .open_handle(HandleData::Event(event_with("s", Some(o))))
        .unwrap();
    let evt = Event::new(Flags::new(CANCELED), h);
    match evt.into_result(&mut engine) {
        Err(SpxError::Cancellation(c)) => {
            assert_eq!(c.reason, 1);
            assert_eq!(c.code, 5);
            assert_eq!(c.details.as_str(), "{\"why\":\"lost\"}");
        }
        other => panic!("expected a cancellation, got {:?}", other),
    }
}

#[test]
fn intent_event_carries_intent_and_details() {
    let mut engine = Engine::new();
    let mut o = outcome(REASON_RECOGNIZED_INTENT);
    o.text = "turn it on".to_string();
    o.intent = "HomeAutomation.TurnOn".to_string();
    o.bag
        .by_id
        .push((PROPERTY_LUIS_JSON_RESULT, "{\"topScoringIntent\":1}".to_string()));
    let h = engine
        .open_handle(HandleData::Event(event_with("s", Some(o))))
        .unwrap();
    let evt = Event::new(Flags::new(RECOGNIZED), h);
    let r = evt.into_result(&mut engine).unwrap();
    assert_eq!(r.intent.unwrap().as_str(), "HomeAutomation.TurnOn");
    assert_eq!(r.matching, Some(Matching::Matched));
    assert_eq!(r.details.unwrap().as_str(), "{\"topScoringIntent\":1}");
    assert_eq!(r.text.unwrap().as_str(), "turn it on");
}

#[test]
fn intent_event_with_empty_intent_leaves_matching_unset() {
    let mut engine = Engine::new();
    let mut o = outcome(REASON_RECOGNIZED_INTENT);
    o.text = "mumble".to_string();
    let h = engine
        .open_handle(HandleData::Event(event_with("s", Some(o))))
        .unwrap();
    let evt = Event::new(Flags::new(RECOGNIZED), h);
    let r = evt.into_result(&mut engine).unwrap();
    assert!(r.intent.is_none());
    assert!(r.matching.is_none());
    assert_eq!(r.details.unwrap().as_str(), "");
}

#[test]
fn translation_event_carries_translations_and_synthesis() {
    let mut engine = Engine::new();
    let mut o = outcome(REASON_TRANSLATED_SPEECH);
    o.text = "hello".to_string();
    o.translations.push(("de".to_string(), "hallo".to_string()));
    o.translations.push(("fr".to_string(), "salut".to_string()));
    o.synthesis = vec![1, 2, 3];
    let h = engine
        .open_handle(HandleData::Event(event_with("s", Some(o))))
        .unwrap();
    let evt = Event::new(Flags::new(RECOGNIZED), h);
    let r = evt.into_result(&mut engine).unwrap();
    let t = r.translations.unwrap();
    assert_eq!(t.len(), 2);
    assert_eq!(t[0].0.as_str(), "de");
    assert_eq!(t[0].1.as_str(), "hallo");
    assert_eq!(r.synthesis.unwrap(), vec![1, 2, 3]);
}

#[test]
fn an_event_without_an_outcome_reports_no_result() {
    let mut engine = Engine::new();
    let h = engine
        .open_handle(HandleData::Event(event_with("s", None)))
        .unwrap();
    let evt = Event::new(Flags::new(RECOGNIZED), h);
    assert!(matches!(
        evt.into_result(&mut engine),
        Err(SpxError::ApiError(_))
    ));
}

#[test]
fn into_result_consumes_the_event_handle() {
    let mut engine = Engine::new();
    let h = engine
        .open_handle(HandleData::Event(event_with("s", None)))
        .unwrap();
    let evt = Event::new(Flags::new(CONNECTED), h);
    let _ = evt.into_result(&mut engine).unwrap();
    assert!(!engine.is_valid(h));
}

#[test]
fn text_only_projects_or_defaults_to_empty() {
    let mut engine = Engine::new();
    let mut o = outcome(REASON_RECOGNIZED_SPEECH);
    o.text = "words".to_string();
    let h = engine
        .open_handle(HandleData::Event(event_with("s", Some(o))))
        .unwrap();
    let r = Event::new(Flags::new(RECOGNIZED), h)
        .into_result(&mut engine)
        .unwrap();
    assert_eq!(r.text_only().as_str(), "words");

    let h2 = engine
        .open_handle(HandleData::Event(event_with("s", None)))
        .unwrap();
    let r2 = Event::new(Flags::new(CONNECTED), h2)
        .into_result(&mut engine)
        .unwrap();
    assert_eq!(r2.text_only().as_str(), "");
}

#[test]
fn intent_details_parse_to_the_json_value() {
    let mut engine = Engine::new();
    let mut o = outcome(REASON_RECOGNIZED_INTENT);
    o.intent = "TurnOn".to_string();
    o.bag
        .by_id
        .push((PROPERTY_LUIS_JSON_RESULT, "{\"score\": 0.5, \"q\": \"on\"}".to_string()));
    engine.push_outcome(o);
    let cfg = engine.open_handle(HandleData::Plain).unwrap();
    let s = engine.create_session(cfg, 0).unwrap();
    let h = engine.recognize_once(s).unwrap();
    let er = spx::speech::events::EventResult::from_handle(h, &mut engine).unwrap();

    let parsed = er.details_json(&engine).unwrap().unwrap();
    let expected: serde_json::Value =
        serde_json::from_str("{\"q\": \"on\", \"score\": 0.5}").unwrap();
    assert_eq!(parsed, expected);
}

#[test]
fn empty_or_broken_details_are_none_or_an_error() {
    let mut engine = Engine::new();
    engine.push_outcome(outcome(REASON_RECOGNIZED_INTENT));
    let cfg = engine.open_handle(HandleData::Plain).unwrap();
    let s = engine.create_session(cfg, 0).unwrap();
    let h = engine.recognize_once(s).unwrap();
    let er = spx::speech::events::EventResult::from_handle(h, &mut engine).unwrap();
    assert!(er.details_json(&engine).unwrap().is_none());

    let mut broken = outcome(REASON_RECOGNIZED_INTENT);
    broken
        .bag
        .by_id
        .push((PROPERTY_LUIS_JSON_RESULT, "{not json".to_string()));
    engine.push_outcome(broken);
    let h2 = engine.recognize_once(s).unwrap();
    let er2 = spx::speech::events::EventResult::from_handle(h2, &mut engine).unwrap();
    assert!(matches!(er2.details_json(&engine), Err(SpxError::Other(_))));
}

#[test]
fn flag_operations_behave_as_bit_operations() {
    let a = Flags::new(RECOGNIZED | SPEECH);
    assert!(a.contains(Flags::new(RECOGNIZED)));
    assert!(!a.contains(Flags::new(RECOGNIZED | INTENT)));
    assert!(a.intersects(Flags::new(RECOGNIZED | INTENT)));
    assert!(!a.intersects(Flags::new(INTENT)));
    assert_eq!(a.or(Flags::new(INTENT)).bits, RECOGNIZED | SPEECH | INTENT);
    assert!(Flags::empty().is_empty());
    assert_eq!(Flags::new(7).bits(), 7);
}
