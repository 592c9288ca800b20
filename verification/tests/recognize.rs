//! One-shot recognition scenarios, on both surfaces.

use spx::asr;
use spx::engine::{
    Engine, HandleData, ResultData, CANCEL_CODE_AUTHENTICATION_FAILURE, CANCEL_REASON_ERROR,
    ERR_NO_RESULT, REASON_CANCELED, REASON_NO_MATCH, REASON_RECOGNIZED_SPEECH,
};
use spx::error::SpxError;
use spx::properties::PROPERTY_JSON_ERROR_DETAILS;
use spx::speech::events::Flags;
use spx::speech::recognizer::Recognizer;

fn session(engine: &mut Engine) -> Recognizer {
    let cfg = engine.open_handle(HandleData::Plain).unwrap();
    let h = engine.create_session(cfg, 0).unwrap();
    Recognizer::new(h, None, Flags::empty(), 1000)
}

fn recognized(text: &str) -> ResultData {
    let mut o = ResultData::empty();
    o.reason = REASON_RECOGNIZED_SPEECH;
    o.text = text.to_string();
    o
}

#[test]
fn one_shot_success_returns_the_text() {
    // Given a foreign call returning reason recognized-speech and text
    // "hello world", recognize returns Ok("hello world").
    let mut engine = Engine::new();
    let reco = session(&mut engine);
    engine.push_outcome(recognized("hello world"));
    let r = reco.recognize(&mut engine).unwrap();
    assert_eq!(r.as_str(), "hello world");
}

#[test]
fn one_shot_cancellation_surfaces_the_error_code() {
    // A canceled outcome with the authentication-failure error code comes
    // back through the error channel with its code and details.
    let mut engine = Engine::new();
    let reco = session(&mut engine);
    let mut o = ResultData::empty();
    o.reason = REASON_CANCELED;
    o.cancellation_reason = CANCEL_REASON_ERROR;
    o.error_code = CANCEL_CODE_AUTHENTICATION_FAILURE;
    o.bag
        .by_id
        .push((PROPERTY_JSON_ERROR_DETAILS, "{\"code\":401}".to_string()));
    engine.push_outcome(o);
    match reco.recognize(&mut engine) {
        Err(SpxError::Cancellation(c)) => {
            assert_eq!(c.code, CANCEL_CODE_AUTHENTICATION_FAILURE);
            assert_eq!(c.reason, CANCEL_REASON_ERROR);
            assert_eq!(c.details.as_str(), "{\"code\":401}");
        }
        other => panic!("expected a cancellation, got {:?}", other),
    }
}

#[test]
fn one_shot_no_match_classifies_through_the_error_channel() {
    let mut engine = Engine::new();
    let reco = session(&mut engine);
    let mut o = ResultData::empty();
    o.reason = REASON_NO_MATCH;
    o.no_match_reason = 2;
    engine.push_outcome(o);
    match reco.recognize(&mut engine) {
        Err(SpxError::NoMatch(n)) => assert_eq!(
            n.reason,
            spx::speech::events::Matching::InitialSilenceTimeout
        ),
        other => panic!("expected the classified no-match, got {:?}", other),
    }
}

#[test]
fn one_shot_unhandled_reason_is_unknown() {
    let mut engine = Engine::new();
    let reco = session(&mut engine);
    let mut o = ResultData::empty();
    o.reason = 77;
    engine.push_outcome(o);
    assert!(matches!(reco.recognize(&mut engine), Err(SpxError::Unknown)));
}

#[test]
fn one_shot_without_an_outcome_reports_no_result() {
    let mut engine = Engine::new();
    let reco = session(&mut engine);
    assert!(matches!(
        reco.recognize(&mut engine),
        Err(SpxError::ApiError(code)) if code == ERR_NO_RESULT
    ));
}

#[test]
fn outcomes_are_consumed_in_order() {
    let mut engine = Engine::new();
    let reco = session(&mut engine);
    engine.push_outcome(recognized("first"));
    engine.push_outcome(recognized("second"));
    assert_eq!(reco.recognize(&mut engine).unwrap().as_str(), "first");
    assert_eq!(reco.recognize(&mut engine).unwrap().as_str(), "second");
}

#[test]
fn early_surface_recognize_returns_text_for_recognized_speech() {
    let mut engine = Engine::new();
    let config = asr::RecognizerConfig::from_subscription("key", "westus", &mut engine).unwrap();
    let audio = spx::audio::AudioInput::new();
    let reco = asr::Recognizer::from_config(config, audio, &mut engine).unwrap();
    engine.push_outcome(recognized("guten Tag"));
    assert_eq!(reco.recognize(&mut engine).unwrap().as_str(), "guten Tag");
}

#[test]
fn early_surface_recognize_is_unknown_for_other_reasons() {
    let mut engine = Engine::new();
    let config = asr::RecognizerConfig::from_subscription("key", "westus", &mut engine).unwrap();
    let reco =
        asr::Recognizer::from_config(config, spx::audio::AudioInput::new(), &mut engine).unwrap();
    let mut o = ResultData::empty();
    o.reason = REASON_CANCELED;
    engine.push_outcome(o);
    assert!(matches!(reco.recognize(&mut engine), Err(SpxError::Unknown)));
}

#[test]
fn early_surface_recognize_classifies_no_match() {
    let mut engine = Engine::new();
    let config = asr::RecognizerConfig::from_subscription("key", "westus", &mut engine).unwrap();
    let reco =
        asr::Recognizer::from_config(config, spx::audio::AudioInput::new(), &mut engine).unwrap();
    let mut o = ResultData::empty();
    o.reason = REASON_NO_MATCH;
    o.no_match_reason = 1;
    engine.push_outcome(o);
    match reco.recognize(&mut engine) {
        Err(SpxError::NoMatch(n)) => {
            assert_eq!(n.reason, spx::speech::events::Matching::NotRecognized)
        }
        other => panic!("expected the classified no-match, got {:?}", other),
    }
}

#[test]
fn cached_result_reads_fetch_once_and_stick() {
    let mut engine = Engine::new();
    let mut o = recognized("cached text");
    o.id = "id-9".to_string();
    o.duration_ticks = 50;
    o.offset_ticks = 20;
    engine.push_outcome(o);
    let cfg = engine.open_handle(HandleData::Plain).unwrap();
    let s = engine.create_session(cfg, 0).unwrap();
    let hres = engine.recognize_once(s).unwrap();
    let mut rr = asr::RecognitionResult::new(hres);
    assert_eq!(rr.reason(&engine).unwrap(), REASON_RECOGNIZED_SPEECH);
    assert_eq!(rr.text(&engine).unwrap().as_str(), "cached text");
    assert_eq!(rr.id(&engine).unwrap().as_str(), "id-9");
    assert_eq!(rr.duration(&engine).unwrap(), 5000);
    assert_eq!(rr.offset(&engine).unwrap(), 2000);
    // Cached values survive even after the handle dies.
    engine.release_handle(hres);
    assert_eq!(rr.text(&engine).unwrap().as_str(), "cached text");
}

#[test]
fn pause_and_resume_toggle_delivery() {
    let mut engine = Engine::new();
    let reco = session(&mut engine);
    reco.pause(&mut engine).unwrap();
    // The session stays live; only delivery is disabled.
    assert!(engine.is_valid(reco.handle));
    reco.resume(&mut engine).unwrap();
    assert!(engine.is_valid(reco.handle));
    // Pausing a dead handle is the engine's invalid-handle error.
    engine.release_handle(reco.handle);
    assert!(matches!(
        reco.pause(&mut engine),
        Err(SpxError::ApiError(_))
    ));
}

#[test]
fn write_stream_without_a_stream_is_nothing() {
    let mut engine = Engine::new();
    let mut reco = session(&mut engine);
    assert!(matches!(
        reco.write_stream(&mut engine, &[1, 2, 3]),
        Err(SpxError::IsNothing)
    ));
    assert!(matches!(
        reco.close_stream(&mut engine),
        Err(SpxError::IsNothing)
    ));
}

#[test]
fn add_intent_checks_its_inputs() {
    let mut engine = Engine::new();
    let reco = session(&mut engine);
    let model = spx::speech::recognizer::Model::from_app_id("app", &mut engine).unwrap();
    let trigger =
        spx::speech::recognizer::IntentTrigger::from_model(&model, "TurnOn", &mut engine).unwrap();
    reco.add_intent(&mut engine, "TurnOn", &trigger).unwrap();
    assert!(matches!(
        reco.add_intent(&mut engine, "bad\0id", &trigger),
        Err(SpxError::IsNull)
    ));
    assert!(matches!(
        spx::speech::recognizer::IntentTrigger::from_phrase("ph\0rase", &mut engine),
        Err(SpxError::IsNull)
    ));
}
