//! Configuration and builders: connection properties, proxy settings, and
//! the generated sessions.

use spx::asr;
use spx::engine::Engine;
use spx::error::SpxError;
use spx::properties::{
    PropertyBag, PROPERTY_CONNECTION_KEY, PROPERTY_CONNECTION_REGION, PROPERTY_PROXY_PORT,
    PROPERTY_TRANSLATION_TO_LANGUAGES,
};
use spx::speech::builder::{ProxyConfig, RecognizerConfig};
use spx::speech::events::{INTENT, SPEECH, TRANSLATION};

#[test]
fn from_subscription_stores_key_and_region() {
    let mut engine = Engine::new();
    let cfg = RecognizerConfig::from_subscription("SECRET-REDACTED", "westus", &mut engine).unwrap();
    assert_eq!(
        cfg.get_by_id(&engine, PROPERTY_CONNECTION_KEY).unwrap().as_str(),
        "SECRET-REDACTED"
    );
    assert_eq!(
        cfg.get_by_id(&engine, PROPERTY_CONNECTION_REGION).unwrap().as_str(),
        "westus"
    );
}

#[test]
fn generated_recognizers_carry_their_modality() {
    let mut engine = Engine::new();
    let cfg = RecognizerConfig::from_subscription("k", "r", &mut engine).unwrap();
    let speech = cfg.recognizer(&mut engine).unwrap();
    assert_eq!(speech.flags.bits & SPEECH, SPEECH);
    let intent = cfg.intent_recognizer(&mut engine).unwrap();
    assert_eq!(intent.flags.bits & INTENT, INTENT);
    let translator = cfg.translator(&mut engine).unwrap();
    assert_eq!(translator.flags.bits & TRANSLATION, TRANSLATION);
}

#[test]
fn translator_applies_the_joined_target_languages() {
    let mut engine = Engine::new();
    let mut cfg = RecognizerConfig::from_subscription("k", "r", &mut engine).unwrap();
    cfg.add_target_language("de").unwrap();
    cfg.add_target_language("fr").unwrap();
    cfg.add_target_language("ja").unwrap();
    let _translator = cfg.translator(&mut engine).unwrap();
    assert_eq!(
        cfg.get_by_id(&engine, PROPERTY_TRANSLATION_TO_LANGUAGES).unwrap().as_str(),
        "de,fr,ja"
    );
}

#[test]
fn proxy_settings_land_as_four_properties() {
    let mut engine = Engine::new();
    let mut cfg = RecognizerConfig::from_subscription("k", "r", &mut engine).unwrap();
    let proxy = ProxyConfig::new(
        "proxy.example".to_string(),
        8080,
        "user".to_string(),
        "SECRET-REDACTED".to_string(),
    );
    cfg.put_proxy(&mut engine, &proxy).unwrap();
    assert_eq!(
        cfg.get_by_id(&engine, PROPERTY_PROXY_PORT).unwrap().as_str(),
        "8080"
    );
}

#[test]
fn simple_setters_round_trip() {
    let mut engine = Engine::new();
    let mut cfg = RecognizerConfig::from_subscription("k", "r", &mut engine).unwrap();
    cfg.set_pull_mode(true);
    assert!(cfg.pull_mode());
    cfg.set_timeout(250);
    assert_eq!(cfg.timeout(), 250);
    cfg.set_audio_file_path("take.wav");
    assert_eq!(cfg.audio_file_path().as_str(), "take.wav");
    cfg.set_model_id("app-1");
    assert_eq!(cfg.model_id().as_str(), "app-1");
    let spec = spx::speech::audio::AudioSpec::default();
    cfg.set_audio_config(spec);
    assert_eq!(cfg.audio_config(), Some(spec));
    cfg.set_audio(spec);
    assert_eq!(cfg.audio(), Some(spec));
    cfg.add_intent("TurnOn").unwrap();
    assert_eq!(cfg.intents().len(), 1);
    cfg.put_language(&mut engine, "en-US").unwrap();
    assert_eq!(cfg.language(&engine).unwrap().as_str(), "en-US");
    cfg.put_voice_name(&mut engine, "alto").unwrap();
    assert_eq!(cfg.voice_name(&engine).unwrap().as_str(), "alto");
    cfg.put_endpoint(&mut engine, "ep-7").unwrap();
    assert_eq!(cfg.endpoint(&engine).unwrap().as_str(), "ep-7");
    cfg.put_detailed_result(&mut engine, "true").unwrap();
    assert_eq!(cfg.detailed_result(&engine).unwrap().as_str(), "true");
    cfg.put_translation_features(&mut engine, "tts").unwrap();
    assert_eq!(cfg.translation_features(&engine).unwrap().as_str(), "tts");
}

#[test]
fn intent_recognizer_applies_configured_phrases() {
    let mut engine = Engine::new();
    let mut cfg = RecognizerConfig::from_subscription("k", "r", &mut engine).unwrap();
    cfg.add_intent("start").unwrap();
    cfg.add_intent("stop").unwrap();
    assert!(cfg.intent_recognizer(&mut engine).is_ok());
    // A phrase with an interior nul is refused while applying.
    cfg.add_intent("bro\0ken").unwrap();
    assert!(matches!(
        cfg.intent_recognizer(&mut engine),
        Err(SpxError::IsNull)
    ));
}

#[test]
fn early_surface_config_accessors_round_trip() {
    let mut engine = Engine::new();
    let cfg = asr::RecognizerConfig::from_subscription("key-1", "westus2", &mut engine).unwrap();
    assert_eq!(cfg.subscription_key(&engine).unwrap().as_str(), "key-1");
    assert_eq!(cfg.region(&engine).unwrap().as_str(), "westus2");
    cfg.set_language(&mut engine, "fr-FR").unwrap();
    assert_eq!(cfg.language(&engine).unwrap().as_str(), "fr-FR");
    cfg.set_endpoint_id(&mut engine, "e-1").unwrap();
    assert_eq!(cfg.endpoint_id(&engine).unwrap().as_str(), "e-1");
    cfg.set_authorization_token(&mut engine, "tok").unwrap();
    assert_eq!(cfg.authorization_token(&engine).unwrap().as_str(), "tok");
    cfg.set_region(&mut engine, "eastus").unwrap();
    assert_eq!(cfg.region(&engine).unwrap().as_str(), "eastus");
    cfg.set_subscription_key(&mut engine, "key-2").unwrap();
    assert_eq!(cfg.subscription_key(&engine).unwrap().as_str(), "key-2");

    assert!(!cfg.detailed_result(&engine).unwrap());
    cfg.set_detailed_result(&mut engine, true).unwrap();
    assert!(cfg.detailed_result(&engine).unwrap());
    cfg.set_detailed_result(&mut engine, false).unwrap();
    assert!(!cfg.detailed_result(&engine).unwrap());

    let proxy = asr::ProxyConfig {
        host_name: "p".to_string(),
        port: 3128,
        user_name: "u".to_string(),
        password: "SECRET-REDACTED".to_string(),
    };
    cfg.set_proxy(&mut engine, &proxy).unwrap();
    assert_eq!(
        cfg.get_by_id(&engine, PROPERTY_PROXY_PORT).unwrap().as_str(),
        "3128"
    );
}

#[test]
fn builder_collects_and_applies_its_table() {
    let mut engine = Engine::new();
    let builder = asr::Builder::new()
        .subscription_key("key-b")
        .region("region-b")
        .language("it-IT")
        .audio_file_path("in.wav");
    let cfg = builder.create_config(&mut engine).unwrap();
    assert_eq!(cfg.subscription_key(&engine).unwrap().as_str(), "key-b");
    assert_eq!(cfg.region(&engine).unwrap().as_str(), "region-b");
    assert_eq!(cfg.language(&engine).unwrap().as_str(), "it-IT");
    let reco = builder.create_recognizer(&mut engine).unwrap();
    assert!(engine.is_valid(reco.handle));
    assert_eq!(reco.config().subscription_key(&engine).unwrap().as_str(), "key-b");
    assert_eq!(reco.audio().stream.is_none(), true);
}

#[test]
fn nul_bytes_in_connection_values_are_refused() {
    let mut engine = Engine::new();
    assert!(matches!(
        RecognizerConfig::from_subscription("k\0", "r", &mut engine),
        Err(SpxError::IsNull)
    ));
    assert!(matches!(
        RecognizerConfig::from_authorization_token("t", "r\0", &mut engine),
        Err(SpxError::IsNull)
    ));
    assert!(RecognizerConfig::from_endpoint("wss://e", "k", &mut engine).is_ok());
}
