//! Configurator and builder for speech, intent and translation recognition.

use vstd::prelude::*;

use crate::engine::{Engine, HandleData};
use crate::error::SpxError;
use crate::properties::{
    contains_nul, decimal_string, has_nul, Properties, PropertyBag, PROPERTY_AUTHORIZATION_TOKEN,
    PROPERTY_CONNECTION_ENDPOINT, PROPERTY_CONNECTION_KEY, PROPERTY_CONNECTION_REGION,
    PROPERTY_ENDPOINT_ID, PROPERTY_PROXY_HOST_NAME, PROPERTY_PROXY_PASSWORD, PROPERTY_PROXY_PORT,
    PROPERTY_PROXY_USER_NAME, PROPERTY_RECO_LANGUAGE, PROPERTY_REQUEST_DETAILED_RESULT,
    PROPERTY_TRANSLATION_FEATURES, PROPERTY_TRANSLATION_TO_LANGUAGES, PROPERTY_TRANSLATION_VOICE,
};
use crate::speech::audio::{AnyAudioStream, Audio, AudioSpec};
use crate::speech::events::{Flags, INTENT, SPEECH, TRANSLATION};
use crate::speech::recognizer::{IntentTrigger, Model, Recognizer};
use crate::Handle;

verus! {

/// Proxy settings, applied to a configuration as four properties.
pub struct ProxyConfig {
    /// The proxy host name.
    pub host_name: String,
    /// The proxy port.
    pub port: u32,
    /// The proxy user name.
    pub user_name: String,
    /// The proxy password.
    pub password: String,
}

impl ProxyConfig {
    /// Collect the four proxy settings.
    pub fn new(host_name: String, port: u32, user_name: String, password: String) -> (r:
        ProxyConfig)
        ensures
            r.host_name == host_name,
            r.port == port,
            r.user_name == user_name,
            r.password == password,
    {
        ProxyConfig { host_name, port, user_name, password }
    }
}

/// The comma-joined form of a list of language tags.
pub open spec fn spec_joined(items: Seq<String>) -> Seq<char>
    decreases items.len(),
{
    if items.len() == 0 {
        Seq::empty()
    } else if items.len() == 1 {
        items[0]@
    } else {
        spec_joined(items.drop_last()) + seq![','] + items.last()@
    }
}

/// Join language tags with commas, as the engine expects them in a single
/// property value.
fn join_languages(items: &Vec<String>) -> (r: String)
    ensures
        r@ == spec_joined(items@),
{
    let mut r = String::new();
    let mut i: usize = 0;
    proof {
        assert(items@.take(0) =~= Seq::<String>::empty());
    }
    while i < items.len()
        invariant
            i <= items@.len(),
            r@ == spec_joined(items@.take(i as int)),
        decreases items@.len() - i,
    {
        proof {
            assert(items@.take(i as int + 1).drop_last() =~= items@.take(i as int));
            assert(items@.take(i as int + 1).last() == items@[i as int]);
        }
        if i > 0 {
            r.append(",");
            proof {
                reveal_strlit(",");
                assert(","@ =~= seq![',']);
            }
        }
        r.append(items[i].as_str());
        proof {
            if i == 0 {
                assert(r@ =~= spec_joined(items@.take(1)));
            }
        }
        i = i + 1;
    }
    proof {
        assert(items@.take(items@.len() as int) =~= items@);
    }
    r
}

/// Configurator for recognizer sessions: connection settings live in the
/// configuration's property bag, session settings in plain fields, and the
/// `recognizer`/`intent_recognizer`/`translator` constructors combine them.
pub struct RecognizerConfig {
    /// The categories every session of this configuration registers.
    pub flags: Flags,
    /// The audio format, where a stream rather than a device feeds audio.
    pub audio: Option<AudioSpec>,
    /// The path of an audio file to read, where one is the input.
    pub audio_file_path: String,
    /// Whether a stream input runs in pull mode rather than push mode.
    pub pull_mode: bool,
    /// The language-understanding model application id.
    pub model_id: String,
    /// Intents to register, phrases or model intent names.
    pub intents: Vec<String>,
    /// Target languages of a translation session.
    pub target_languages: Vec<String>,
    /// Timeout, in milliseconds, for waiting on engine operations.
    pub timeout: u32,
    /// The underlying configuration handle.
    pub handle: usize,
    /// The configuration's property bag.
    pub props: Properties,
}

impl Handle for RecognizerConfig {
    open spec fn spec_handle(&self) -> usize {
        self.handle
    }

    fn handle(&self) -> (h: usize)
        ensures
            h == self.spec_handle(),
    {
        self.handle
    }
}

impl RecognizerConfig {
    /// Adopt a configuration handle and fetch its property bag.
    fn new(handle: usize, engine: &mut Engine) -> (r: Result<RecognizerConfig, SpxError>)
        ensures
            old(engine).can_alloc() <==> r is Ok,
            r is Ok ==> r->Ok_0.handle == handle,
            r is Ok ==> r->Ok_0.props.handle == (old(engine).entries@.len() + 1) as usize,
            r is Ok ==> final(engine).is_bag(r->Ok_0.props.handle),
            r is Ok ==> final(engine).bag_id_entries(r->Ok_0.props.handle) == Seq::<(
                u32,
                String,
            )>::empty(),
            r is Ok ==> r->Ok_0.flags.bits == crate::speech::events::RECOGNIZED,
            r is Ok ==> r->Ok_0.audio is None && r->Ok_0.pull_mode == false,
            r is Ok ==> r->Ok_0.timeout == u32::MAX,
            r is Ok ==> r->Ok_0.intents@.len() == 0 && r->Ok_0.target_languages@.len() == 0,
            r is Err ==> *final(engine) == *old(engine),
            forall|j: int|
                0 <= j < old(engine).entries@.len() ==> #[trigger] final(engine).entries@[j] == old(
                    engine,
                ).entries@[j],
            final(engine).entries@.len() >= old(engine).entries@.len(),
            final(engine).outcomes == old(engine).outcomes,
            final(engine).callbacks == old(engine).callbacks,
            final(engine).slots == old(engine).slots,
            final(engine).spoken == old(engine).spoken,
    {
        let hbag = match engine.open_bag() {
            Ok(h) => h,
            Err(e) => {
                return Err(e);
            },
        };
        Ok(
            RecognizerConfig {
                handle,
                props: Properties::new(hbag),
                flags: Flags::new(crate::speech::events::RECOGNIZED),
                audio: None,
                audio_file_path: String::new(),
                pull_mode: false,
                model_id: String::new(),
                intents: Vec::new(),
                target_languages: Vec::new(),
                timeout: u32::MAX,
            },
        )
    }

    /// Create a configuration from a subscription key and region; both are
    /// stored in the configuration's property bag.
    pub fn from_subscription(subscription: &str, region: &str, engine: &mut Engine) -> (r: Result<
        RecognizerConfig,
        SpxError,
    >)
        ensures
            r is Ok <==> !has_nul(subscription@) && !has_nul(region@) && old(
                engine,
            ).entries@.len() + 2 < usize::MAX,
            r is Ok ==> final(engine).is_bag(r->Ok_0.props.handle),
            r is Ok ==> final(engine).bag_value_id(r->Ok_0.props.handle, PROPERTY_CONNECTION_KEY)
                == subscription@,
            r is Ok ==> final(engine).bag_value_id(
                r->Ok_0.props.handle,
                PROPERTY_CONNECTION_REGION,
            ) == region@,
    {
        if contains_nul(subscription) {
            return Err(SpxError::IsNull);
        }
        if contains_nul(region) {
            return Err(SpxError::IsNull);
        }
        let handle = match engine.open_handle(HandleData::Plain) {
            Ok(h) => h,
            Err(e) => {
                return Err(e);
            },
        };
        let cfg = match RecognizerConfig::new(handle, engine) {
            Ok(c) => c,
            Err(e) => {
                return Err(e);
            },
        };
        match cfg.props.put_by_id(engine, PROPERTY_CONNECTION_KEY, subscription) {
            Ok(_) => {},
            Err(e) => {
                return Err(e);
            },
        }
        match cfg.props.put_by_id(engine, PROPERTY_CONNECTION_REGION, region) {
            Ok(_) => {},
            Err(e) => {
                return Err(e);
            },
        }
        Ok(cfg)
    }

    /// Create a configuration from an authorization token and region.
    pub fn from_authorization_token(token: &str, region: &str, engine: &mut Engine) -> (r: Result<
        RecognizerConfig,
        SpxError,
    >)
        ensures
            r is Ok <==> !has_nul(token@) && !has_nul(region@) && old(engine).entries@.len() + 2
                < usize::MAX,
            r is Ok ==> final(engine).is_bag(r->Ok_0.props.handle),
            r is Ok ==> final(engine).bag_value_id(
                r->Ok_0.props.handle,
                PROPERTY_AUTHORIZATION_TOKEN,
            ) == token@,
            r is Ok ==> final(engine).bag_value_id(
                r->Ok_0.props.handle,
                PROPERTY_CONNECTION_REGION,
            ) == region@,
    {
        if contains_nul(token) {
            return Err(SpxError::IsNull);
        }
        if contains_nul(region) {
            return Err(SpxError::IsNull);
        }
        let handle = match engine.open_handle(HandleData::Plain) {
            Ok(h) => h,
            Err(e) => {
                return Err(e);
            },
        };
        let cfg = match RecognizerConfig::new(handle, engine) {
            Ok(c) => c,
            Err(e) => {
                return Err(e);
            },
        };
        match cfg.props.put_by_id(engine, PROPERTY_AUTHORIZATION_TOKEN, token) {
            Ok(_) => {},
            Err(e) => {
                return Err(e);
            },
        }
        match cfg.props.put_by_id(engine, PROPERTY_CONNECTION_REGION, region) {
            Ok(_) => {},
            Err(e) => {
                return Err(e);
            },
        }
        Ok(cfg)
    }

    /// Create a configuration from a custom endpoint and subscription.
    pub fn from_endpoint(endpoint: &str, subscription: &str, engine: &mut Engine) -> (r: Result<
        RecognizerConfig,
        SpxError,
    >)
        ensures
            r is Ok <==> !has_nul(endpoint@) && !has_nul(subscription@) && old(
                engine,
            ).entries@.len() + 2 < usize::MAX,
            r is Ok ==> final(engine).is_bag(r->Ok_0.props.handle),
            r is Ok ==> final(engine).bag_value_id(
                r->Ok_0.props.handle,
                PROPERTY_CONNECTION_ENDPOINT,
            ) == endpoint@,
            r is Ok ==> final(engine).bag_value_id(r->Ok_0.props.handle, PROPERTY_CONNECTION_KEY)
                == subscription@,
    {
        if contains_nul(endpoint) {
            return Err(SpxError::IsNull);
        }
        if contains_nul(subscription) {
            return Err(SpxError::IsNull);
        }
        let handle = match engine.open_handle(HandleData::Plain) {
            Ok(h) => h,
            Err(e) => {
                return Err(e);
            },
        };
        let cfg = match RecognizerConfig::new(handle, engine) {
            Ok(c) => c,
            Err(e) => {
                return Err(e);
            },
        };
        match cfg.props.put_by_id(engine, PROPERTY_CONNECTION_ENDPOINT, endpoint) {
            Ok(_) => {},
            Err(e) => {
                return Err(e);
            },
        }
        match cfg.props.put_by_id(engine, PROPERTY_CONNECTION_KEY, subscription) {
            Ok(_) => {},
            Err(e) => {
                return Err(e);
            },
        }
        Ok(cfg)
    }

    /// How many handle rows the audio input this configuration describes
    /// takes to create.
    pub open spec fn audio_rows(self) -> int {
        if self.audio_file_path@.len() > 0 {
            2
        } else if self.audio is Some {
            4
        } else {
            2
        }
    }

    /// Whether creating the audio input this configuration describes
    /// succeeds on the given engine state.
    pub open spec fn audio_input_ok(self, engine: Engine) -> bool {
        if self.audio_file_path@.len() > 0 {
            !has_nul(self.audio_file_path@) && engine.entries@.len() + 2 < usize::MAX
        } else if self.audio is Some {
            engine.entries@.len() + 4 < usize::MAX
        } else {
            engine.entries@.len() + 2 < usize::MAX
        }
    }

    /// Create the audio input this configuration describes, in order of
    /// precedence: the wav file when a path is set, a stream in the
    /// configured pull or push mode when a format is set, the default
    /// microphone otherwise.
    pub fn audio_input(&self, engine: &mut Engine) -> (r: Result<Audio, SpxError>)
        ensures
            r is Ok <==> self.audio_input_ok(*old(engine)),
            r is Ok ==> final(engine).valid(r->Ok_0.handle),
            r is Ok ==> r->Ok_0.wf(),
            r is Ok ==> final(engine).entries@.len() == old(engine).entries@.len()
                + self.audio_rows(),
            self.audio_file_path@.len() > 0 ==> (r is Ok ==> r->Ok_0.stream is None),
            self.audio_file_path@.len() == 0 && self.audio is None ==> (r is Ok
                ==> r->Ok_0.stream is None),
            self.audio_file_path@.len() == 0 ==> (self.audio matches Some(cfg) ==> (r is Ok
                ==> final(engine).formats@ == old(engine).formats@.push(
                (cfg.rate, cfg.bits, cfg.channels),
            ))),
            self.audio_file_path@.len() == 0 && self.pull_mode ==> (self.audio is Some ==> (r
                is Ok ==> (r->Ok_0.stream matches Some(AnyAudioStream::PullInput(st))
                && st.queue@.len() == 0))),
            self.audio_file_path@.len() == 0 && !self.pull_mode ==> (self.audio is Some ==> (r
                is Ok ==> (r->Ok_0.stream matches Some(AnyAudioStream::PushInput(st)) && final(engine).is_stream(st.handle)))),
            self.audio_file_path@.len() > 0 || self.audio is None ==> final(engine).formats
                == old(engine).formats,
            forall|j: int|
                0 <= j < old(engine).entries@.len() ==> #[trigger] final(engine).entries@[j]
                    == old(engine).entries@[j],
            final(engine).entries@.len() >= old(engine).entries@.len(),
            final(engine).outcomes == old(engine).outcomes,
            final(engine).callbacks == old(engine).callbacks,
            final(engine).slots == old(engine).slots,
            final(engine).spoken == old(engine).spoken,
    {
        if self.audio_file_path.as_str().is_empty() {
            match &self.audio {
                Some(cfg) => {
                    if self.pull_mode {
                        Audio::create_pull_input(cfg, engine)
                    } else {
                        Audio::create_push_input(cfg, engine)
                    }
                },
                None => Audio::create_input_from_microphone(engine),
            }
        } else {
            Audio::create_input_from_wav_file(self.audio_file_path.as_str(), engine)
        }
    }

    /// Generate a simple speech recognizer.
    pub fn recognizer(&self, engine: &mut Engine) -> (r: Result<Recognizer, SpxError>)
        ensures
            old(engine).valid(self.handle) && self.audio_input_ok(*old(engine)) && old(
                engine,
            ).entries@.len() + self.audio_rows() + 1 < usize::MAX ==> r is Ok,
            r is Ok ==> self.audio_input_ok(*old(engine)) && old(engine).entries@.len()
                + self.audio_rows() + 1 < usize::MAX,
            r is Ok ==> final(engine).is_session(r->Ok_0.handle),
            r is Ok ==> r->Ok_0.flags.bits == self.flags.bits | SPEECH,
            r is Ok ==> r->Ok_0.timeout == self.timeout,
            r is Ok ==> r->Ok_0.sink is None,
    {
        let mut audio = match self.audio_input(engine) {
            Ok(a) => a,
            Err(e) => {
                return Err(e);
            },
        };
        let rh = match engine.create_session(self.handle, audio.handle) {
            Ok(h) => h,
            Err(e) => {
                return Err(e);
            },
        };
        Ok(Recognizer::new(rh, audio.take_stream(), self.flags.or(Flags::new(SPEECH)), self.timeout))
    }

    /// Whether every configured intent name can cross to the engine.
    pub open spec fn intents_nul_free(self) -> bool {
        forall|i: int| 0 <= i < self.intents@.len() ==> !has_nul(#[trigger] self.intents@[i]@)
    }

    /// How many handle rows registering the configured intents takes: one
    /// trigger per phrase without a model, the model plus its triggers
    /// otherwise.
    pub open spec fn intent_rows(self) -> int {
        if self.model_id@.len() == 0 {
            self.intents@.len() as int
        } else if self.intents@.len() == 0 {
            2
        } else {
            1 + self.intents@.len() as int
        }
    }

    /// Whether the configured intents can be registered at all: every name
    /// is nul-free, and so is the model id where one is set.
    pub open spec fn intents_ok(self) -> bool {
        self.intents_nul_free() && (self.model_id@.len() > 0 ==> !has_nul(self.model_id@))
    }

    /// Generate a recognizer with speech and intent recognition; the
    /// configured intents are registered on it.
    pub fn intent_recognizer(&self, engine: &mut Engine) -> (r: Result<Recognizer, SpxError>)
        ensures
            old(engine).valid(self.handle) && self.audio_input_ok(*old(engine)) && self.intents_ok()
                && old(engine).entries@.len() + self.audio_rows() + 1 + self.intent_rows()
                < usize::MAX ==> r is Ok,
            r is Ok ==> self.audio_input_ok(*old(engine)) && self.intents_ok(),
            r is Ok ==> final(engine).is_session(r->Ok_0.handle),
            r is Ok ==> r->Ok_0.flags.bits == self.flags.bits | INTENT,
            r is Ok ==> r->Ok_0.timeout == self.timeout,
            r is Ok ==> r->Ok_0.sink is None,
    {
        let mut audio = match self.audio_input(engine) {
            Ok(a) => a,
            Err(e) => {
                return Err(e);
            },
        };
        let rh = match engine.create_session(self.handle, audio.handle) {
            Ok(h) => h,
            Err(e) => {
                return Err(e);
            },
        };
        let reco = Recognizer::new(
            rh,
            audio.take_stream(),
            self.flags.or(Flags::new(INTENT)),
            self.timeout,
        );
        match self.apply_intents(engine, &reco) {
            Ok(_) => {},
            Err(e) => {
                return Err(e);
            },
        }
        Ok(reco)
    }

    /// Generate a recognizer that translates recognized speech: the
    /// comma-joined target languages are stored first, and stay stored.
    pub fn translator(&self, engine: &mut Engine) -> (r: Result<Recognizer, SpxError>)
        ensures
            !has_nul(spec_joined(self.target_languages@)) && old(engine).is_bag(
                self.props.handle,
            ) && old(engine).valid(self.handle) && self.audio_input_ok(*old(engine)) && old(
                engine,
            ).entries@.len() + self.audio_rows() + 1 < usize::MAX ==> r is Ok,
            r is Ok ==> !has_nul(spec_joined(self.target_languages@)) && old(engine).is_bag(
                self.props.handle,
            ) && self.audio_input_ok(*old(engine)) && old(engine).entries@.len()
                + self.audio_rows() + 1 < usize::MAX,
            r is Ok ==> final(engine).is_session(r->Ok_0.handle),
            r is Ok ==> r->Ok_0.flags.bits == self.flags.bits | TRANSLATION,
            r is Ok ==> r->Ok_0.timeout == self.timeout,
            r is Ok ==> r->Ok_0.sink is None,
            r is Ok ==> final(engine).bag_value_id(
                self.props.handle,
                PROPERTY_TRANSLATION_TO_LANGUAGES,
            ) == spec_joined(self.target_languages@),
    {
        match self.apply_target_languages(engine) {
            Ok(_) => {},
            Err(e) => {
                return Err(e);
            },
        }
        let mut audio = match self.audio_input(engine) {
            Ok(a) => a,
            Err(e) => {
                return Err(e);
            },
        };
        let rh = match engine.create_session(self.handle, audio.handle) {
            Ok(h) => h,
            Err(e) => {
                return Err(e);
            },
        };
        Ok(
            Recognizer::new(
                rh,
                audio.take_stream(),
                self.flags.or(Flags::new(TRANSLATION)),
                self.timeout,
            ),
        )
    }

    /// The audio format this configuration carries, if a stream feeds it.
    pub fn audio_config(&self) -> (r: Option<AudioSpec>)
        ensures
            r == self.audio,
    {
        self.audio
    }

    /// Set the audio format of a stream input.
    pub fn set_audio_config(&mut self, v: AudioSpec)
        ensures
            final(self).audio == Some(v),
            final(self).handle == old(self).handle,
            final(self).props == old(self).props,
    {
        self.audio = Some(v);
    }

    /// The audio format this configuration carries (alias kept from the
    /// earlier surface of the builder).
    pub fn audio(&self) -> (r: Option<AudioSpec>)
        ensures
            r == self.audio,
    {
        self.audio
    }

    /// Set the audio format of a stream input.
    pub fn set_audio(&mut self, v: AudioSpec)
        ensures
            final(self).audio == Some(v),
            final(self).handle == old(self).handle,
            final(self).props == old(self).props,
    {
        self.audio = Some(v);
    }

    /// Whether a stream input runs in pull mode.
    pub fn pull_mode(&self) -> (r: bool)
        ensures
            r == self.pull_mode,
    {
        self.pull_mode
    }

    /// Choose between pull mode (`true`) and push mode (`false`).
    pub fn set_pull_mode(&mut self, v: bool)
        ensures
            final(self).pull_mode == v,
            final(self).handle == old(self).handle,
    {
        self.pull_mode = v;
    }

    /// The categories every session of this configuration registers.
    pub fn flags(&self) -> (r: Flags)
        ensures
            r == self.flags,
    {
        self.flags
    }

    /// Set the categories every session of this configuration registers.
    pub fn set_flags(&mut self, v: Flags)
        ensures
            final(self).flags == v,
            final(self).handle == old(self).handle,
    {
        self.flags = v;
    }

    /// The timeout for waiting on engine operations, in milliseconds.
    pub fn timeout(&self) -> (r: u32)
        ensures
            r == self.timeout,
    {
        self.timeout
    }

    /// Set the timeout for waiting on engine operations.
    pub fn set_timeout(&mut self, v: u32)
        ensures
            final(self).timeout == v,
            final(self).handle == old(self).handle,
    {
        self.timeout = v;
    }

    /// The path of the audio file to read, empty when none.
    pub fn audio_file_path(&self) -> (r: &String)
        ensures
            r == &self.audio_file_path,
    {
        &self.audio_file_path
    }

    /// Let a single audio file be the input.
    pub fn set_audio_file_path(&mut self, v: &str)
        ensures
            final(self).audio_file_path@ == v@,
            final(self).handle == old(self).handle,
    {
        self.audio_file_path = v.to_owned();
    }

    /// The language-understanding model application id.
    pub fn model_id(&self) -> (r: &String)
        ensures
            r == &self.model_id,
    {
        &self.model_id
    }

    /// Set the language-understanding model application id.
    pub fn set_model_id(&mut self, v: &str)
        ensures
            final(self).model_id@ == v@,
            final(self).handle == old(self).handle,
    {
        self.model_id = v.to_owned();
    }

    /// The intents to register.  With no model id set they are phrases for
    /// simple matching; with an empty list and a model, the whole model is
    /// loaded.
    pub fn intents(&self) -> (r: &Vec<String>)
        ensures
            r == &self.intents,
    {
        &self.intents
    }

    /// Replace the intents to register.
    pub fn set_intents(&mut self, v: Vec<String>)
        ensures
            final(self).intents == v,
            final(self).handle == old(self).handle,
    {
        self.intents = v;
    }

    /// Append one intent name or phrase.
    pub fn add_intent(&mut self, name: &str) -> (r: Result<(), SpxError>)
        ensures
            r is Ok,
            final(self).intents@.len() == old(self).intents@.len() + 1,
            final(self).intents@[old(self).intents@.len() as int]@ == name@,
            forall|j: int|
                0 <= j < old(self).intents@.len() ==> #[trigger] final(self).intents@[j] == old(self).intents@[j],
            final(self).target_languages == old(self).target_languages,
            final(self).handle == old(self).handle,
            final(self).flags == old(self).flags,
            final(self).audio == old(self).audio,
            final(self).audio_file_path == old(self).audio_file_path,
            final(self).pull_mode == old(self).pull_mode,
            final(self).model_id == old(self).model_id,
            final(self).timeout == old(self).timeout,
            final(self).props == old(self).props,
    {
        self.intents.push(name.to_owned());
        Ok(())
    }

    /// Register the configured intents on a generated recognizer: phrases
    /// where no model id is set, the model's intents otherwise.
    fn apply_intents(&self, engine: &mut Engine, reco: &Recognizer) -> (r: Result<(), SpxError>)
        requires
            old(engine).valid(reco.handle),
        ensures
            r is Ok <==> self.intents_ok() && (self.intent_rows() == 0 || old(
                engine,
            ).entries@.len() + self.intent_rows() < usize::MAX),
            final(engine).is_session(reco.handle) == old(engine).is_session(reco.handle),
            final(engine).valid(reco.handle),
            r is Ok ==> final(engine).entries@.len() == old(engine).entries@.len()
                + self.intent_rows(),
            forall|j: int|
                0 <= j < old(engine).entries@.len() ==> #[trigger] final(engine).entries@[j]
                    == old(engine).entries@[j],
            final(engine).entries@.len() >= old(engine).entries@.len(),
            final(engine).outcomes == old(engine).outcomes,
            final(engine).callbacks == old(engine).callbacks,
            final(engine).slots == old(engine).slots,
            final(engine).spoken == old(engine).spoken,
            final(engine).formats == old(engine).formats,
    {
        let ghost n = self.intents@.len() as int;
        if self.model_id.as_str().is_empty() {
            let mut i: usize = 0;
            while i < self.intents.len()
                invariant
                    n == self.intents@.len(),
                    i <= n,
                    self.model_id@.len() == 0,
                    engine.valid(reco.handle),
                    engine.is_session(reco.handle) == old(engine).is_session(reco.handle),
                    engine.entries@.len() == old(engine).entries@.len() + i,
                    i == 0 || old(engine).entries@.len() + i < usize::MAX,
                    forall|j: int| 0 <= j < i ==> !has_nul(#[trigger] self.intents@[j]@),
                    forall|j: int|
                        0 <= j < old(engine).entries@.len() ==> #[trigger] engine.entries@[j]
                            == old(engine).entries@[j],
                    engine.outcomes == old(engine).outcomes,
                    engine.callbacks == old(engine).callbacks,
                    engine.slots == old(engine).slots,
                    engine.spoken == old(engine).spoken,
                    engine.formats == old(engine).formats,
                decreases self.intents@.len() - i,
            {
                let phrase = &self.intents[i];
                let trigger = match IntentTrigger::from_phrase(phrase.as_str(), engine) {
                    Ok(t) => t,
                    Err(e) => {
                        return Err(e);
                    },
                };
                match reco.add_intent(engine, phrase.as_str(), &trigger) {
                    Ok(_) => {},
                    Err(e) => {
                        return Err(e);
                    },
                }
                i = i + 1;
            }
            return Ok(());
        }
        let model = match Model::from_app_id(self.model_id.as_str(), engine) {
            Ok(m) => m,
            Err(e) => {
                return Err(e);
            },
        };
        if self.intents.len() == 0 {
            let trigger = match IntentTrigger::from_model_all(&model, engine) {
                Ok(t) => t,
                Err(e) => {
                    return Err(e);
                },
            };
            proof {
                reveal_strlit("");
            }
            return reco.add_intent(engine, "", &trigger);
        }
        let mut i: usize = 0;
        while i < self.intents.len()
            invariant
                n == self.intents@.len(),
                i <= n,
                self.model_id@.len() > 0,
                engine.valid(reco.handle),
                engine.valid(model.handle),
                engine.is_session(reco.handle) == old(engine).is_session(reco.handle),
                engine.entries@.len() == old(engine).entries@.len() + 1 + i,
                old(engine).entries@.len() + 1 + i < usize::MAX,
                forall|j: int| 0 <= j < i ==> !has_nul(#[trigger] self.intents@[j]@),
                forall|j: int|
                    0 <= j < old(engine).entries@.len() ==> #[trigger] engine.entries@[j] == old(
                        engine,
                    ).entries@[j],
                engine.outcomes == old(engine).outcomes,
                engine.callbacks == old(engine).callbacks,
                engine.slots == old(engine).slots,
                engine.spoken == old(engine).spoken,
                engine.formats == old(engine).formats,
            decreases self.intents@.len() - i,
        {
            let intent = &self.intents[i];
            let trigger = match IntentTrigger::from_model(&model, intent.as_str(), engine) {
                Ok(t) => t,
                Err(e) => {
                    return Err(e);
                },
            };
            match reco.add_intent(engine, intent.as_str(), &trigger) {
                Ok(_) => {},
                Err(e) => {
                    return Err(e);
                },
            }
            i = i + 1;
        }
        Ok(())
    }

    /// The target languages of a translation session.
    pub fn target_languages(&self) -> (r: &Vec<String>)
        ensures
            r == &self.target_languages,
    {
        &self.target_languages
    }

    /// Replace the target languages of a translation session.
    pub fn set_target_languages(&mut self, v: Vec<String>)
        ensures
            final(self).target_languages == v,
            final(self).handle == old(self).handle,
    {
        self.target_languages = v;
    }

    /// Append one target language.
    pub fn add_target_language(&mut self, name: &str) -> (r: Result<(), SpxError>)
        ensures
            r is Ok,
            final(self).target_languages@.len() == old(self).target_languages@.len() + 1,
            final(self).target_languages@[old(self).target_languages@.len() as int]@ == name@,
            forall|j: int|
                0 <= j < old(self).target_languages@.len() ==> #[trigger] final(self).target_languages@[j] == old(self).target_languages@[j],
            final(self).intents == old(self).intents,
            final(self).handle == old(self).handle,
            final(self).flags == old(self).flags,
            final(self).audio == old(self).audio,
            final(self).audio_file_path == old(self).audio_file_path,
            final(self).pull_mode == old(self).pull_mode,
            final(self).model_id == old(self).model_id,
            final(self).timeout == old(self).timeout,
            final(self).props == old(self).props,
    {
        self.target_languages.push(name.to_owned());
        Ok(())
    }

    /// Store the comma-joined target languages in the configuration's bag,
    /// where a generated translator reads them.
    fn apply_target_languages(&self, engine: &mut Engine) -> (r: Result<(), SpxError>)
        ensures
            r is Ok <==> !has_nul(spec_joined(self.target_languages@)) && old(engine).is_bag(
                self.props.handle,
            ),
            r is Ok ==> final(engine).bag_value_id(
                self.props.handle,
                PROPERTY_TRANSLATION_TO_LANGUAGES,
            ) == spec_joined(self.target_languages@),
            r is Ok ==> final(engine).is_bag(self.props.handle),
            final(engine).outcomes == old(engine).outcomes,
            final(engine).callbacks == old(engine).callbacks,
            final(engine).slots == old(engine).slots,
            final(engine).spoken == old(engine).spoken,
            final(engine).entries@.len() == old(engine).entries@.len(),
            forall|j: int|
                0 <= j < old(engine).entries@.len() && j != self.props.handle - 1
                    ==> #[trigger] final(engine).entries@[j] == old(engine).entries@[j],
    {
        let tl = join_languages(&self.target_languages);
        self.props.put_by_id(engine, PROPERTY_TRANSLATION_TO_LANGUAGES, tl.as_str())
    }

    /// The synthesis voice of a translation session.
    pub fn voice_name(&self, engine: &Engine) -> (r: Result<String, SpxError>)
        ensures
            engine.is_bag(self.props.handle) <==> r is Ok,
            r is Ok ==> r->Ok_0@ == engine.bag_value_id(self.props.handle, PROPERTY_TRANSLATION_VOICE),
    {
        self.props.get_by_id(engine, PROPERTY_TRANSLATION_VOICE)
    }

    /// Set the synthesis voice of a translation session.
    pub fn put_voice_name(&mut self, engine: &mut Engine, v: &str) -> (r: Result<(), SpxError>)
        ensures
            r is Ok <==> !has_nul(v@) && old(engine).is_bag(old(self).props.handle),
            r is Ok ==> final(engine).bag_value_id(
                old(self).props.handle,
                PROPERTY_TRANSLATION_VOICE,
            ) == v@,
    {
        self.props.put_by_id(engine, PROPERTY_TRANSLATION_VOICE, v)
    }

    /// The feature flags of a translation session.
    pub fn translation_features(&self, engine: &Engine) -> (r: Result<String, SpxError>)
        ensures
            engine.is_bag(self.props.handle) <==> r is Ok,
            r is Ok ==> r->Ok_0@ == engine.bag_value_id(
                self.props.handle,
                PROPERTY_TRANSLATION_FEATURES,
            ),
    {
        self.props.get_by_id(engine, PROPERTY_TRANSLATION_FEATURES)
    }

    /// Set the feature flags of a translation session.
    pub fn put_translation_features(&mut self, engine: &mut Engine, v: &str) -> (r: Result<
        (),
        SpxError,
    >)
        ensures
            r is Ok <==> !has_nul(v@) && old(engine).is_bag(old(self).props.handle),
            r is Ok ==> final(engine).bag_value_id(
                old(self).props.handle,
                PROPERTY_TRANSLATION_FEATURES,
            ) == v@,
    {
        self.props.put_by_id(engine, PROPERTY_TRANSLATION_FEATURES, v)
    }

    /// The input language of the recognizer.
    pub fn language(&self, engine: &Engine) -> (r: Result<String, SpxError>)
        ensures
            engine.is_bag(self.props.handle) <==> r is Ok,
            r is Ok ==> r->Ok_0@ == engine.bag_value_id(self.props.handle, PROPERTY_RECO_LANGUAGE),
    {
        self.props.get_by_id(engine, PROPERTY_RECO_LANGUAGE)
    }

    /// Set the input language of the recognizer.
    pub fn put_language(&mut self, engine: &mut Engine, v: &str) -> (r: Result<(), SpxError>)
        ensures
            r is Ok <==> !has_nul(v@) && old(engine).is_bag(old(self).props.handle),
            r is Ok ==> final(engine).bag_value_id(old(self).props.handle, PROPERTY_RECO_LANGUAGE)
                == v@,
    {
        self.props.put_by_id(engine, PROPERTY_RECO_LANGUAGE, v)
    }

    /// The endpoint of the recognizer.
    pub fn endpoint(&self, engine: &Engine) -> (r: Result<String, SpxError>)
        ensures
            engine.is_bag(self.props.handle) <==> r is Ok,
            r is Ok ==> r->Ok_0@ == engine.bag_value_id(self.props.handle, PROPERTY_ENDPOINT_ID),
    {
        self.props.get_by_id(engine, PROPERTY_ENDPOINT_ID)
    }

    /// Set the endpoint of the recognizer.
    pub fn put_endpoint(&mut self, engine: &mut Engine, v: &str) -> (r: Result<(), SpxError>)
        ensures
            r is Ok <==> !has_nul(v@) && old(engine).is_bag(old(self).props.handle),
            r is Ok ==> final(engine).bag_value_id(old(self).props.handle, PROPERTY_ENDPOINT_ID)
                == v@,
    {
        self.props.put_by_id(engine, PROPERTY_ENDPOINT_ID, v)
    }

    /// Whether detailed output is requested, as the stored text.
    pub fn detailed_result(&self, engine: &Engine) -> (r: Result<String, SpxError>)
        ensures
            engine.is_bag(self.props.handle) <==> r is Ok,
            r is Ok ==> r->Ok_0@ == engine.bag_value_id(
                self.props.handle,
                PROPERTY_REQUEST_DETAILED_RESULT,
            ),
    {
        self.props.get_by_id(engine, PROPERTY_REQUEST_DETAILED_RESULT)
    }

    /// Request detailed output or not, as the stored text.
    pub fn put_detailed_result(&mut self, engine: &mut Engine, v: &str) -> (r: Result<(), SpxError>)
        ensures
            r is Ok <==> !has_nul(v@) && old(engine).is_bag(old(self).props.handle),
            r is Ok ==> final(engine).bag_value_id(
                old(self).props.handle,
                PROPERTY_REQUEST_DETAILED_RESULT,
            ) == v@,
    {
        self.props.put_by_id(engine, PROPERTY_REQUEST_DETAILED_RESULT, v)
    }

    /// Apply the four proxy settings to the configuration's bag, in order:
    /// host name, port, user name, password.  A refused value stops the
    /// sequence; what was already stored stays stored.
    pub fn put_proxy(&mut self, engine: &mut Engine, proxy: &ProxyConfig) -> (r: Result<
        (),
        SpxError,
    >)
        ensures
            r is Ok <==> old(engine).is_bag(old(self).props.handle) && !has_nul(
                proxy.host_name@,
            ) && !has_nul(proxy.user_name@) && !has_nul(proxy.password@),
            r is Ok ==> final(engine).bag_value_id(
                old(self).props.handle,
                PROPERTY_PROXY_PASSWORD,
            ) == proxy.password@,
            old(engine).is_bag(old(self).props.handle) && !has_nul(proxy.host_name@) && !has_nul(
                proxy.user_name@,
            ) ==> final(engine).bag_value_id(old(self).props.handle, PROPERTY_PROXY_USER_NAME)
                == proxy.user_name@,
            old(engine).is_bag(old(self).props.handle) && !has_nul(proxy.host_name@) ==> final(engine).bag_value_id(old(self).props.handle, PROPERTY_PROXY_HOST_NAME) == proxy.host_name@
                && final(engine).bag_value_id(old(self).props.handle, PROPERTY_PROXY_PORT)
                == crate::properties::spec_decimal(proxy.port as nat),
            r is Ok ==> final(engine).is_bag(old(self).props.handle),
            r is Ok ==> old(engine).same_but_entry(*final(engine), old(self).props.handle),
            r is Ok ==> forall|other: u32|
                other != PROPERTY_PROXY_HOST_NAME && other != PROPERTY_PROXY_PORT && other
                    != PROPERTY_PROXY_USER_NAME && other != PROPERTY_PROXY_PASSWORD ==> final(engine).bag_value_id(old(self).props.handle, other) == old(engine).bag_value_id(
                    old(self).props.handle,
                    other,
                ),
            r is Ok ==> final(engine).bag_name_entries(old(self).props.handle) == old(
                engine,
            ).bag_name_entries(old(self).props.handle),
            !old(engine).is_bag(old(self).props.handle) || has_nul(proxy.host_name@) ==> *final(engine)
                == *old(engine),
            *final(self) == *old(self),
    {
        match self.props.put_by_id(engine, PROPERTY_PROXY_HOST_NAME, proxy.host_name.as_str()) {
            Ok(_) => {},
            Err(e) => {
                return Err(e);
            },
        }
        let port = decimal_string(proxy.port);
        proof {
            crate::properties::lemma_decimal_no_nul(proxy.port as nat);
        }
        match self.props.put_by_id(engine, PROPERTY_PROXY_PORT, port.as_str()) {
            Ok(_) => {},
            Err(e) => {
                return Err(e);
            },
        }
        match self.props.put_by_id(engine, PROPERTY_PROXY_USER_NAME, proxy.user_name.as_str()) {
            Ok(_) => {},
            Err(e) => {
                return Err(e);
            },
        }
        match self.props.put_by_id(engine, PROPERTY_PROXY_PASSWORD, proxy.password.as_str()) {
            Ok(_) => {},
            Err(e) => {
                return Err(e);
            },
        }
        Ok(())
    }
}

impl PropertyBag for RecognizerConfig {
    open spec fn bag_handle(&self) -> usize {
        self.props.handle
    }

    fn get_by_id(&self, engine: &Engine, id: u32) -> (r: Result<String, SpxError>) {
        self.props.get_by_id(engine, id)
    }

    fn get_by_name(&self, engine: &Engine, name: &String) -> (r: Result<String, SpxError>) {
        self.props.get_by_name(engine, name)
    }

    fn put_by_id(&self, engine: &mut Engine, id: u32, value: &str) -> (r: Result<(), SpxError>) {
        self.props.put_by_id(engine, id, value)
    }

    fn put_by_name(&self, engine: &mut Engine, name: &str, value: &str) -> (r: Result<
        (),
        SpxError,
    >) {
        self.props.put_by_name(engine, name, value)
    }
}

} // verus!
