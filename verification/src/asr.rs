//! The early one-shot recognition surface: a configuration over the
//! connection properties, a blocking recognizer, a builder over a property
//! table, and an outcome wrapper with cached reads.

use vstd::prelude::*;

use crate::audio::AudioInput;
use crate::engine::{stored_id, Engine, HandleData};
use crate::error::SpxError;
use crate::properties::{
    contains_nul, has_nul, Properties, PropertyBag, PROPERTY_AUTHORIZATION_TOKEN,
    PROPERTY_CONNECTION_KEY, PROPERTY_CONNECTION_REGION, PROPERTY_ENDPOINT_ID,
    PROPERTY_PROXY_HOST_NAME, PROPERTY_PROXY_PASSWORD, PROPERTY_PROXY_PORT,
    PROPERTY_PROXY_USER_NAME, PROPERTY_RECO_LANGUAGE, PROPERTY_REQUEST_DETAILED_RESULT,
};
use crate::speech::events::{spec_ticks_to_nanos, ticks_to_nanos};
use crate::Handle;

verus! {

/// Proxy settings of the early surface.
pub struct ProxyConfig {
    /// The proxy host name.
    pub host_name: String,
    /// The proxy port.
    pub port: u32,
    /// The proxy user name.
    pub user_name: String,
    /// The proxy password.
    pub password: String,
}

/// Connection configuration of the early surface: every setting lives in the
/// configuration's property bag.
pub struct RecognizerConfig {
    /// The underlying configuration handle.
    pub handle: usize,
    /// The configuration's property bag.
    pub props: Properties,
}

impl Handle for RecognizerConfig {
    open spec fn spec_handle(&self) -> usize {
        self.handle
    }

    fn handle(&self) -> (h: usize)
        ensures
            h == self.spec_handle(),
    {
        self.handle
    }
}

impl RecognizerConfig {
    /// Create a configuration from a subscription key and region; both are
    /// stored in the configuration's property bag.
    pub fn from_subscription(subscription: &str, region: &str, engine: &mut Engine) -> (r: Result<
        RecognizerConfig,
        SpxError,
    >)
        ensures
            r is Ok <==> !has_nul(subscription@) && !has_nul(region@) && old(
                engine,
            ).entries@.len() + 2 < usize::MAX,
            r is Ok ==> final(engine).valid(r->Ok_0.handle),
            r is Ok ==> final(engine).is_bag(r->Ok_0.props.handle),
            r is Ok ==> final(engine).bag_value_id(r->Ok_0.props.handle, PROPERTY_CONNECTION_KEY)
                == subscription@,
            r is Ok ==> final(engine).bag_value_id(
                r->Ok_0.props.handle,
                PROPERTY_CONNECTION_REGION,
            ) == region@,
            r is Ok ==> r->Ok_0.handle != r->Ok_0.props.handle,
            r is Ok ==> r->Ok_0.handle == (old(engine).entries@.len() + 1) as usize,
            r is Ok ==> r->Ok_0.props.handle == (old(engine).entries@.len() + 2) as usize,
            r is Ok ==> forall|other: u32|
                other != PROPERTY_CONNECTION_KEY && other != PROPERTY_CONNECTION_REGION
                    ==> final(engine).bag_value_id(r->Ok_0.props.handle, other) == Seq::<
                    char,
                >::empty(),
            r is Ok ==> final(engine).bag_name_entries(r->Ok_0.props.handle) == Seq::<(
                String,
                String,
            )>::empty(),
            r is Ok ==> final(engine).entries@.len() == old(engine).entries@.len() + 2,
            forall|j: int|
                0 <= j < old(engine).entries@.len() ==> #[trigger] final(engine).entries@[j]
                    == old(engine).entries@[j],
            final(engine).entries@.len() >= old(engine).entries@.len(),
            final(engine).outcomes == old(engine).outcomes,
            final(engine).callbacks == old(engine).callbacks,
            final(engine).slots == old(engine).slots,
            final(engine).spoken == old(engine).spoken,
            final(engine).formats == old(engine).formats,
    {
        if contains_nul(subscription) {
            return Err(SpxError::IsNull);
        }
        if contains_nul(region) {
            return Err(SpxError::IsNull);
        }
        let handle = match engine.open_handle(HandleData::Plain) {
            Ok(h) => h,
            Err(e) => {
                return Err(e);
            },
        };
        let hbag = match engine.open_bag() {
            Ok(h) => h,
            Err(e) => {
                return Err(e);
            },
        };
        let cfg = RecognizerConfig { handle, props: Properties::new(hbag) };
        match cfg.props.put_by_id(engine, PROPERTY_CONNECTION_KEY, subscription) {
            Ok(_) => {},
            Err(e) => {
                return Err(e);
            },
        }
        match cfg.props.put_by_id(engine, PROPERTY_CONNECTION_REGION, region) {
            Ok(_) => {},
            Err(e) => {
                return Err(e);
            },
        }
        Ok(cfg)
    }

    /// The recognition language.
    pub fn language(&self, engine: &Engine) -> (r: Result<String, SpxError>)
        ensures
            engine.is_bag(self.props.handle) <==> r is Ok,
            r is Ok ==> r->Ok_0@ == engine.bag_value_id(self.props.handle, PROPERTY_RECO_LANGUAGE),
    {
        self.props.get_by_id(engine, PROPERTY_RECO_LANGUAGE)
    }

    /// Set the recognition language.
    pub fn set_language(&self, engine: &mut Engine, v: &str) -> (r: Result<(), SpxError>)
        ensures
            r is Ok <==> !has_nul(v@) && old(engine).is_bag(self.props.handle),
            r is Ok ==> final(engine).bag_value_id(self.props.handle, PROPERTY_RECO_LANGUAGE) == v@,
            has_nul(v@) ==> r == Err::<(), SpxError>(SpxError::IsNull) && *final(engine)
                == *old(engine),
            r is Ok ==> old(engine).same_but_entry(*final(engine), self.props.handle),
            r is Ok ==> final(engine).is_bag(self.props.handle),
            r is Ok ==> forall|other: u32|
                other != PROPERTY_RECO_LANGUAGE ==> final(engine).bag_value_id(self.props.handle, other) == old(
                    engine,
                ).bag_value_id(self.props.handle, other),
            r is Ok ==> final(engine).bag_name_entries(self.props.handle) == old(
                engine,
            ).bag_name_entries(self.props.handle),
            r is Err ==> *final(engine) == *old(engine),
    {
        self.props.put_by_id(engine, PROPERTY_RECO_LANGUAGE, v)
    }

    /// The custom endpoint id.
    pub fn endpoint_id(&self, engine: &Engine) -> (r: Result<String, SpxError>)
        ensures
            engine.is_bag(self.props.handle) <==> r is Ok,
            r is Ok ==> r->Ok_0@ == engine.bag_value_id(self.props.handle, PROPERTY_ENDPOINT_ID),
    {
        self.props.get_by_id(engine, PROPERTY_ENDPOINT_ID)
    }

    /// Set the custom endpoint id.
    pub fn set_endpoint_id(&self, engine: &mut Engine, v: &str) -> (r: Result<(), SpxError>)
        ensures
            r is Ok <==> !has_nul(v@) && old(engine).is_bag(self.props.handle),
            r is Ok ==> final(engine).bag_value_id(self.props.handle, PROPERTY_ENDPOINT_ID) == v@,
            has_nul(v@) ==> r == Err::<(), SpxError>(SpxError::IsNull) && *final(engine)
                == *old(engine),
            r is Ok ==> old(engine).same_but_entry(*final(engine), self.props.handle),
            r is Ok ==> final(engine).is_bag(self.props.handle),
            r is Ok ==> forall|other: u32|
                other != PROPERTY_ENDPOINT_ID ==> final(engine).bag_value_id(self.props.handle, other) == old(
                    engine,
                ).bag_value_id(self.props.handle, other),
            r is Ok ==> final(engine).bag_name_entries(self.props.handle) == old(
                engine,
            ).bag_name_entries(self.props.handle),
            r is Err ==> *final(engine) == *old(engine),
    {
        self.props.put_by_id(engine, PROPERTY_ENDPOINT_ID, v)
    }

    /// The authorization token.
    pub fn authorization_token(&self, engine: &Engine) -> (r: Result<String, SpxError>)
        ensures
            engine.is_bag(self.props.handle) <==> r is Ok,
            r is Ok ==> r->Ok_0@ == engine.bag_value_id(
                self.props.handle,
                PROPERTY_AUTHORIZATION_TOKEN,
            ),
    {
        self.props.get_by_id(engine, PROPERTY_AUTHORIZATION_TOKEN)
    }

    /// Set the authorization token.
    pub fn set_authorization_token(&self, engine: &mut Engine, v: &str) -> (r: Result<(), SpxError>)
        ensures
            r is Ok <==> !has_nul(v@) && old(engine).is_bag(self.props.handle),
            r is Ok ==> final(engine).bag_value_id(
                self.props.handle,
                PROPERTY_AUTHORIZATION_TOKEN,
            ) == v@,
            has_nul(v@) ==> r == Err::<(), SpxError>(SpxError::IsNull) && *final(engine)
                == *old(engine),
            r is Ok ==> old(engine).same_but_entry(*final(engine), self.props.handle),
            r is Ok ==> final(engine).is_bag(self.props.handle),
            r is Ok ==> forall|other: u32|
                other != PROPERTY_AUTHORIZATION_TOKEN ==> final(engine).bag_value_id(self.props.handle, other) == old(
                    engine,
                ).bag_value_id(self.props.handle, other),
            r is Ok ==> final(engine).bag_name_entries(self.props.handle) == old(
                engine,
            ).bag_name_entries(self.props.handle),
            r is Err ==> *final(engine) == *old(engine),
    {
        self.props.put_by_id(engine, PROPERTY_AUTHORIZATION_TOKEN, v)
    }

    /// The subscription key.
    pub fn subscription_key(&self, engine: &Engine) -> (r: Result<String, SpxError>)
        ensures
            engine.is_bag(self.props.handle) <==> r is Ok,
            r is Ok ==> r->Ok_0@ == engine.bag_value_id(self.props.handle, PROPERTY_CONNECTION_KEY),
    {
        self.props.get_by_id(engine, PROPERTY_CONNECTION_KEY)
    }

    /// Set the subscription key.
    pub fn set_subscription_key(&self, engine: &mut Engine, v: &str) -> (r: Result<(), SpxError>)
        ensures
            r is Ok <==> !has_nul(v@) && old(engine).is_bag(self.props.handle),
            r is Ok ==> final(engine).bag_value_id(self.props.handle, PROPERTY_CONNECTION_KEY)
                == v@,
            has_nul(v@) ==> r == Err::<(), SpxError>(SpxError::IsNull) && *final(engine)
                == *old(engine),
            r is Ok ==> old(engine).same_but_entry(*final(engine), self.props.handle),
            r is Ok ==> final(engine).is_bag(self.props.handle),
            r is Ok ==> forall|other: u32|
                other != PROPERTY_CONNECTION_KEY ==> final(engine).bag_value_id(self.props.handle, other) == old(
                    engine,
                ).bag_value_id(self.props.handle, other),
            r is Ok ==> final(engine).bag_name_entries(self.props.handle) == old(
                engine,
            ).bag_name_entries(self.props.handle),
            r is Err ==> *final(engine) == *old(engine),
    {
        self.props.put_by_id(engine, PROPERTY_CONNECTION_KEY, v)
    }

    /// The service region.
    pub fn region(&self, engine: &Engine) -> (r: Result<String, SpxError>)
        ensures
            engine.is_bag(self.props.handle) <==> r is Ok,
            r is Ok ==> r->Ok_0@ == engine.bag_value_id(
                self.props.handle,
                PROPERTY_CONNECTION_REGION,
            ),
    {
        self.props.get_by_id(engine, PROPERTY_CONNECTION_REGION)
    }

    /// Set the service region.
    pub fn set_region(&self, engine: &mut Engine, v: &str) -> (r: Result<(), SpxError>)
        ensures
            r is Ok <==> !has_nul(v@) && old(engine).is_bag(self.props.handle),
            r is Ok ==> final(engine).bag_value_id(self.props.handle, PROPERTY_CONNECTION_REGION)
                == v@,
            has_nul(v@) ==> r == Err::<(), SpxError>(SpxError::IsNull) && *final(engine)
                == *old(engine),
            r is Ok ==> old(engine).same_but_entry(*final(engine), self.props.handle),
            r is Ok ==> final(engine).is_bag(self.props.handle),
            r is Ok ==> forall|other: u32|
                other != PROPERTY_CONNECTION_REGION ==> final(engine).bag_value_id(self.props.handle, other) == old(
                    engine,
                ).bag_value_id(self.props.handle, other),
            r is Ok ==> final(engine).bag_name_entries(self.props.handle) == old(
                engine,
            ).bag_name_entries(self.props.handle),
            r is Err ==> *final(engine) == *old(engine),
    {
        self.props.put_by_id(engine, PROPERTY_CONNECTION_REGION, v)
    }

    /// Whether detailed results are requested: the stored text is "true" or
    /// anything else.
    pub fn detailed_result(&self, engine: &Engine) -> (r: Result<bool, SpxError>)
        ensures
            engine.is_bag(self.props.handle) <==> r is Ok,
            r is Ok ==> r->Ok_0 == (engine.bag_value_id(
                self.props.handle,
                PROPERTY_REQUEST_DETAILED_RESULT,
            ) == "true"@),
    {
        let v = match self.props.get_by_id(engine, PROPERTY_REQUEST_DETAILED_RESULT) {
            Ok(v) => v,
            Err(e) => {
                return Err(e);
            },
        };
        let yes: String = "true".to_owned();
        Ok(v.eq(&yes))
    }

    /// Request detailed results or not; stored as "true" or "false".
    pub fn set_detailed_result(&self, engine: &mut Engine, v: bool) -> (r: Result<(), SpxError>)
        ensures
            old(engine).is_bag(self.props.handle) <==> r is Ok,
            r is Ok && v ==> final(engine).bag_value_id(
                self.props.handle,
                PROPERTY_REQUEST_DETAILED_RESULT,
            ) == "true"@,
            r is Ok && !v ==> final(engine).bag_value_id(
                self.props.handle,
                PROPERTY_REQUEST_DETAILED_RESULT,
            ) == "false"@,
            r is Ok ==> old(engine).same_but_entry(*final(engine), self.props.handle),
            r is Ok ==> final(engine).is_bag(self.props.handle),
            r is Ok ==> forall|other: u32|
                other != PROPERTY_REQUEST_DETAILED_RESULT ==> final(engine).bag_value_id(
                    self.props.handle,
                    other,
                ) == old(engine).bag_value_id(self.props.handle, other),
            r is Ok ==> final(engine).bag_name_entries(self.props.handle) == old(
                engine,
            ).bag_name_entries(self.props.handle),
            r is Err ==> *final(engine) == *old(engine),
    {
        let text = if v {
            "true"
        } else {
            "false"
        };
        proof {
            reveal_strlit("true");
            reveal_strlit("false");
            assert(!has_nul(text@));
        }
        self.props.put_by_id(engine, PROPERTY_REQUEST_DETAILED_RESULT, text)
    }

    /// Apply the four proxy settings, in order: host name, port, user name,
    /// password.  A refused value stops the sequence; what was already
    /// stored stays stored.
    pub fn set_proxy(&self, engine: &mut Engine, proxy: &ProxyConfig) -> (r: Result<(), SpxError>)
        ensures
            r is Ok <==> old(engine).is_bag(self.props.handle) && !has_nul(proxy.host_name@)
                && !has_nul(proxy.user_name@) && !has_nul(proxy.password@),
            r is Ok ==> final(engine).bag_value_id(self.props.handle, PROPERTY_PROXY_PASSWORD)
                == proxy.password@,
            old(engine).is_bag(self.props.handle) && !has_nul(proxy.host_name@) && !has_nul(
                proxy.user_name@,
            ) ==> final(engine).bag_value_id(self.props.handle, PROPERTY_PROXY_USER_NAME)
                == proxy.user_name@,
            old(engine).is_bag(self.props.handle) && !has_nul(proxy.host_name@) ==> final(engine).bag_value_id(self.props.handle, PROPERTY_PROXY_HOST_NAME) == proxy.host_name@
                && final(engine).bag_value_id(self.props.handle, PROPERTY_PROXY_PORT)
                == crate::properties::spec_decimal(proxy.port as nat),
            r is Ok ==> final(engine).is_bag(self.props.handle),
            r is Ok ==> old(engine).same_but_entry(*final(engine), self.props.handle),
            r is Ok ==> forall|other: u32|
                other != PROPERTY_PROXY_HOST_NAME && other != PROPERTY_PROXY_PORT && other
                    != PROPERTY_PROXY_USER_NAME && other != PROPERTY_PROXY_PASSWORD ==> final(engine).bag_value_id(self.props.handle, other) == old(engine).bag_value_id(
                    self.props.handle,
                    other,
                ),
            r is Ok ==> final(engine).bag_name_entries(self.props.handle) == old(
                engine,
            ).bag_name_entries(self.props.handle),
            !old(engine).is_bag(self.props.handle) || has_nul(proxy.host_name@) ==> *final(engine)
                == *old(engine),
    {
        match self.props.put_by_id(engine, PROPERTY_PROXY_HOST_NAME, proxy.host_name.as_str()) {
            Ok(_) => {},
            Err(e) => {
                return Err(e);
            },
        }
        let port = crate::properties::decimal_string(proxy.port);
        proof {
            crate::properties::lemma_decimal_no_nul(proxy.port as nat);
        }
        match self.props.put_by_id(engine, PROPERTY_PROXY_PORT, port.as_str()) {
            Ok(_) => {},
            Err(e) => {
                return Err(e);
            },
        }
        match self.props.put_by_id(engine, PROPERTY_PROXY_USER_NAME, proxy.user_name.as_str()) {
            Ok(_) => {},
            Err(e) => {
                return Err(e);
            },
        }
        match self.props.put_by_id(engine, PROPERTY_PROXY_PASSWORD, proxy.password.as_str()) {
            Ok(_) => {},
            Err(e) => {
                return Err(e);
            },
        }
        Ok(())
    }

    /// Read any property by numeric id.
    pub fn get_by_id(&self, engine: &Engine, id: u32) -> (r: Result<String, SpxError>)
        ensures
            engine.is_bag(self.props.handle) <==> r is Ok,
            r is Ok ==> r->Ok_0@ == engine.bag_value_id(self.props.handle, id),
    {
        self.props.get_by_id(engine, id)
    }

    /// Store any property by numeric id.
    pub fn put_by_id(&self, engine: &mut Engine, id: u32, value: &str) -> (r: Result<(), SpxError>)
        ensures
            r is Ok <==> !has_nul(value@) && old(engine).is_bag(self.props.handle),
            has_nul(value@) ==> r == Err::<(), SpxError>(SpxError::IsNull) && *final(engine)
                == *old(engine),
            r is Ok ==> final(engine).bag_value_id(self.props.handle, id) == value@,
            r is Ok ==> forall|other: u32|
                other != id ==> final(engine).bag_value_id(self.props.handle, other) == old(
                    engine,
                ).bag_value_id(self.props.handle, other),
            r is Ok ==> final(engine).bag_name_entries(self.props.handle) == old(
                engine,
            ).bag_name_entries(self.props.handle),
            r is Ok ==> old(engine).same_but_entry(*final(engine), self.props.handle),
            r is Ok ==> final(engine).is_bag(self.props.handle),
            r is Err ==> *final(engine) == *old(engine),
    {
        self.props.put_by_id(engine, id, value)
    }
}

/// The blocking recognizer of the early surface: configuration, audio, and
/// one recognize-once entry point.
pub struct Recognizer {
    /// The underlying recognizer handle.
    pub handle: usize,
    /// The configuration the recognizer was created from.
    pub config: RecognizerConfig,
    /// The audio input the recognizer was created with.
    pub audio: AudioInput,
}

impl Handle for Recognizer {
    open spec fn spec_handle(&self) -> usize {
        self.handle
    }

    fn handle(&self) -> (h: usize)
        ensures
            h == self.spec_handle(),
    {
        self.handle
    }
}

impl Recognizer {
    /// Create a recognizer from a configuration and an audio input.
    pub fn from_config(config: RecognizerConfig, audio: AudioInput, engine: &mut Engine) -> (r:
        Result<Recognizer, SpxError>)
        ensures
            r is Ok <==> old(engine).valid(config.handle) && (audio.handle == crate::NULL_HANDLE
                || old(engine).valid(audio.handle)) && old(engine).can_alloc(),
            r is Ok ==> final(engine).is_session(r->Ok_0.handle),
            r is Ok ==> r->Ok_0.config == config && r->Ok_0.audio == audio,
            r is Err ==> *final(engine) == *old(engine),
    {
        let handle = match engine.create_session(config.handle, audio.handle) {
            Ok(h) => h,
            Err(e) => {
                return Err(e);
            },
        };
        Ok(Recognizer { handle, config, audio })
    }

    /// Create a recognizer from a subscription key and region, over the
    /// default audio device.
    pub fn from_subscription(subscription: &str, region: &str, engine: &mut Engine) -> (r: Result<
        Recognizer,
        SpxError,
    >)
        ensures
            r is Ok ==> final(engine).is_session(r->Ok_0.handle),
    {
        let config = match RecognizerConfig::from_subscription(subscription, region, engine) {
            Ok(c) => c,
            Err(e) => {
                return Err(e);
            },
        };
        let audio = AudioInput::new();
        Recognizer::from_config(config, audio, engine)
    }

    /// The configuration the recognizer was created from.
    pub fn config(&self) -> (r: &RecognizerConfig)
        ensures
            r == &self.config,
    {
        &self.config
    }

    /// The audio input the recognizer was created with.
    pub fn audio(&self) -> (r: &AudioInput)
        ensures
            r == &self.audio,
    {
        &self.audio
    }

    /// The blocking one-shot operation: the next outcome's text when it was
    /// recognized speech, the classified no-match error when nothing was
    /// recognized, an unknown error for any other reason.
    pub fn recognize(&self, engine: &mut Engine) -> (r: Result<String, SpxError>)
        ensures
            !old(engine).is_session(self.handle) ==> r is Err && *final(engine) == *old(engine),
            old(engine).is_session(self.handle) && old(engine).outcomes@.len() == 0 ==> r == Err::<
                String,
                SpxError,
            >(SpxError::ApiError(crate::engine::ERR_NO_RESULT)) && *final(engine) == *old(engine),
            old(engine).is_session(self.handle) && old(engine).outcomes@.len() > 0 && old(
                engine,
            ).can_alloc() ==> final(engine).outcomes@ == old(engine).outcomes@.remove(0),
            old(engine).is_session(self.handle) && old(engine).outcomes@.len() > 0 && old(
                engine,
            ).can_alloc() && old(engine).outcomes@[0].reason
                == crate::engine::REASON_RECOGNIZED_SPEECH ==> (r matches Ok(t) && t@ == old(
                engine,
            ).outcomes@[0].text@),
            old(engine).is_session(self.handle) && old(engine).outcomes@.len() > 0 && old(
                engine,
            ).can_alloc() && old(engine).outcomes@[0].reason == crate::engine::REASON_NO_MATCH
                ==> (r matches Err(SpxError::NoMatch(n)) && n.reason
                == crate::speech::events::spec_matching(
                old(engine).outcomes@[0].no_match_reason,
            )),
            old(engine).is_session(self.handle) && old(engine).outcomes@.len() > 0 && old(
                engine,
            ).can_alloc() && old(engine).outcomes@[0].reason
                != crate::engine::REASON_RECOGNIZED_SPEECH && old(engine).outcomes@[0].reason
                != crate::engine::REASON_NO_MATCH ==> r == Err::<String, SpxError>(
                SpxError::Unknown,
            ),
    {
        let hres = match engine.recognize_once(self.handle) {
            Ok(h) => h,
            Err(e) => {
                return Err(e);
            },
        };
        let mut rr = RecognitionResult::new(hres);
        let reason = match rr.reason(engine) {
            Ok(v) => v,
            Err(e) => {
                return Err(e);
            },
        };
        if reason == crate::engine::REASON_RECOGNIZED_SPEECH {
            match rr.text(engine) {
                Ok(t) => Ok(t),
                Err(e) => Err(e),
            }
        } else if reason == crate::engine::REASON_NO_MATCH {
            let raw = match engine.result_no_match_reason(rr.handle) {
                Ok(v) => v,
                Err(e) => {
                    return Err(e);
                },
            };
            Err(SpxError::NoMatch(crate::speech::events::NoMatchError {
                reason: crate::speech::events::Matching::from(raw),
            }))
        } else {
            Err(SpxError::Unknown)
        }
    }
}

/// A builder of the early surface: connection properties collected in a
/// table keyed by property id, applied when the configuration is created.
pub struct Builder {
    /// The collected properties, latest entry per id winning.
    pub table: Vec<(u32, String)>,
    /// The path of the audio file to read.
    pub audio: String,
}

impl Builder {
    /// An empty builder.
    pub fn new() -> (r: Builder)
        ensures
            r.table@.len() == 0,
            r.audio@.len() == 0,
    {
        Builder { table: Vec::new(), audio: String::new() }
    }

    /// Collect the subscription key.
    pub fn subscription_key(self, v: &str) -> (r: Builder)
        ensures
            r.table@.len() == self.table@.len() + 1,
            stored_id(r.table@, PROPERTY_CONNECTION_KEY) == v@,
            r.audio == self.audio,
    {
        let mut table = self.table;
        let owned = v.to_owned();
        let ghost snapshot = owned;
        table.push((PROPERTY_CONNECTION_KEY, owned));
        proof {
            crate::engine::lemma_bag_round_trip_id(
                self.table@,
                PROPERTY_CONNECTION_KEY,
                snapshot,
            );
        }
        Builder { table, audio: self.audio }
    }

    /// Collect the service region.
    pub fn region(self, v: &str) -> (r: Builder)
        ensures
            r.table@.len() == self.table@.len() + 1,
            stored_id(r.table@, PROPERTY_CONNECTION_REGION) == v@,
            r.audio == self.audio,
    {
        let mut table = self.table;
        let owned = v.to_owned();
        let ghost snapshot = owned;
        table.push((PROPERTY_CONNECTION_REGION, owned));
        proof {
            crate::engine::lemma_bag_round_trip_id(
                self.table@,
                PROPERTY_CONNECTION_REGION,
                snapshot,
            );
        }
        Builder { table, audio: self.audio }
    }

    /// Collect the recognition language.
    pub fn language(self, v: &str) -> (r: Builder)
        ensures
            r.table@.len() == self.table@.len() + 1,
            stored_id(r.table@, PROPERTY_RECO_LANGUAGE) == v@,
            r.audio == self.audio,
    {
        let mut table = self.table;
        let owned = v.to_owned();
        let ghost snapshot = owned;
        table.push((PROPERTY_RECO_LANGUAGE, owned));
        proof {
            crate::engine::lemma_bag_round_trip_id(self.table@, PROPERTY_RECO_LANGUAGE, snapshot);
        }
        Builder { table, audio: self.audio }
    }

    /// Collect the audio file path.
    pub fn audio_file_path(self, v: &str) -> (r: Builder)
        ensures
            r.audio@ == v@,
            r.table == self.table,
    {
        Builder { table: self.table, audio: v.to_owned() }
    }

    /// Whether every collected value can cross to the engine: none holds an
    /// interior nul.
    pub open spec fn values_nul_free(self) -> bool {
        forall|i: int| 0 <= i < self.table@.len() ==> !has_nul(#[trigger] self.table@[i].1@)
    }

    /// Create a configuration from the collected key and region, then apply
    /// every collected property to it: afterwards the configuration's bag
    /// reads back exactly what the table stored, id for id.
    pub fn create_config(&self, engine: &mut Engine) -> (r: Result<RecognizerConfig, SpxError>)
        ensures
            r is Ok <==> self.values_nul_free() && old(engine).entries@.len() + 2 < usize::MAX,
            r is Ok ==> final(engine).valid(r->Ok_0.handle),
            r is Ok ==> final(engine).is_bag(r->Ok_0.props.handle),
            r is Ok ==> forall|id: u32|
                final(engine).bag_value_id(r->Ok_0.props.handle, id) == stored_id(self.table@, id),
            r is Ok ==> r->Ok_0.handle == (old(engine).entries@.len() + 1) as usize,
            r is Ok ==> final(engine).entries@.len() == old(engine).entries@.len() + 2,
            forall|j: int|
                0 <= j < old(engine).entries@.len() ==> #[trigger] final(engine).entries@[j]
                    == old(engine).entries@[j],
            final(engine).entries@.len() >= old(engine).entries@.len(),
            final(engine).outcomes == old(engine).outcomes,
            final(engine).callbacks == old(engine).callbacks,
            final(engine).slots == old(engine).slots,
            final(engine).spoken == old(engine).spoken,
            final(engine).formats == old(engine).formats,
    {
        let ghost t = self.table@;
        let key = match crate::engine::find_by_id(&self.table, PROPERTY_CONNECTION_KEY) {
            Some(v) => v,
            None => String::new(),
        };
        let region = match crate::engine::find_by_id(&self.table, PROPERTY_CONNECTION_REGION) {
            Some(v) => v,
            None => String::new(),
        };
        proof {
            crate::engine::lemma_lookup_id_is_a_value(t, PROPERTY_CONNECTION_KEY);
            crate::engine::lemma_lookup_id_is_a_value(t, PROPERTY_CONNECTION_REGION);
        }
        let config = match RecognizerConfig::from_subscription(
            key.as_str(),
            region.as_str(),
            engine,
        ) {
            Ok(c) => c,
            Err(e) => {
                return Err(e);
            },
        };
        let ghost key0 = key@;
        let ghost region0 = region@;
        let ghost hbag = config.props.handle;
        let mut i: usize = 0;
        proof {
            assert(t.take(0) =~= Seq::<(u32, String)>::empty());
        }
        while i < self.table.len()
            invariant
                t == self.table@,
                i <= t.len(),
                hbag == config.props.handle,
                hbag == old(engine).entries@.len() + 2,
                engine.valid(config.handle),
                engine.is_bag(config.props.handle),
                key0 == stored_id(t, PROPERTY_CONNECTION_KEY),
                region0 == stored_id(t, PROPERTY_CONNECTION_REGION),
                forall|j: int| 0 <= j < i ==> !has_nul(#[trigger] t[j].1@),
                forall|id: u32|
                    #[trigger] engine.bag_value_id(hbag, id) == if crate::engine::lookup_id(
                        t.take(i as int),
                        id,
                    ) is Some {
                        stored_id(t.take(i as int), id)
                    } else if id == PROPERTY_CONNECTION_KEY {
                        key0
                    } else if id == PROPERTY_CONNECTION_REGION {
                        region0
                    } else {
                        Seq::<char>::empty()
                    },
                forall|j: int|
                    0 <= j < old(engine).entries@.len() ==> #[trigger] engine.entries@[j] == old(
                        engine,
                    ).entries@[j],
                engine.entries@.len() == old(engine).entries@.len() + 2,
                engine.outcomes == old(engine).outcomes,
                engine.callbacks == old(engine).callbacks,
                engine.slots == old(engine).slots,
                engine.spoken == old(engine).spoken,
                engine.formats == old(engine).formats,
            decreases t.len() - i,
        {
            let pair = &self.table[i];
            proof {
                assert(t.take(i as int + 1).drop_last() =~= t.take(i as int));
                assert(t.take(i as int + 1).last() == t[i as int]);
            }
            match config.put_by_id(engine, pair.0, pair.1.as_str()) {
                Ok(_) => {},
                Err(e) => {
                    return Err(e);
                },
            }
            i = i + 1;
        }
        proof {
            assert(t.take(t.len() as int) =~= t);
        }
        Ok(config)
    }

    /// Create the audio input from the collected file path.
    pub fn create_audio(&self, engine: &mut Engine) -> (r: Result<AudioInput, SpxError>)
        ensures
            r is Ok <==> !has_nul(self.audio@) && old(engine).can_alloc(),
            r is Ok ==> final(engine).valid(r->Ok_0.handle),
            r is Ok ==> r->Ok_0.stream is None,
            r is Err ==> *final(engine) == *old(engine),
            forall|j: int|
                0 <= j < old(engine).entries@.len() ==> #[trigger] final(engine).entries@[j]
                    == old(engine).entries@[j],
            final(engine).entries@.len() >= old(engine).entries@.len(),
            r is Ok ==> final(engine).entries@.len() == old(engine).entries@.len() + 1,
            final(engine).outcomes == old(engine).outcomes,
            final(engine).callbacks == old(engine).callbacks,
            final(engine).slots == old(engine).slots,
            final(engine).spoken == old(engine).spoken,
            final(engine).formats == old(engine).formats,
    {
        AudioInput::from_wav_file(self.audio.as_str(), engine)
    }

    /// Create a recognizer over the collected configuration and audio.
    pub fn create_recognizer(&self, engine: &mut Engine) -> (r: Result<Recognizer, SpxError>)
        ensures
            r is Ok <==> self.values_nul_free() && !has_nul(self.audio@) && old(
                engine,
            ).entries@.len() + 4 < usize::MAX,
            r is Ok ==> final(engine).is_session(r->Ok_0.handle),
    {
        let config = match self.create_config(engine) {
            Ok(c) => c,
            Err(e) => {
                return Err(e);
            },
        };
        let audio = match self.create_audio(engine) {
            Ok(a) => a,
            Err(e) => {
                return Err(e);
            },
        };
        Recognizer::from_config(config, audio, engine)
    }
}

/// A one-shot outcome with cached reads: each field is fetched from the
/// engine once and kept.
pub struct RecognitionResult {
    /// The underlying outcome handle.
    pub handle: usize,
    /// The cached result id.
    pub id: Option<String>,
    /// The cached reason code.
    pub reason: Option<u64>,
    /// The cached text.
    pub text: Option<String>,
    /// The cached duration, in nanoseconds.
    pub duration: Option<u128>,
    /// The cached offset, in nanoseconds.
    pub offset: Option<u128>,
    /// The outcome's property bag, once fetched.
    pub props: Option<Properties>,
}

impl Handle for RecognitionResult {
    open spec fn spec_handle(&self) -> usize {
        self.handle
    }

    fn handle(&self) -> (h: usize)
        ensures
            h == self.spec_handle(),
    {
        self.handle
    }
}

impl RecognitionResult {
    /// Adopt an outcome handle with nothing cached yet.
    pub fn new(handle: usize) -> (r: RecognitionResult)
        ensures
            r.handle == handle,
            r.id is None,
            r.reason is None,
            r.text is None,
            r.duration is None,
            r.offset is None,
            r.props is None,
    {
        RecognitionResult { handle, id: None, reason: None, text: None, duration: None, offset: None, props: None }
    }

    /// The result id, fetched once.
    pub fn id(&mut self, engine: &Engine) -> (r: Result<String, SpxError>)
        ensures
            old(self).id matches Some(v) ==> (r matches Ok(v2) && v2@ == v@) && *final(self)
                == *old(self),
            old(self).id is None ==> (engine.is_outcome(old(self).handle) <==> r is Ok),
            old(self).id is None && r is Ok ==> r->Ok_0@ == engine.outcome_at(old(self).handle).id@
                && (final(self).id matches Some(v) && v@ == engine.outcome_at(
                old(self).handle,
            ).id@),
            final(self).handle == old(self).handle,
            final(self).reason == old(self).reason,
            final(self).text == old(self).text,
            final(self).duration == old(self).duration,
            final(self).offset == old(self).offset,
            final(self).props == old(self).props,
    {
        match &self.id {
            Some(v) => Ok(v.clone()),
            None => {
                let v = match engine.result_id(self.handle) {
                    Ok(v) => v,
                    Err(e) => {
                        return Err(e);
                    },
                };
                self.id = Some(v.clone());
                Ok(v)
            },
        }
    }

    /// The reason code, fetched once.
    pub fn reason(&mut self, engine: &Engine) -> (r: Result<u64, SpxError>)
        ensures
            old(self).reason matches Some(v) ==> r == Ok::<u64, SpxError>(v) && *final(self)
                == *old(self),
            old(self).reason is None ==> (engine.is_outcome(old(self).handle) <==> r is Ok),
            old(self).reason is None && r is Ok ==> r->Ok_0 == engine.outcome_at(
                old(self).handle,
            ).reason && final(self).reason == Some(r->Ok_0),
            final(self).handle == old(self).handle,
            final(self).id == old(self).id,
            final(self).text == old(self).text,
            final(self).duration == old(self).duration,
            final(self).offset == old(self).offset,
            final(self).props == old(self).props,
    {
        match &self.reason {
            Some(v) => Ok(*v),
            None => {
                let v = match engine.result_reason(self.handle) {
                    Ok(v) => v,
                    Err(e) => {
                        return Err(e);
                    },
                };
                self.reason = Some(v);
                Ok(v)
            },
        }
    }

    /// The recognized text, fetched once.
    pub fn text(&mut self, engine: &Engine) -> (r: Result<String, SpxError>)
        ensures
            old(self).text matches Some(v) ==> (r matches Ok(v2) && v2@ == v@) && *final(self)
                == *old(self),
            old(self).text is None ==> (engine.is_outcome(old(self).handle) <==> r is Ok),
            old(self).text is None && r is Ok ==> r->Ok_0@ == engine.outcome_at(
                old(self).handle,
            ).text@,
            final(self).handle == old(self).handle,
            final(self).id == old(self).id,
            final(self).reason == old(self).reason,
            final(self).duration == old(self).duration,
            final(self).offset == old(self).offset,
            final(self).props == old(self).props,
    {
        match &self.text {
            Some(v) => Ok(v.clone()),
            None => {
                let v = match engine.result_text(self.handle) {
                    Ok(v) => v,
                    Err(e) => {
                        return Err(e);
                    },
                };
                self.text = Some(v.clone());
                Ok(v)
            },
        }
    }

    /// The duration in nanoseconds, fetched once.
    pub fn duration(&mut self, engine: &Engine) -> (r: Result<u128, SpxError>)
        ensures
            old(self).duration matches Some(v) ==> r == Ok::<u128, SpxError>(v) && *final(self)
                == *old(self),
            old(self).duration is None ==> (engine.is_outcome(old(self).handle) <==> r is Ok),
            old(self).duration is None && r is Ok ==> r->Ok_0 == spec_ticks_to_nanos(
                engine.outcome_at(old(self).handle).duration_ticks,
            ),
            final(self).handle == old(self).handle,
            final(self).id == old(self).id,
            final(self).reason == old(self).reason,
            final(self).text == old(self).text,
            final(self).offset == old(self).offset,
            final(self).props == old(self).props,
    {
        match &self.duration {
            Some(v) => Ok(*v),
            None => {
                let t = match engine.result_duration_ticks(self.handle) {
                    Ok(v) => v,
                    Err(e) => {
                        return Err(e);
                    },
                };
                let v = ticks_to_nanos(t);
                self.duration = Some(v);
                Ok(v)
            },
        }
    }

    /// The offset in nanoseconds, fetched once.
    pub fn offset(&mut self, engine: &Engine) -> (r: Result<u128, SpxError>)
        ensures
            old(self).offset matches Some(v) ==> r == Ok::<u128, SpxError>(v) && *final(self)
                == *old(self),
            old(self).offset is None ==> (engine.is_outcome(old(self).handle) <==> r is Ok),
            old(self).offset is None && r is Ok ==> r->Ok_0 == spec_ticks_to_nanos(
                engine.outcome_at(old(self).handle).offset_ticks,
            ),
            final(self).handle == old(self).handle,
            final(self).id == old(self).id,
            final(self).reason == old(self).reason,
            final(self).text == old(self).text,
            final(self).duration == old(self).duration,
            final(self).props == old(self).props,
    {
        match &self.offset {
            Some(v) => Ok(*v),
            None => {
                let t = match engine.result_offset_ticks(self.handle) {
                    Ok(v) => v,
                    Err(e) => {
                        return Err(e);
                    },
                };
                let v = ticks_to_nanos(t);
                self.offset = Some(v);
                Ok(v)
            },
        }
    }

    /// The outcome's property bag, fetched once; the engine hands it out a
    /// single time.
    fn props(&mut self, engine: &mut Engine) -> (r: Result<usize, SpxError>)
        ensures
            old(self).props matches Some(p) ==> r == Ok::<usize, SpxError>(p.handle) && *final(self)
                == *old(self) && *final(engine) == *old(engine),
            old(self).props is None ==> (r is Ok <==> old(engine).is_outcome(old(self).handle)
                && old(engine).can_alloc()),
            old(self).props is None && r is Ok ==> (final(self).props matches Some(p) && p.handle
                == r->Ok_0) && final(engine).is_bag(r->Ok_0),
            old(self).props is None && r is Ok ==> final(engine).bag_id_entries(r->Ok_0) == old(
                engine,
            ).outcome_at(old(self).handle).bag.by_id@,
            old(self).props is None && r is Ok ==> final(engine).bag_name_entries(r->Ok_0) == old(
                engine,
            ).outcome_at(old(self).handle).bag.by_name@,
            final(self).handle == old(self).handle,
            r is Err ==> *final(engine) == *old(engine) && *final(self) == *old(self),
    {
        match &self.props {
            Some(p) => Ok(p.handle),
            None => {
                let hbag = match engine.result_bag(self.handle) {
                    Ok(h) => h,
                    Err(e) => {
                        return Err(e);
                    },
                };
                self.props = Some(Properties::new(hbag));
                Ok(hbag)
            },
        }
    }

    /// Read a property of the outcome by numeric id: the first read fetches
    /// the outcome's bag once and keeps it; a key never set reads as the
    /// blank default.
    pub fn get_by_id(&mut self, engine: &mut Engine, id: u32) -> (r: Result<String, SpxError>)
        ensures
            final(self).handle == old(self).handle,
            old(self).props matches Some(p) ==> *final(engine) == *old(engine) && *final(self)
                == *old(self) && (old(engine).is_bag(p.handle) <==> r is Ok) && (r is Ok ==> r->Ok_0@
                == old(engine).bag_value_id(p.handle, id)),
            old(self).props is None && old(engine).is_outcome(old(self).handle) && old(
                engine,
            ).can_alloc() ==> r is Ok && r->Ok_0@ == crate::engine::stored_id(
                old(engine).outcome_at(old(self).handle).bag.by_id@,
                id,
            ) && (final(self).props matches Some(p2) && final(engine).is_bag(p2.handle)),
            old(self).props is None && !old(engine).is_outcome(old(self).handle) ==> r is Err
                && *final(engine) == *old(engine),
    {
        let hbag = match self.props(engine) {
            Ok(h) => h,
            Err(e) => {
                return Err(e);
            },
        };
        engine.bag_get_by_id(hbag, id)
    }

    /// Read a property of the outcome by name, under the same caching; a
    /// name with an interior nul byte cannot cross to the engine and is
    /// refused before anything is fetched.
    pub fn get_by_name(&mut self, engine: &mut Engine, name: &String) -> (r: Result<
        String,
        SpxError,
    >)
        ensures
            final(self).handle == old(self).handle,
            has_nul(name@) ==> r == Err::<String, SpxError>(SpxError::IsNull) && *final(engine)
                == *old(engine) && *final(self) == *old(self),
            !has_nul(name@) ==> (old(self).props matches Some(p) ==> *final(engine) == *old(
                engine,
            ) && *final(self) == *old(self) && (old(engine).is_bag(p.handle) <==> r is Ok) && (r
                is Ok ==> r->Ok_0@ == old(engine).bag_value_name(p.handle, name@))),
            !has_nul(name@) && old(self).props is None && old(engine).is_outcome(old(self).handle)
                && old(engine).can_alloc() ==> r is Ok && r->Ok_0@ == crate::engine::stored_name(
                old(engine).outcome_at(old(self).handle).bag.by_name@,
                name@,
            ) && (final(self).props matches Some(p2) && final(engine).is_bag(p2.handle)),
            !has_nul(name@) && old(self).props is None && !old(engine).is_outcome(old(self).handle)
                ==> r is Err && *final(engine) == *old(engine),
    {
        if contains_nul(name.as_str()) {
            return Err(SpxError::IsNull);
        }
        let hbag = match self.props(engine) {
            Ok(h) => h,
            Err(e) => {
                return Err(e);
            },
        };
        engine.bag_get_by_name(hbag, name)
    }

    /// Release the outcome handle and the fetched bag handle: the engine's
    /// validity check runs before each, so a handle already dead is not
    /// released again, and nothing else in the engine changes.
    pub fn release(&mut self, engine: &mut Engine)
        ensures
            final(self).handle == crate::INVALID_HANDLE,
            final(self).props is None,
            !final(engine).valid(old(self).handle),
            old(self).props matches Some(p) ==> !final(engine).valid(p.handle),
            final(engine).entries@.len() == old(engine).entries@.len(),
            old(self).props is None ==> (!old(engine).valid(old(self).handle) ==> *final(engine)
                == *old(engine)),
            old(self).props is None ==> (old(engine).valid(old(self).handle) ==> old(
                engine,
            ).same_but_entry(*final(engine), old(self).handle)),
            old(self).props matches Some(p) ==> forall|j: int|
                0 <= j < old(engine).entries@.len() && j != old(self).handle - 1 && j != p.handle
                    - 1 ==> #[trigger] final(engine).entries@[j] == old(engine).entries@[j],
            final(engine).outcomes == old(engine).outcomes,
            final(engine).callbacks == old(engine).callbacks,
            final(engine).slots == old(engine).slots,
            final(engine).spoken == old(engine).spoken,
            final(engine).formats == old(engine).formats,
    {
        let mut taken: Option<Properties> = None;
        core::mem::swap(&mut self.props, &mut taken);
        match taken {
            Some(mut p) => {
                p.release(engine);
            },
            None => {},
        }
        if engine.is_valid(self.handle) {
            engine.release_handle(self.handle);
        }
        self.handle = crate::INVALID_HANDLE;
    }
}

} // verus!
