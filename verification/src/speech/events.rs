//! Events, categories and results.
//!
//! The category taxonomy is a bitmask: each callback entry point owns one
//! source bit, and composite result categories are derived by classifying the
//! engine's reason code.  Classification is a pure function, stated here as
//! spec functions the executable conversions are proved against.

use vstd::prelude::*;

use crate::engine::{
    Engine, ResultData, CANCEL_CODE_NO_ERROR, ERR_INVALID_HANDLE, ERR_NO_RESULT,
    NO_MATCH_INITIAL_BABBLE_TIMEOUT, NO_MATCH_INITIAL_SILENCE_TIMEOUT, REASON_CANCELED,
    REASON_NO_MATCH, REASON_RECOGNIZED_INTENT, REASON_RECOGNIZED_SPEECH,
    REASON_RECOGNIZING_INTENT, REASON_RECOGNIZING_SPEECH, REASON_SYNTHESIZING_AUDIO,
    REASON_SYNTHESIZING_AUDIO_COMPLETE, REASON_TRANSLATED_SPEECH, REASON_TRANSLATING_SPEECH,
};
use crate::error::SpxError;
use crate::properties::{Properties, PropertyBag};

verus! {

/// Category bit: the connection to the service was established.
pub const CONNECTED: u64 = 0b0001;

/// Category bit: the connection to the service was dropped.
pub const DISCONNECTED: u64 = 0b0010;

/// Both connection categories.
pub const CONNECTION: u64 = 0b0011;

/// Category bit: a session started.
pub const SESSION_STARTED: u64 = 0b0100;

/// Category bit: a session stopped; terminates the event stream.
pub const SESSION_STOPPED: u64 = 0b1000;

/// Both session categories.
pub const SESSION: u64 = 0b1100;

/// Category bit: the start of speech was detected.
pub const SPEECH_START_DETECTED: u64 = 0b0001_0000;

/// Category bit: the end of speech was detected.
pub const SPEECH_END_DETECTED: u64 = 0b0010_0000;

/// Both speech boundary categories.
pub const SPEECH_DETECTION: u64 = 0b0011_0000;

/// Category bit: an interim hypothesis.
pub const RECOGNIZING: u64 = 0b0100_0000;

/// Category bit: a final result.
pub const RECOGNIZED: u64 = 0b1000_0000;

/// Both recognition categories.
pub const RECOGNITION: u64 = 0b1100_0000;

/// Modality bit: plain speech recognition.
pub const SPEECH: u64 = 0b0001_0000_0000;

/// Modality bit: intent recognition.
pub const INTENT: u64 = 0b0010_0000_0000;

/// Modality bit: translation.
pub const TRANSLATION: u64 = 0b0100_0000_0000;

/// Modality bit: synthesis.
pub const SYNTHESIS: u64 = 0b1000_0000_0000;

/// Category bit: the operation was canceled.
pub const CANCELED: u64 = 0b0001_0000_0000_0000;

/// Category bit: the input was not recognized.
pub const NO_MATCH: u64 = 0b0010_0000_0000_0000;

/// Bitmask over the event and result categories above.
#[derive(Clone, Copy, PartialEq, Eq, Structural, Debug)]
pub struct Flags {
    /// The raw bits.
    pub bits: u64,
}

impl Flags {
    /// The mask with exactly the given bits.
    pub fn new(bits: u64) -> (r: Flags)
        ensures
            r.bits == bits,
    {
        Flags { bits }
    }

    /// The empty mask.
    pub fn empty() -> (r: Flags)
        ensures
            r.bits == 0,
    {
        Flags { bits: 0 }
    }

    /// The raw bits.
    pub fn bits(&self) -> (r: u64)
        ensures
            r == self.bits,
    {
        self.bits
    }

    /// Whether no bit is set.
    pub fn is_empty(&self) -> (r: bool)
        ensures
            r == (self.bits == 0),
    {
        self.bits == 0
    }

    /// Whether every bit of `other` is set in `self`.
    pub fn contains(self, other: Flags) -> (r: bool)
        ensures
            r == (self.bits & other.bits == other.bits),
    {
        self.bits & other.bits == other.bits
    }

    /// Whether `self` and `other` share a bit.
    pub fn intersects(self, other: Flags) -> (r: bool)
        ensures
            r == (self.bits & other.bits != 0),
    {
        self.bits & other.bits != 0
    }

    /// The union of the two masks.
    pub fn or(self, other: Flags) -> (r: Flags)
        ensures
            r.bits == self.bits | other.bits,
    {
        Flags { bits: self.bits | other.bits }
    }
}

/// The composite category a foreign reason code classifies to; unknown codes
/// classify to the empty set.
pub open spec fn spec_classify(reason: u64) -> u64 {
    if reason == REASON_NO_MATCH {
        NO_MATCH
    } else if reason == REASON_CANCELED {
        CANCELED
    } else if reason == REASON_RECOGNIZING_SPEECH {
        RECOGNIZING | SPEECH
    } else if reason == REASON_RECOGNIZED_SPEECH {
        RECOGNIZED | SPEECH
    } else if reason == REASON_RECOGNIZING_INTENT {
        RECOGNIZING | INTENT
    } else if reason == REASON_RECOGNIZED_INTENT {
        RECOGNIZED | INTENT
    } else if reason == REASON_TRANSLATING_SPEECH {
        RECOGNIZING | TRANSLATION
    } else if reason == REASON_TRANSLATED_SPEECH {
        RECOGNIZED | TRANSLATION
    } else if reason == REASON_SYNTHESIZING_AUDIO {
        RECOGNIZING | SYNTHESIS
    } else if reason == REASON_SYNTHESIZING_AUDIO_COMPLETE {
        RECOGNIZED | SYNTHESIS
    } else {
        0
    }
}

/// Convert a foreign reason code into its composite category mask.
impl core::convert::From<u64> for Flags {
    fn from(reason: u64) -> (r: Flags) {
        if reason == REASON_NO_MATCH {
            Flags { bits: NO_MATCH }
        } else if reason == REASON_CANCELED {
            Flags { bits: CANCELED }
        } else if reason == REASON_RECOGNIZING_SPEECH {
            Flags { bits: RECOGNIZING | SPEECH }
        } else if reason == REASON_RECOGNIZED_SPEECH {
            Flags { bits: RECOGNIZED | SPEECH }
        } else if reason == REASON_RECOGNIZING_INTENT {
            Flags { bits: RECOGNIZING | INTENT }
        } else if reason == REASON_RECOGNIZED_INTENT {
            Flags { bits: RECOGNIZED | INTENT }
        } else if reason == REASON_TRANSLATING_SPEECH {
            Flags { bits: RECOGNIZING | TRANSLATION }
        } else if reason == REASON_TRANSLATED_SPEECH {
            Flags { bits: RECOGNIZED | TRANSLATION }
        } else if reason == REASON_SYNTHESIZING_AUDIO {
            Flags { bits: RECOGNIZING | SYNTHESIS }
        } else if reason == REASON_SYNTHESIZING_AUDIO_COMPLETE {
            Flags { bits: RECOGNIZED | SYNTHESIS }
        } else {
            Flags { bits: 0 }
        }
    }
}

impl vstd::std_specs::convert::FromSpecImpl<u64> for Flags {
    open spec fn obeys_from_spec() -> bool {
        true
    }

    open spec fn from_spec(reason: u64) -> Flags {
        Flags { bits: spec_classify(reason) }
    }
}

/// Classifying a reason code is a function of the code alone: equal codes
/// always classify to the equal category mask.
pub proof fn lemma_classify_deterministic(a: u64, b: u64)
    requires
        a == b,
    ensures
        spec_classify(a) == spec_classify(b),
{
}

/// The readable form of a no-match reason.
#[derive(Clone, Copy, PartialEq, Eq, Structural, Debug)]
pub enum Matching {
    /// An intent was matched.
    Matched,
    /// Speech was detected but not recognized.
    NotRecognized,
    /// Only silence was detected within the initial timeout.
    InitialSilenceTimeout,
    /// Only noise was detected within the initial timeout.
    InitialBabbleTimeout,
}

/// The readable form of a foreign no-match reason code; unknown codes read as
/// not recognized.
pub open spec fn spec_matching(reason: u64) -> Matching {
    if reason == NO_MATCH_INITIAL_SILENCE_TIMEOUT {
        Matching::InitialSilenceTimeout
    } else if reason == NO_MATCH_INITIAL_BABBLE_TIMEOUT {
        Matching::InitialBabbleTimeout
    } else {
        Matching::NotRecognized
    }
}

/// Convert a foreign no-match reason code into its readable form.
impl core::convert::From<u64> for Matching {
    fn from(reason: u64) -> (r: Matching) {
        if reason == NO_MATCH_INITIAL_SILENCE_TIMEOUT {
            Matching::InitialSilenceTimeout
        } else if reason == NO_MATCH_INITIAL_BABBLE_TIMEOUT {
            Matching::InitialBabbleTimeout
        } else {
            Matching::NotRecognized
        }
    }
}

impl vstd::std_specs::convert::FromSpecImpl<u64> for Matching {
    open spec fn obeys_from_spec() -> bool {
        true
    }

    open spec fn from_spec(reason: u64) -> Matching {
        spec_matching(reason)
    }
}

/// Nanoseconds of a tick count; a tick is one hundred nanoseconds.
pub open spec fn spec_ticks_to_nanos(ticks: u64) -> u128 {
    (ticks * 100) as u128
}

/// Convert a tick count from the engine into nanoseconds.
pub fn ticks_to_nanos(ticks: u64) -> (r: u128)
    ensures
        r == spec_ticks_to_nanos(ticks),
        r == ticks * 100,
{
    (ticks as u128) * 100
}

/// The refined payload of a canceled outcome.
#[derive(Debug)]
pub struct CancellationError {
    /// The foreign cancellation reason code.
    pub reason: u64,
    /// The foreign cancellation error code.
    pub code: u64,
    /// The JSON error details the service reported.
    pub details: String,
}

/// The refined payload of a no-match outcome.
#[derive(Debug)]
pub struct NoMatchError {
    /// Why nothing was recognized.
    pub reason: Matching,
}

/// Output of recognition: the classified, flattened form of one event or
/// one-shot outcome.  Fields beyond `flag` and `session` are present exactly
/// where the category calls for them.
#[derive(Debug)]
pub struct Recognition {
    /// The composite category of the event or outcome.
    pub flag: Flags,
    /// The session id.
    pub session: String,
    /// The unique result id, for categories with an outcome.
    pub id: Option<String>,
    /// The composite reason mask, for categories with an outcome.
    pub reason: Option<Flags>,
    /// Offset in nanoseconds.
    pub offset: Option<u128>,
    /// Duration in nanoseconds.
    pub duration: Option<u128>,
    /// The recognized text.
    pub text: Option<String>,
    /// The recognized intent id.
    pub intent: Option<String>,
    /// Intent details as JSON text.
    pub details: Option<String>,
    /// The match classification.
    pub matching: Option<Matching>,
    /// Translations as (language, text) pairs.
    pub translations: Option<Vec<(String, String)>>,
    /// Synthesized audio bytes.
    pub synthesis: Option<Vec<u8>>,
}

impl Default for Recognition {
    /// An empty envelope: no category, no session, no payload.
    fn default() -> (r: Recognition)
        ensures
            r.flag.bits == 0,
            r.session@.len() == 0,
            r.id is None,
            r.reason is None,
            r.offset is None,
            r.duration is None,
            r.text is None,
            r.intent is None,
            r.details is None,
            r.matching is None,
            r.translations is None,
            r.synthesis is None,
    {
        Recognition {
            flag: Flags { bits: 0 },
            session: String::new(),
            id: None,
            reason: None,
            offset: None,
            duration: None,
            text: None,
            intent: None,
            details: None,
            matching: None,
            translations: None,
            synthesis: None,
        }
    }
}

impl Recognition {
    /// Only the speech recognition text, or the empty string where there is
    /// none.
    pub fn text_only(self) -> (r: String)
        ensures
            self.text is Some ==> r@ == self.text.unwrap()@,
            self.text is None ==> r@.len() == 0,
    {
        match self.text {
            Some(t) => t,
            None => String::new(),
        }
    }
}

/// Whether a category mask is a bare envelope: connection or session
/// categories carry no outcome handle to inspect.
pub open spec fn is_envelope(flag: u64) -> bool {
    flag & (CONNECTION | SESSION) != 0
}

/// Whether a category mask is a speech boundary: those events carry only an
/// offset.
pub open spec fn is_boundary(flag: u64) -> bool {
    flag & SPEECH_DETECTION != 0
}

/// Base trait of an event: the source category and the session it belongs
/// to.
pub trait Session: crate::Handle {
    /// The flag of the callback entry point, for specifications.
    spec fn spec_flag(&self) -> Flags;

    /// Flag of the callback entry point.  One bit flag only.
    fn flag(&self) -> (f: Flags)
        ensures
            f == self.spec_flag(),
    ;

    /// The id of the recognition session the event belongs to.
    fn session_id(&self, engine: &Engine) -> (r: Result<String, SpxError>)
        ensures
            engine.is_event(self.spec_handle()) <==> r is Ok,
            r is Ok ==> r->Ok_0@ == engine.event_at(self.spec_handle()).session@,
    ;
}

/// Trait for speech boundary detection events.
pub trait Detection: Session {
    /// The offset of the event, in nanoseconds.
    fn offset(&self, engine: &Engine) -> (r: Result<u128, SpxError>)
        ensures
            engine.is_event(self.spec_handle()) <==> r is Ok,
            r is Ok ==> r->Ok_0 == spec_ticks_to_nanos(
                engine.event_at(self.spec_handle()).offset_ticks,
            ),
    ;
}

/// Generic event fired by the engine: the raw handle it arrived with and the
/// category of the callback that fired.
pub struct Event {
    /// Underlying handle.
    pub handle: usize,
    /// Flag of the event source.
    pub flag: Flags,
}

impl Event {
    /// Adopt an event handle as handed to a callback.
    pub fn new(flag: Flags, handle: usize) -> (r: Event)
        ensures
            r.flag == flag,
            r.handle == handle,
    {
        Event { flag, handle }
    }
}

impl crate::Handle for Event {
    open spec fn spec_handle(&self) -> usize {
        self.handle
    }

    fn handle(&self) -> (h: usize)
        ensures
            h == self.spec_handle(),
    {
        self.handle
    }
}

impl Session for Event {
    open spec fn spec_flag(&self) -> Flags {
        self.flag
    }

    fn flag(&self) -> (f: Flags) {
        self.flag
    }

    fn session_id(&self, engine: &Engine) -> (r: Result<String, SpxError>) {
        engine.event_session_id(self.handle)
    }
}

impl Detection for Event {
    fn offset(&self, engine: &Engine) -> (r: Result<u128, SpxError>) {
        match engine.event_offset_ticks(self.handle) {
            Ok(t) => Ok(ticks_to_nanos(t)),
            Err(e) => Err(e),
        }
    }
}

/// Base trait of a recognition outcome.
pub trait AsrResult: crate::Handle {
    /// The composite reason mask, for specifications.
    spec fn spec_reason(&self) -> Flags;

    /// Recognition reason as a bitmask flags combination.
    fn reason(&self) -> (f: Flags)
        ensures
            f == self.spec_reason(),
    ;

    /// The unique result id.
    fn id(&self, engine: &Engine) -> (r: Result<String, SpxError>)
        ensures
            engine.is_outcome(self.spec_handle()) <==> r is Ok,
            r is Ok ==> r->Ok_0@ == engine.outcome_at(self.spec_handle()).id@,
    ;
}

/// Recognition outcome with speech position information.
pub trait RecognitionResult: AsrResult {
    /// Duration of the recognized speech, in nanoseconds.  The engine counts
    /// in ticks; a single tick is one hundred nanoseconds.
    fn duration(&self, engine: &Engine) -> (r: Result<u128, SpxError>)
        ensures
            engine.is_outcome(self.spec_handle()) <==> r is Ok,
            r is Ok ==> r->Ok_0 == spec_ticks_to_nanos(
                engine.outcome_at(self.spec_handle()).duration_ticks,
            ),
    ;

    /// Offset of the recognized speech, in nanoseconds.
    fn offset(&self, engine: &Engine) -> (r: Result<u128, SpxError>)
        ensures
            engine.is_outcome(self.spec_handle()) <==> r is Ok,
            r is Ok ==> r->Ok_0 == spec_ticks_to_nanos(
                engine.outcome_at(self.spec_handle()).offset_ticks,
            ),
    ;
}

/// Speech-to-text outcome.
pub trait SpeechResult: RecognitionResult {
    /// The text a recognition engine generated from the recognized input.
    fn text(&self, engine: &Engine) -> (r: Result<String, SpxError>)
        ensures
            engine.is_outcome(self.spec_handle()) <==> r is Ok,
            r is Ok ==> r->Ok_0@ == engine.outcome_at(self.spec_handle()).text@,
    ;
}

/// An event's outcome: the outcome handle, the composite reason derived from
/// the source category and the engine's reason code, and the outcome's
/// property bag.
pub struct EventResult {
    /// The composite reason mask.
    pub reason: Flags,
    /// The underlying outcome handle.
    pub handle: usize,
    /// The outcome's property bag.
    pub props: Properties,
}

impl crate::Handle for EventResult {
    open spec fn spec_handle(&self) -> usize {
        self.handle
    }

    fn handle(&self) -> (h: usize)
        ensures
            h == self.spec_handle(),
    {
        self.handle
    }
}

impl EventResult {
    /// Take ownership of an outcome handle: read its reason, patch the
    /// source category with the classified reason, and fetch its property
    /// bag.
    pub fn new(flag: Flags, handle: usize, engine: &mut Engine) -> (r: Result<
        EventResult,
        SpxError,
    >)
        ensures
            r is Ok <==> old(engine).is_outcome(handle) && old(engine).can_alloc(),
            r is Ok ==> r->Ok_0.handle == handle,
            r is Ok ==> r->Ok_0.reason.bits == flag.bits | spec_classify(
                old(engine).outcome_at(handle).reason,
            ),
            r is Ok ==> r->Ok_0.props.handle == (old(engine).entries@.len() + 1) as usize,
            r is Ok ==> final(engine).is_bag(r->Ok_0.props.handle),
            r is Ok ==> final(engine).bag_id_entries(r->Ok_0.props.handle) == old(
                engine,
            ).outcome_at(handle).bag.by_id@,
            r is Ok ==> final(engine).bag_name_entries(r->Ok_0.props.handle) == old(
                engine,
            ).outcome_at(handle).bag.by_name@,
            r is Ok ==> old(engine).same_but_entry_plus_one(*final(engine), handle),
            r is Ok ==> final(engine).is_outcome(handle),
            r is Ok ==> final(engine).releases(handle) == old(engine).releases(handle),
            r is Ok ==> final(engine).outcome_at(handle).reason == old(engine).outcome_at(
                handle,
            ).reason,
            r is Ok ==> final(engine).outcome_at(handle).id == old(engine).outcome_at(handle).id,
            r is Ok ==> final(engine).outcome_at(handle).text == old(engine).outcome_at(
                handle,
            ).text,
            r is Ok ==> final(engine).outcome_at(handle).duration_ticks == old(engine).outcome_at(
                handle,
            ).duration_ticks,
            r is Ok ==> final(engine).outcome_at(handle).offset_ticks == old(engine).outcome_at(
                handle,
            ).offset_ticks,
            r is Ok ==> final(engine).outcome_at(handle).cancellation_reason == old(
                engine,
            ).outcome_at(handle).cancellation_reason,
            r is Ok ==> final(engine).outcome_at(handle).error_code == old(engine).outcome_at(
                handle,
            ).error_code,
            r is Ok ==> final(engine).outcome_at(handle).no_match_reason == old(engine).outcome_at(
                handle,
            ).no_match_reason,
            r is Ok ==> final(engine).outcome_at(handle).intent == old(engine).outcome_at(
                handle,
            ).intent,
            r is Ok ==> final(engine).outcome_at(handle).translations == old(engine).outcome_at(
                handle,
            ).translations,
            r is Ok ==> final(engine).outcome_at(handle).synthesis == old(engine).outcome_at(
                handle,
            ).synthesis,
            !old(engine).is_outcome(handle) ==> r == Err::<EventResult, SpxError>(
                SpxError::ApiError(ERR_INVALID_HANDLE),
            ) && *final(engine) == *old(engine),
            r is Err ==> *final(engine) == *old(engine),
    {
        let raw = match engine.result_reason(handle) {
            Ok(v) => v,
            Err(e) => {
                return Err(e);
            },
        };
        let reason = flag.or(Flags::from(raw));
        let hb = match engine.result_bag(handle) {
            Ok(v) => v,
            Err(e) => {
                return Err(e);
            },
        };
        Ok(EventResult { reason, handle, props: Properties::new(hb) })
    }

    /// Consume an event and take ownership of its outcome; the event handle
    /// is released on every path, as its wrapper owns it alone.
    pub fn from_event(evt: Event, engine: &mut Engine) -> (r: Result<EventResult, SpxError>)
        ensures
            r is Ok <==> old(engine).is_event(evt.handle) && old(engine).event_at(
                evt.handle,
            ).outcome is Some && old(engine).entries@.len() + 2 < usize::MAX,
            r is Ok ==> r->Ok_0.handle == (old(engine).entries@.len() + 1) as usize,
            r is Ok ==> r->Ok_0.props.handle == (old(engine).entries@.len() + 2) as usize,
            r is Ok ==> r->Ok_0.reason.bits == evt.flag.bits | spec_classify(
                old(engine).event_at(evt.handle).outcome.unwrap().reason,
            ),
            r is Ok ==> final(engine).is_outcome(r->Ok_0.handle),
            r is Ok ==> final(engine).outcome_at(r->Ok_0.handle).reason == old(engine).event_at(
                evt.handle,
            ).outcome.unwrap().reason,
            r is Ok ==> final(engine).outcome_at(r->Ok_0.handle).id == old(engine).event_at(
                evt.handle,
            ).outcome.unwrap().id,
            r is Ok ==> final(engine).outcome_at(r->Ok_0.handle).text == old(engine).event_at(
                evt.handle,
            ).outcome.unwrap().text,
            r is Ok ==> final(engine).outcome_at(r->Ok_0.handle).duration_ticks == old(
                engine,
            ).event_at(evt.handle).outcome.unwrap().duration_ticks,
            r is Ok ==> final(engine).outcome_at(r->Ok_0.handle).offset_ticks == old(
                engine,
            ).event_at(evt.handle).outcome.unwrap().offset_ticks,
            r is Ok ==> final(engine).outcome_at(r->Ok_0.handle).cancellation_reason == old(
                engine,
            ).event_at(evt.handle).outcome.unwrap().cancellation_reason,
            r is Ok ==> final(engine).outcome_at(r->Ok_0.handle).error_code == old(
                engine,
            ).event_at(evt.handle).outcome.unwrap().error_code,
            r is Ok ==> final(engine).outcome_at(r->Ok_0.handle).no_match_reason == old(
                engine,
            ).event_at(evt.handle).outcome.unwrap().no_match_reason,
            r is Ok ==> final(engine).outcome_at(r->Ok_0.handle).intent == old(engine).event_at(
                evt.handle,
            ).outcome.unwrap().intent,
            r is Ok ==> final(engine).outcome_at(r->Ok_0.handle).translations == old(
                engine,
            ).event_at(evt.handle).outcome.unwrap().translations,
            r is Ok ==> final(engine).outcome_at(r->Ok_0.handle).synthesis == old(
                engine,
            ).event_at(evt.handle).outcome.unwrap().synthesis,
            r is Ok ==> final(engine).is_bag(r->Ok_0.props.handle),
            r is Ok ==> final(engine).bag_id_entries(r->Ok_0.props.handle) == old(
                engine,
            ).event_at(evt.handle).outcome.unwrap().bag.by_id@,
            r is Ok ==> final(engine).bag_name_entries(r->Ok_0.props.handle) == old(
                engine,
            ).event_at(evt.handle).outcome.unwrap().bag.by_name@,
            r is Ok ==> final(engine).entries@.len() == old(engine).entries@.len() + 2,
            r is Ok ==> forall|j: int|
                0 <= j < old(engine).entries@.len() && j != evt.handle - 1 ==> #[trigger] final(engine).entries@[j] == old(engine).entries@[j],
            final(engine).outcomes == old(engine).outcomes,
            final(engine).callbacks == old(engine).callbacks,
            final(engine).slots == old(engine).slots,
            final(engine).spoken == old(engine).spoken,
            !final(engine).valid(evt.handle),
            !old(engine).is_event(evt.handle) ==> r == Err::<EventResult, SpxError>(
                SpxError::ApiError(ERR_INVALID_HANDLE),
            ),
            old(engine).is_event(evt.handle) && old(engine).event_at(evt.handle).outcome is None
                ==> r == Err::<EventResult, SpxError>(SpxError::ApiError(ERR_NO_RESULT)),
    {
        let flag = evt.flag;
        let hevent = evt.handle;
        let hres = match engine.event_result(hevent) {
            Ok(h) => h,
            Err(e) => {
                if engine.is_valid(hevent) {
                    engine.release_handle(hevent);
                }
                return Err(e);
            },
        };
        let r = EventResult::new(flag, hres, engine);
        if engine.is_valid(hevent) {
            engine.release_handle(hevent);
        }
        r
    }

    /// Adopt a bare outcome handle, with no source category to patch.
    pub fn from_handle(handle: usize, engine: &mut Engine) -> (r: Result<EventResult, SpxError>)
        ensures
            r is Ok <==> old(engine).is_outcome(handle) && old(engine).can_alloc(),
            r is Ok ==> r->Ok_0.handle == handle,
            r is Ok ==> r->Ok_0.reason.bits == spec_classify(old(engine).outcome_at(handle).reason),
            r is Ok ==> r->Ok_0.props.handle == (old(engine).entries@.len() + 1) as usize,
            r is Ok ==> final(engine).is_bag(r->Ok_0.props.handle),
            r is Ok ==> old(engine).same_but_entry_plus_one(*final(engine), handle),
            r is Ok ==> final(engine).is_outcome(handle),
            r is Err ==> *final(engine) == *old(engine),
    {
        let r = EventResult::new(Flags::empty(), handle, engine);
        proof {
            let c = spec_classify(old(engine).outcome_at(handle).reason);
            assert(0u64 | c == c) by (bit_vector);
        }
        r
    }

    /// Release the outcome handle and its bag handle, each at most once.
    pub fn release(self, engine: &mut Engine)
        ensures
            final(engine).entries@.len() == old(engine).entries@.len(),
            forall|j: int|
                0 <= j < old(engine).entries@.len() && j != self.handle - 1 && j
                    != self.props.handle - 1 ==> #[trigger] final(engine).entries@[j] == old(
                    engine,
                ).entries@[j],
            !final(engine).valid(self.handle),
            !final(engine).valid(self.props.handle),
            final(engine).outcomes == old(engine).outcomes,
            final(engine).callbacks == old(engine).callbacks,
            final(engine).slots == old(engine).slots,
            final(engine).spoken == old(engine).spoken,
    {
        let mut props = self.props;
        props.release(engine);
        if engine.is_valid(self.handle) {
            engine.release_handle(self.handle);
        }
    }

    /// The no-match reason of the outcome, in readable form.
    pub fn no_match_reason(&self, engine: &Engine) -> (r: Result<Matching, SpxError>)
        ensures
            engine.is_outcome(self.handle) <==> r is Ok,
            r is Ok ==> r->Ok_0 == spec_matching(engine.outcome_at(self.handle).no_match_reason),
    {
        match engine.result_no_match_reason(self.handle) {
            Ok(raw) => Ok(Matching::from(raw)),
            Err(e) => Err(e),
        }
    }

    /// Convert a no-match outcome into the error it stands for.
    pub fn no_match_error(&self, engine: &Engine) -> (r: Result<Recognition, SpxError>)
        ensures
            r is Err,
            engine.is_outcome(self.handle) ==> (r matches Err(SpxError::NoMatch(n)) && n.reason
                == spec_matching(engine.outcome_at(self.handle).no_match_reason)),
    {
        let reason = match self.no_match_reason(engine) {
            Ok(m) => m,
            Err(e) => {
                return Err(e);
            },
        };
        Err(SpxError::NoMatch(NoMatchError { reason }))
    }

    /// The reason the outcome was canceled.
    pub fn cancellation_reason(&self, engine: &Engine) -> (r: Result<u64, SpxError>)
        ensures
            engine.is_outcome(self.handle) <==> r is Ok,
            r is Ok ==> r->Ok_0 == engine.outcome_at(self.handle).cancellation_reason,
    {
        engine.result_cancellation_reason(self.handle)
    }

    /// The error code of an unsuccessful outcome; a cancellation that is no
    /// error carries the no-error code.
    pub fn code(&self, engine: &Engine) -> (r: Result<u64, SpxError>)
        ensures
            engine.is_outcome(self.handle) <==> r is Ok,
            r is Ok ==> r->Ok_0 == engine.outcome_at(self.handle).error_code,
    {
        engine.result_error_code(self.handle)
    }

    /// The JSON error details of an unsuccessful outcome.
    pub fn error_details(&self, engine: &Engine) -> (r: Result<String, SpxError>)
        ensures
            engine.is_bag(self.props.handle) <==> r is Ok,
            r is Ok ==> r->Ok_0@ == engine.bag_value_id(
                self.props.handle,
                crate::properties::PROPERTY_JSON_ERROR_DETAILS,
            ),
    {
        self.props.get_by_id(engine, crate::properties::PROPERTY_JSON_ERROR_DETAILS)
    }

    /// Convert a canceled outcome into the error it stands for.
    pub fn cancellation_error(&self, engine: &Engine) -> (r: Result<Recognition, SpxError>)
        ensures
            r is Err,
            engine.is_outcome(self.handle) && engine.is_bag(self.props.handle) ==> (r matches Err(
                SpxError::Cancellation(c),
            ) && c.reason == engine.outcome_at(self.handle).cancellation_reason && c.code
                == engine.outcome_at(self.handle).error_code && c.details@ == engine.bag_value_id(
                self.props.handle,
                crate::properties::PROPERTY_JSON_ERROR_DETAILS,
            )),
    {
        let reason = match self.cancellation_reason(engine) {
            Ok(v) => v,
            Err(e) => {
                return Err(e);
            },
        };
        let code = match self.code(engine) {
            Ok(v) => v,
            Err(e) => {
                return Err(e);
            },
        };
        let details = match self.error_details(engine) {
            Ok(v) => v,
            Err(e) => {
                return Err(e);
            },
        };
        Err(SpxError::Cancellation(CancellationError { reason, code, details }))
    }

    /// The recognized intent id, empty where none was matched.
    pub fn intent(&self, engine: &Engine) -> (r: Result<String, SpxError>)
        ensures
            engine.is_outcome(self.handle) <==> r is Ok,
            r is Ok ==> r->Ok_0@ == engine.outcome_at(self.handle).intent@,
    {
        engine.result_intent(self.handle)
    }

    /// The details of the intent recognition, as the JSON text the service
    /// responded with (empty where none).
    pub fn details(&self, engine: &Engine) -> (r: Result<String, SpxError>)
        ensures
            engine.is_bag(self.props.handle) <==> r is Ok,
            r is Ok ==> r->Ok_0@ == engine.bag_value_id(
                self.props.handle,
                crate::properties::PROPERTY_LUIS_JSON_RESULT,
            ),
    {
        self.props.get_by_id(engine, crate::properties::PROPERTY_LUIS_JSON_RESULT)
    }

    /// The translations of the outcome, as (language, text) pairs; the
    /// engine hands them out once.
    pub fn translations(&self, engine: &mut Engine) -> (r: Result<Vec<(String, String)>, SpxError>)
        ensures
            old(engine).is_outcome(self.handle) <==> r is Ok,
            r is Ok ==> r->Ok_0@ == old(engine).outcome_at(self.handle).translations@,
            r is Ok ==> old(engine).same_but_entry(*final(engine), self.handle),
            r is Ok ==> final(engine).is_outcome(self.handle),
            r is Ok ==> final(engine).outcome_at(self.handle).synthesis == old(engine).outcome_at(
                self.handle,
            ).synthesis,
            r is Err ==> *final(engine) == *old(engine),
    {
        engine.result_translations(self.handle)
    }

    /// The length of the synthesized audio, for buffer allocation.
    pub fn synthesis_data_length(&self, engine: &Engine) -> (r: Result<usize, SpxError>)
        ensures
            engine.is_outcome(self.handle) <==> r is Ok,
            r is Ok ==> r->Ok_0 == engine.outcome_at(self.handle).synthesis@.len(),
    {
        engine.result_synthesis_length(self.handle)
    }

    /// The synthesized audio bytes; the engine hands them out once.
    pub fn synthesis(&self, engine: &mut Engine) -> (r: Result<Vec<u8>, SpxError>)
        ensures
            old(engine).is_outcome(self.handle) <==> r is Ok,
            r is Ok ==> r->Ok_0@ == old(engine).outcome_at(self.handle).synthesis@,
            r is Ok ==> old(engine).same_but_entry(*final(engine), self.handle),
            r is Ok ==> final(engine).is_outcome(self.handle),
            r is Err ==> *final(engine) == *old(engine),
    {
        engine.result_synthesis(self.handle)
    }
}

#[verifier::external_type_specification]
#[verifier::external_body]
/// The JSON value type of the serde_json crate, declared so that parsed
/// service responses can be carried through signatures.
pub struct ExValue(serde_json::Value);

/// Whether a text is well-formed JSON; parsing is a function of the text
/// alone.
pub uninterp spec fn is_json(s: Seq<char>) -> bool;

/// The value a well-formed JSON text parses to.
pub uninterp spec fn json_value(s: Seq<char>) -> serde_json::Value;

/// Relies on serde_json::from_str: whether the text parses, and what it
/// parses to, depend on the text alone.
#[verifier::external_body]
fn parse_json(s: &str) -> (r: Option<serde_json::Value>)
    ensures
        r is Some <==> is_json(s@),
        r matches Some(v) ==> v == json_value(s@),
{
    serde_json::from_str(s).ok()
}

impl EventResult {
    /// The details of the intent recognition, parsed: none where the
    /// service reported nothing, the parsed value where it reported
    /// well-formed JSON, and an error otherwise.
    pub fn details_json(&self, engine: &Engine) -> (r: Result<
        Option<serde_json::Value>,
        SpxError,
    >)
        ensures
            engine.is_bag(self.props.handle) && engine.bag_value_id(
                self.props.handle,
                crate::properties::PROPERTY_LUIS_JSON_RESULT,
            ).len() == 0 ==> r == Ok::<Option<serde_json::Value>, SpxError>(None),
            engine.is_bag(self.props.handle) && engine.bag_value_id(
                self.props.handle,
                crate::properties::PROPERTY_LUIS_JSON_RESULT,
            ).len() > 0 && is_json(
                engine.bag_value_id(
                    self.props.handle,
                    crate::properties::PROPERTY_LUIS_JSON_RESULT,
                ),
            ) ==> (r matches Ok(Some(v)) && v == json_value(
                engine.bag_value_id(
                    self.props.handle,
                    crate::properties::PROPERTY_LUIS_JSON_RESULT,
                ),
            )),
            engine.is_bag(self.props.handle) && engine.bag_value_id(
                self.props.handle,
                crate::properties::PROPERTY_LUIS_JSON_RESULT,
            ).len() > 0 && !is_json(
                engine.bag_value_id(
                    self.props.handle,
                    crate::properties::PROPERTY_LUIS_JSON_RESULT,
                ),
            ) ==> r is Err,
            !engine.is_bag(self.props.handle) ==> r is Err,
    {
        let raw = match self.details(engine) {
            Ok(v) => v,
            Err(e) => {
                return Err(e);
            },
        };
        if raw.as_str().is_empty() {
            return Ok(None);
        }
        match parse_json(raw.as_str()) {
            Some(v) => Ok(Some(v)),
            None => Err(SpxError::Other(String::from_str("service response is not valid JSON"))),
        }
    }
}

/// The classified form of a bare envelope event: category and session only.
pub open spec fn envelope_result(r: Recognition, flag: Flags, session: Seq<char>) -> bool {
    &&& r.flag == flag
    &&& r.session@ == session
    &&& r.id is None
    &&& r.reason is None
    &&& r.offset is None
    &&& r.duration is None
    &&& r.text is None
    &&& r.intent is None
    &&& r.details is None
    &&& r.matching is None
    &&& r.translations is None
    &&& r.synthesis is None
}

/// The classified form of a speech boundary event: category, session and
/// offset only.
pub open spec fn boundary_result(r: Recognition, flag: Flags, session: Seq<char>, ticks: u64) -> bool {
    &&& r.flag == flag
    &&& r.session@ == session
    &&& r.id is None
    &&& r.reason is None
    &&& r.offset == Some(spec_ticks_to_nanos(ticks))
    &&& r.duration is None
    &&& r.text is None
    &&& r.intent is None
    &&& r.details is None
    &&& r.matching is None
    &&& r.translations is None
    &&& r.synthesis is None
}

/// The classified form of an event that carries an outcome, before the
/// cancellation-with-error case peels off into an error: which payload
/// fields are present follows from the composite category alone.
pub open spec fn outcome_result(r: Recognition, flag: Flags, session: Seq<char>, o: ResultData) -> bool {
    let comp = flag.bits | spec_classify(o.reason);
    &&& r.flag == flag
    &&& r.session@ == session
    &&& (r.id matches Some(i) && i@ == o.id@)
    &&& r.reason == Some(Flags { bits: comp })
    &&& if comp & NO_MATCH != 0 {
        &&& r.matching == Some(spec_matching(o.no_match_reason))
        &&& r.text is None
        &&& r.duration is None
        &&& r.offset is None
        &&& r.intent is None
        &&& r.details is None
        &&& r.translations is None
        &&& r.synthesis is None
    } else if comp & CANCELED != 0 {
        &&& r.matching is None
        &&& r.text is None
        &&& r.duration is None
        &&& r.offset is None
        &&& r.intent is None
        &&& r.details is None
        &&& r.translations is None
        &&& r.synthesis is None
    } else {
        &&& (comp & RECOGNITION != 0 ==> (r.text matches Some(t) && t@ == o.text@) && r.duration
            == Some(spec_ticks_to_nanos(o.duration_ticks)) && r.offset == Some(
            spec_ticks_to_nanos(o.offset_ticks),
        ))
        &&& (comp & RECOGNITION == 0 ==> r.text is None && r.duration is None && r.offset is None)
        &&& (comp & INTENT != 0 ==> {
            &&& (o.intent@.len() > 0 ==> (r.intent matches Some(s) && s@ == o.intent@)
                && r.matching == Some(Matching::Matched))
            &&& (o.intent@.len() == 0 ==> r.intent is None && r.matching is None)
            &&& (r.details matches Some(d) && d@ == crate::engine::stored_id(
                o.bag.by_id@,
                crate::properties::PROPERTY_LUIS_JSON_RESULT,
            ))
        })
        &&& (comp & INTENT == 0 ==> r.intent is None && r.details is None && r.matching is None)
        &&& (comp & TRANSLATION != 0 ==> {
            &&& (r.translations matches Some(t) && t@ == o.translations@)
            &&& (o.synthesis@.len() > 0 ==> (r.synthesis matches Some(b) && b@ == o.synthesis@))
            &&& (o.synthesis@.len() == 0 ==> r.synthesis is None)
        })
        &&& (comp & TRANSLATION == 0 ==> r.translations is None && r.synthesis is None)
    }
}

/// The error a canceled outcome classifies to.
pub open spec fn cancellation_of(e: SpxError, o: ResultData) -> bool {
    e matches SpxError::Cancellation(c) && c.reason == o.cancellation_reason && c.code
        == o.error_code && c.details@ == crate::engine::stored_id(
        o.bag.by_id@,
        crate::properties::PROPERTY_JSON_ERROR_DETAILS,
    )
}

impl Event {
    /// Yield the classified output of the event.
    ///
    /// Connection and session categories short-circuit to a bare envelope;
    /// speech boundary categories attach only an offset; every other
    /// category fetches the outcome behind the event and classifies it.  A
    /// cancellation with a real error code comes back through the error
    /// channel, as does a no-match through its `matching` field; the event
    /// handle and the outcome's handles are consumed on every path.
    pub fn into_result(self, engine: &mut Engine) -> (r: Result<Recognition, SpxError>)
        ensures
            !old(engine).is_event(self.handle) ==> r == Err::<Recognition, SpxError>(
                SpxError::ApiError(ERR_INVALID_HANDLE),
            ) && *final(engine) == *old(engine),
            old(engine).is_event(self.handle) ==> !final(engine).valid(self.handle),
            old(engine).is_event(self.handle) && is_envelope(self.flag.bits) ==> (r matches Ok(rec)
                && envelope_result(rec, self.flag, old(engine).event_at(self.handle).session@)),
            old(engine).is_event(self.handle) && !is_envelope(self.flag.bits) && is_boundary(
                self.flag.bits,
            ) ==> (r matches Ok(rec) && boundary_result(
                rec,
                self.flag,
                old(engine).event_at(self.handle).session@,
                old(engine).event_at(self.handle).offset_ticks,
            )),
            old(engine).is_event(self.handle) && !is_envelope(self.flag.bits) && !is_boundary(
                self.flag.bits,
            ) && old(engine).event_at(self.handle).outcome is None ==> r == Err::<
                Recognition,
                SpxError,
            >(SpxError::ApiError(ERR_NO_RESULT)),
            old(engine).is_event(self.handle) && !is_envelope(self.flag.bits) && !is_boundary(
                self.flag.bits,
            ) && old(engine).event_at(self.handle).outcome is Some && old(engine).entries@.len()
                + 2 < usize::MAX && (self.flag.bits | spec_classify(
                old(engine).event_at(self.handle).outcome.unwrap().reason,
            )) & NO_MATCH == 0 && (self.flag.bits | spec_classify(
                old(engine).event_at(self.handle).outcome.unwrap().reason,
            )) & CANCELED != 0 && old(engine).event_at(self.handle).outcome.unwrap().error_code
                != CANCEL_CODE_NO_ERROR ==> (r matches Err(e) && cancellation_of(
                e,
                old(engine).event_at(self.handle).outcome.unwrap(),
            )),
            old(engine).is_event(self.handle) && !is_envelope(self.flag.bits) && !is_boundary(
                self.flag.bits,
            ) && old(engine).event_at(self.handle).outcome is Some && old(engine).entries@.len()
                + 2 < usize::MAX && !((self.flag.bits | spec_classify(
                old(engine).event_at(self.handle).outcome.unwrap().reason,
            )) & NO_MATCH == 0 && (self.flag.bits | spec_classify(
                old(engine).event_at(self.handle).outcome.unwrap().reason,
            )) & CANCELED != 0 && old(engine).event_at(self.handle).outcome.unwrap().error_code
                != CANCEL_CODE_NO_ERROR) ==> (r matches Ok(rec) && outcome_result(
                rec,
                self.flag,
                old(engine).event_at(self.handle).session@,
                old(engine).event_at(self.handle).outcome.unwrap(),
            )),
            final(engine).outcomes == old(engine).outcomes,
            final(engine).callbacks == old(engine).callbacks,
            final(engine).slots == old(engine).slots,
            final(engine).spoken == old(engine).spoken,
    {
        let flag = self.flag;
        let hevent = self.handle;
        let session = match engine.event_session_id(hevent) {
            Ok(s) => s,
            Err(e) => {
                return Err(e);
            },
        };
        let mut r = Recognition::default();
        r.flag = flag;
        r.session = session;
        if flag.intersects(Flags::new(CONNECTION | SESSION)) {
            if engine.is_valid(hevent) {
                engine.release_handle(hevent);
            }
            return Ok(r);
        }
        if flag.intersects(Flags::new(SPEECH_DETECTION)) {
            let ticks = match engine.event_offset_ticks(hevent) {
                Ok(t) => t,
                Err(e) => {
                    return Err(e);
                },
            };
            r.offset = Some(ticks_to_nanos(ticks));
            if engine.is_valid(hevent) {
                engine.release_handle(hevent);
            }
            return Ok(r);
        }
        let er = match EventResult::from_event(self, engine) {
            Ok(v) => v,
            Err(e) => {
                return Err(e);
            },
        };
        let id = match er.id(engine) {
            Ok(v) => v,
            Err(e) => {
                er.release(engine);
                return Err(e);
            },
        };
        r.id = Some(id);
        let reason = er.reason();
        r.reason = Some(reason);
        if reason.intersects(Flags::new(NO_MATCH)) {
            let matching = match er.no_match_reason(engine) {
                Ok(m) => m,
                Err(e) => {
                    er.release(engine);
                    return Err(e);
                },
            };
            r.matching = Some(matching);
            er.release(engine);
            return Ok(r);
        }
        if reason.intersects(Flags::new(CANCELED)) {
            let code = match er.code(engine) {
                Ok(c) => c,
                Err(e) => {
                    er.release(engine);
                    return Err(e);
                },
            };
            if code == CANCEL_CODE_NO_ERROR {
                er.release(engine);
                return Ok(r);
            }
            let err = match er.cancellation_error(engine) {
                Ok(rec) => {
                    proof {
                        assert(false);
                    }
                    Ok(rec)
                },
                Err(e) => Err(e),
            };
            er.release(engine);
            return err;
        }
        if reason.intersects(Flags::new(RECOGNITION)) {
            let text = match er.text(engine) {
                Ok(v) => v,
                Err(e) => {
                    er.release(engine);
                    return Err(e);
                },
            };
            r.text = Some(text);
            let duration = match er.duration(engine) {
                Ok(v) => v,
                Err(e) => {
                    er.release(engine);
                    return Err(e);
                },
            };
            r.duration = Some(duration);
            let offset = match RecognitionResult::offset(&er, engine) {
                Ok(v) => v,
                Err(e) => {
                    er.release(engine);
                    return Err(e);
                },
            };
            r.offset = Some(offset);
        }
        if reason.intersects(Flags::new(INTENT)) {
            let intent = match er.intent(engine) {
                Ok(v) => v,
                Err(e) => {
                    er.release(engine);
                    return Err(e);
                },
            };
            if !intent.as_str().is_empty() {
                r.matching = Some(Matching::Matched);
                r.intent = Some(intent);
            }
            let details = match er.details(engine) {
                Ok(v) => v,
                Err(e) => {
                    er.release(engine);
                    return Err(e);
                },
            };
            r.details = Some(details);
        }
        if reason.intersects(Flags::new(TRANSLATION)) {
            let translations = match er.translations(engine) {
                Ok(v) => v,
                Err(e) => {
                    er.release(engine);
                    return Err(e);
                },
            };
            r.translations = Some(translations);
            let sz = match er.synthesis_data_length(engine) {
                Ok(v) => v,
                Err(e) => {
                    er.release(engine);
                    return Err(e);
                },
            };
            if sz != 0 {
                let synthesis = match er.synthesis(engine) {
                    Ok(v) => v,
                    Err(e) => {
                        er.release(engine);
                        return Err(e);
                    },
                };
                r.synthesis = Some(synthesis);
            }
        }
        er.release(engine);
        Ok(r)
    }
}

impl AsrResult for EventResult {
    open spec fn spec_reason(&self) -> Flags {
        self.reason
    }

    fn reason(&self) -> (f: Flags) {
        self.reason
    }

    fn id(&self, engine: &Engine) -> (r: Result<String, SpxError>) {
        engine.result_id(self.handle)
    }
}

impl RecognitionResult for EventResult {
    fn duration(&self, engine: &Engine) -> (r: Result<u128, SpxError>) {
        match engine.result_duration_ticks(self.handle) {
            Ok(t) => Ok(ticks_to_nanos(t)),
            Err(e) => Err(e),
        }
    }

    fn offset(&self, engine: &Engine) -> (r: Result<u128, SpxError>) {
        match engine.result_offset_ticks(self.handle) {
            Ok(t) => Ok(ticks_to_nanos(t)),
            Err(e) => Err(e),
        }
    }
}

impl SpeechResult for EventResult {
    fn text(&self, engine: &Engine) -> (r: Result<String, SpxError>) {
        engine.result_text(self.handle)
    }
}

} // verus!
