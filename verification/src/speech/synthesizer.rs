//! Synthesizer sessions: text to speech with streaming support.
//!
//! A synthesizer is the same session shape as a recognizer — one handle, an
//! audio resource, at most one live bridge — with the one-shot and
//! continuous entry points taking text.  Its event stream terminates at the
//! session-stopped category like any other, and at the canceled category as
//! well, since cancellation is how a synthesis session ends early.

use vstd::prelude::*;

use crate::engine::{Engine, FiredEvent};
use crate::error::SpxError;
use crate::properties::{contains_nul, Properties, PropertyBag};
use crate::speech::audio::Audio;
use crate::speech::events::{
    EventResult, Flags, CANCELED, RECOGNIZED, RECOGNIZING, SESSION_STARTED, SESSION_STOPPED,
};
use crate::speech::recognizer::EventStream;
use crate::{Handle, INVALID_HANDLE};

verus! {

/// An owned async-operation token of a synthesis call.
pub struct SynthesizerAsync {
    /// The underlying handle.
    pub handle: usize,
}

impl SynthesizerAsync {
    /// Adopt ownership of an async-operation handle.
    pub fn new(handle: usize) -> (r: SynthesizerAsync)
        ensures
            r.handle == handle,
    {
        SynthesizerAsync { handle }
    }

    /// Whether the underlying handle is still live.
    pub fn is_valid(&self, engine: &Engine) -> (r: bool)
        ensures
            r == engine.valid(self.handle),
    {
        engine.is_valid(self.handle)
    }

    /// Release the underlying handle, skipping a handle the engine already
    /// reports as dead.
    pub fn release(&mut self, engine: &mut Engine)
        ensures
            final(self).handle == INVALID_HANDLE,
            !old(engine).valid(old(self).handle) ==> *final(engine) == *old(engine),
            old(engine).valid(old(self).handle) ==> old(engine).same_but_entry(
                *final(engine),
                old(self).handle,
            ) && !final(engine).valid(old(self).handle),
    {
        if engine.is_valid(self.handle) {
            engine.release_handle(self.handle);
        }
        self.handle = INVALID_HANDLE;
    }
}

impl Handle for SynthesizerAsync {
    open spec fn spec_handle(&self) -> usize {
        self.handle
    }

    fn handle(&self) -> (h: usize)
        ensures
            h == self.spec_handle(),
    {
        self.handle
    }
}

/// A synthesizer session: one handle, its audio output, at most one live
/// bridge, and the session's property bag.
pub struct Synthesizer {
    /// The underlying synthesizer handle.
    pub handle: usize,
    /// The categories this session always registers, set at construction.
    pub flags: Flags,
    /// The audio output of the session.
    pub audio: Audio,
    /// The context token of the live bridge, while started.
    pub sink: Option<usize>,
    /// The session's property bag.
    pub props: Properties,
}

impl Handle for Synthesizer {
    open spec fn spec_handle(&self) -> usize {
        self.handle
    }

    fn handle(&self) -> (h: usize)
        ensures
            h == self.spec_handle(),
    {
        self.handle
    }
}

impl Synthesizer {
    /// Adopt a synthesizer handle with its audio output, and fetch the
    /// session's property bag.
    pub fn new(handle: usize, audio: Audio, flags: Flags, engine: &mut Engine) -> (r: Result<
        Synthesizer,
        SpxError,
    >)
        ensures
            old(engine).can_alloc() <==> r is Ok,
            r is Ok ==> r->Ok_0.handle == handle,
            r is Ok ==> r->Ok_0.flags == flags,
            r is Ok ==> r->Ok_0.sink is None,
            r is Ok ==> final(engine).is_bag(r->Ok_0.props.handle),
            r is Ok ==> final(engine).entries@.len() == old(engine).entries@.len() + 1,
            forall|j: int|
                0 <= j < old(engine).entries@.len() ==> #[trigger] final(engine).entries@[j]
                    == old(engine).entries@[j],
            final(engine).entries@.len() >= old(engine).entries@.len(),
            final(engine).outcomes == old(engine).outcomes,
            final(engine).callbacks == old(engine).callbacks,
            final(engine).slots == old(engine).slots,
            final(engine).spoken == old(engine).spoken,
            final(engine).formats == old(engine).formats,
            r is Err ==> *final(engine) == *old(engine),
    {
        let hbag = match engine.open_bag() {
            Ok(h) => h,
            Err(e) => {
                return Err(e);
            },
        };
        Ok(Synthesizer { handle, flags, audio, sink: None, props: Properties::new(hbag) })
    }

    /// Hand a plain text to the asynchronous synthesis entry point.
    pub fn synthesize(&mut self, engine: &mut Engine, text: &str) -> (r: Result<(), SpxError>)
        ensures
            r is Ok <==> !crate::properties::has_nul(text@) && old(engine).is_session(old(self).handle)
                && old(engine).can_alloc(),
            crate::properties::has_nul(text@) ==> r == Err::<(), SpxError>(SpxError::IsNull)
                && *final(engine) == *old(engine),
            r is Ok ==> final(engine).spoken@.len() == old(engine).spoken@.len() + 1,
            r is Ok ==> final(engine).spoken@[old(engine).spoken@.len() as int]@ == text@,
            r is Ok ==> forall|j: int|
                0 <= j < old(engine).spoken@.len() ==> #[trigger] final(engine).spoken@[j] == old(
                    engine,
                ).spoken@[j],
            r is Err ==> final(engine).spoken == old(engine).spoken,
    {
        if contains_nul(text) {
            return Err(SpxError::IsNull);
        }
        let owned = text.to_owned();
        let h = match engine.speak(self.handle, owned) {
            Ok(h) => h,
            Err(e) => {
                return Err(e);
            },
        };
        let mut sa = SynthesizerAsync::new(h);
        sa.release(engine);
        Ok(())
    }

    /// Hand a marked-up text to the asynchronous synthesis entry point.
    pub fn ssml_synthesis(&mut self, engine: &mut Engine, text: &str) -> (r: Result<(), SpxError>)
        ensures
            r is Ok <==> !crate::properties::has_nul(text@) && old(engine).is_session(old(self).handle)
                && old(engine).can_alloc(),
            r is Ok ==> final(engine).spoken@.len() == old(engine).spoken@.len() + 1,
            r is Ok ==> final(engine).spoken@[old(engine).spoken@.len() as int]@ == text@,
            r is Err ==> final(engine).spoken == old(engine).spoken,
    {
        self.synthesize(engine, text)
    }

    /// Start speaking a plain text, asynchronously.
    pub fn start_synthesize(&mut self, engine: &mut Engine, text: &str) -> (r: Result<(), SpxError>)
        ensures
            r is Ok <==> !crate::properties::has_nul(text@) && old(engine).is_session(old(self).handle)
                && old(engine).can_alloc(),
            r is Ok ==> final(engine).spoken@.len() == old(engine).spoken@.len() + 1,
            r is Ok ==> final(engine).spoken@[old(engine).spoken@.len() as int]@ == text@,
            r is Err ==> final(engine).spoken == old(engine).spoken,
    {
        self.synthesize(engine, text)
    }

    /// Start speaking a marked-up text, asynchronously.
    pub fn start_ssml_synthesis(&mut self, engine: &mut Engine, text: &str) -> (r: Result<
        (),
        SpxError,
    >)
        ensures
            r is Ok <==> !crate::properties::has_nul(text@) && old(engine).is_session(old(self).handle)
                && old(engine).can_alloc(),
            r is Ok ==> final(engine).spoken@.len() == old(engine).spoken@.len() + 1,
            r is Ok ==> final(engine).spoken@[old(engine).spoken@.len() as int]@ == text@,
            r is Err ==> final(engine).spoken == old(engine).spoken,
    {
        self.synthesize(engine, text)
    }

    /// The blocking one-shot synthesis of a plain text: the text is handed
    /// to the engine, and the next scripted outcome comes back classified.
    pub fn synthesis_once(&mut self, engine: &mut Engine, text: &str) -> (r: Result<
        EventResult,
        SpxError,
    >)
        ensures
            r is Ok <==> !crate::properties::has_nul(text@) && old(engine).is_session(old(self).handle)
                && old(engine).outcomes@.len() > 0 && old(engine).entries@.len() + 2 < usize::MAX,
            crate::properties::has_nul(text@) ==> r == Err::<EventResult, SpxError>(
                SpxError::IsNull,
            ) && *final(engine) == *old(engine),
            r is Ok ==> final(engine).spoken@.len() == old(engine).spoken@.len() + 1,
            r is Ok ==> final(engine).spoken@[old(engine).spoken@.len() as int]@ == text@,
            r is Ok ==> r->Ok_0.reason.bits == crate::speech::events::spec_classify(
                old(engine).outcomes@[0].reason,
            ),
            r is Ok ==> final(engine).is_outcome(r->Ok_0.handle),
            r is Ok ==> final(engine).outcome_at(r->Ok_0.handle).text == old(
                engine,
            ).outcomes@[0].text,
            r is Ok ==> final(engine).outcome_at(r->Ok_0.handle).synthesis == old(
                engine,
            ).outcomes@[0].synthesis,
            r is Ok ==> final(engine).outcomes@ == old(engine).outcomes@.remove(0),
    {
        if contains_nul(text) {
            return Err(SpxError::IsNull);
        }
        let owned = text.to_owned();
        let hres = match engine.speak_once(self.handle, owned) {
            Ok(h) => h,
            Err(e) => {
                return Err(e);
            },
        };
        let r = EventResult::new(Flags::empty(), hres, engine);
        proof {
            let c = crate::speech::events::spec_classify(old(engine).outcomes@[0].reason);
            assert(0u64 | c == c) by (bit_vector);
        }
        r
    }

    /// The blocking one-shot synthesis of a marked-up text.
    pub fn ssml_synthesis_once(&mut self, engine: &mut Engine, text: &str) -> (r: Result<
        EventResult,
        SpxError,
    >)
        ensures
            r is Ok <==> !crate::properties::has_nul(text@) && old(engine).is_session(old(self).handle)
                && old(engine).outcomes@.len() > 0 && old(engine).entries@.len() + 2 < usize::MAX,
            r is Ok ==> final(engine).spoken@.len() == old(engine).spoken@.len() + 1,
            r is Ok ==> final(engine).spoken@[old(engine).spoken@.len() as int]@ == text@,
            r is Ok ==> r->Ok_0.reason.bits == crate::speech::events::spec_classify(
                old(engine).outcomes@[0].reason,
            ),
            r is Ok ==> final(engine).is_outcome(r->Ok_0.handle),
            r is Ok ==> final(engine).outcomes@ == old(engine).outcomes@.remove(0),
    {
        self.synthesis_once(engine, text)
    }

    /// Input audio data through the session's audio resource.
    pub fn write_stream(&mut self, engine: &mut Engine, buffer: &[u8]) -> (r: Result<(), SpxError>)
        ensures
            old(self).audio.stream is None ==> r == Err::<(), SpxError>(SpxError::IsNothing)
                && *final(engine) == *old(engine),
            final(self).handle == old(self).handle,
    {
        self.audio.write(engine, buffer)
    }

    /// Output audio data through the session's audio resource.
    pub fn read_stream(&mut self, engine: &mut Engine, want: usize) -> (r: Result<
        Vec<u8>,
        SpxError,
    >)
        requires
            old(self).audio.wf(),
        ensures
            old(self).audio.stream is None ==> r == Err::<Vec<u8>, SpxError>(SpxError::IsNothing)
                && *final(engine) == *old(engine),
            final(self).audio.wf(),
            final(self).handle == old(self).handle,
    {
        self.audio.read(engine, want)
    }

    /// Close the session's audio resource gracefully.
    pub fn close_stream(&mut self, engine: &mut Engine) -> (r: Result<(), SpxError>)
        ensures
            old(self).audio.stream is None ==> r is Ok && *final(engine) == *old(engine),
            final(self).handle == old(self).handle,
            final(self).sink == old(self).sink,
            final(engine).outcomes == old(engine).outcomes,
            final(engine).callbacks == old(engine).callbacks,
            final(engine).slots == old(engine).slots,
            final(engine).spoken == old(engine).spoken,
    {
        self.audio.close(engine)
    }

    /// Pause synthesis delivery without tearing the bridge down.
    pub fn pause(&self, engine: &mut Engine) -> (r: Result<(), SpxError>)
        ensures
            old(engine).is_session(self.handle) <==> r is Ok,
            r is Ok ==> old(engine).same_but_entry(*final(engine), self.handle),
            r is Ok ==> !final(engine).session_enabled(self.handle),
            r is Err ==> *final(engine) == *old(engine),
    {
        engine.disable(self.handle)
    }

    /// Resume a paused session.
    pub fn resume(&self, engine: &mut Engine) -> (r: Result<(), SpxError>)
        ensures
            old(engine).is_session(self.handle) <==> r is Ok,
            r is Ok ==> old(engine).same_but_entry(*final(engine), self.handle),
            r is Ok ==> final(engine).session_enabled(self.handle),
            r is Err ==> *final(engine) == *old(engine),
    {
        engine.enable(self.handle)
    }

    /// Whether the session is running, by the live bridge it holds.
    pub fn started(&self) -> (r: bool)
        ensures
            r == (self.sink is Some),
    {
        match &self.sink {
            Some(_) => true,
            None => false,
        }
    }

    /// Start the synthesis session with the default categories: session
    /// start and cancellation are always on.
    pub fn start(&mut self, engine: &mut Engine) -> (r: Result<EventStream, SpxError>)
        ensures
            old(self).sink is Some ==> r == Err::<EventStream, SpxError>(SpxError::AlreadyExists)
                && *final(self) == *old(self) && *final(engine) == *old(engine),
            r is Ok ==> final(self).sink == Some(r->Ok_0.token),
            r is Ok ==> r->Ok_0.filter.bits == old(self).flags.bits | (SESSION_STARTED | CANCELED),
            r is Ok ==> r->Ok_0.terminal.bits == SESSION_STOPPED | CANCELED,
            r is Ok ==> !r->Ok_0.stopped,
            r is Ok ==> final(engine).slot_is_alive(r->Ok_0.token),
            r is Ok ==> final(engine).slot_queue(r->Ok_0.token) == Seq::<FiredEvent>::empty(),
            r is Err ==> *final(self) == *old(self),
    {
        self.start_flags(engine, Flags::new(SESSION_STARTED | CANCELED))
    }

    /// Tear the bridge down: close the audio stream and drop the strong
    /// sender, after which a late callback's delivery fails and is safely
    /// ignored.
    pub fn stop(&mut self, engine: &mut Engine) -> (r: Result<(), SpxError>)
        ensures
            r is Ok ==> final(self).sink is None,
            old(self).sink matches Some(token) ==> (r is Ok ==> !final(engine).slot_is_alive(
                token,
            ) && final(engine).slot_queue(token) == old(engine).slot_queue(token)),
            final(self).handle == old(self).handle,
            final(engine).outcomes == old(engine).outcomes,
            final(engine).callbacks == old(engine).callbacks,
            final(engine).spoken == old(engine).spoken,
    {
        match self.close_stream(engine) {
            Ok(_) => {},
            Err(e) => {
                return Err(e);
            },
        }
        let mut taken: Option<usize> = None;
        core::mem::swap(&mut self.sink, &mut taken);
        match taken {
            Some(token) => {
                engine.drop_sender(token);
            },
            None => {},
        }
        Ok(())
    }

    /// Start the synthesis session with extra categories; a running session
    /// is refused.  The stream returned terminates at the session-stopped
    /// and canceled categories.
    pub fn start_flags(&mut self, engine: &mut Engine, flags: Flags) -> (r: Result<
        EventStream,
        SpxError,
    >)
        ensures
            old(self).sink is Some ==> r == Err::<EventStream, SpxError>(SpxError::AlreadyExists)
                && *final(self) == *old(self) && *final(engine) == *old(engine),
            r is Ok <==> old(self).sink is None && old(engine).valid(old(self).handle),
            r is Ok ==> r->Ok_0.token == old(engine).slots@.len(),
            r is Ok ==> r->Ok_0.filter.bits == old(self).flags.bits | flags.bits,
            r is Ok ==> r->Ok_0.terminal.bits == SESSION_STOPPED | CANCELED,
            r is Ok ==> !r->Ok_0.stopped,
            r is Ok ==> final(self).sink == Some(r->Ok_0.token),
            r is Ok ==> final(self).handle == old(self).handle,
            r is Ok ==> final(engine).slot_is_alive(r->Ok_0.token),
            r is Ok ==> final(engine).slot_queue(r->Ok_0.token) == Seq::<FiredEvent>::empty(),
            r is Err ==> *final(self) == *old(self),
            final(engine).outcomes == old(engine).outcomes,
            final(engine).spoken == old(engine).spoken,
            final(engine).entries == old(engine).entries,
    {
        if self.started() {
            return Err(SpxError::AlreadyExists);
        }
        if !engine.is_valid(self.handle) {
            return Err(SpxError::ApiError(crate::engine::ERR_INVALID_HANDLE));
        }
        let combined = self.flags.or(flags);
        let token = engine.new_slot();
        let reception = EventStream::new(token, combined, Flags::new(SESSION_STOPPED | CANCELED));
        self.synth_register_bit(engine, combined, RECOGNIZING, token);
        self.synth_register_bit(engine, combined, RECOGNIZED, token);
        self.synth_register_bit(engine, combined, SESSION_STARTED, token);
        self.synth_register_bit(engine, combined, CANCELED, token);
        self.sink = Some(token);
        Ok(reception)
    }

    /// Register the callback for one category bit, where the combined mask
    /// asks for it.
    fn synth_register_bit(&self, engine: &mut Engine, combined: Flags, bit: u64, token: usize)
        requires
            old(engine).valid(self.handle),
        ensures
            final(engine).entries == old(engine).entries,
            final(engine).outcomes == old(engine).outcomes,
            final(engine).slots == old(engine).slots,
            final(engine).spoken == old(engine).spoken,
            forall|o: usize, f: u64|
                #[trigger] crate::engine::reg_lookup(final(engine).callbacks@, o, f) == if (
                combined.bits & bit == bit && bit != 0 && o == self.handle && f == bit) {
                    Some(token)
                } else {
                    crate::engine::reg_lookup(old(engine).callbacks@, o, f)
                },
    {
        if combined.contains(Flags::new(bit)) && bit != 0 {
            let set = engine.set_callback(self.handle, bit, token);
            proof {
                assert(set is Ok);
                crate::engine::lemma_reg_lookup_push(
                    old(engine).callbacks@,
                    crate::engine::CallbackReg { owner: self.handle, flag: bit, token },
                );
            }
        }
    }
}

impl PropertyBag for Synthesizer {
    open spec fn bag_handle(&self) -> usize {
        self.props.handle
    }

    fn get_by_id(&self, engine: &Engine, id: u32) -> (r: Result<String, SpxError>) {
        self.props.get_by_id(engine, id)
    }

    fn get_by_name(&self, engine: &Engine, name: &String) -> (r: Result<String, SpxError>) {
        self.props.get_by_name(engine, name)
    }

    fn put_by_id(&self, engine: &mut Engine, id: u32, value: &str) -> (r: Result<(), SpxError>) {
        self.props.put_by_id(engine, id, value)
    }

    fn put_by_name(&self, engine: &mut Engine, name: &str, value: &str) -> (r: Result<
        (),
        SpxError,
    >) {
        self.props.put_by_name(engine, name, value)
    }
}

} // verus!
