//! Recognizer sessions, the callback bridge and the event stream.
//!
//! A session owns a handle and at most one live bridge: starting a
//! continuous operation opens a channel slot, registers one callback per
//! requested category, and hands back an [`EventStream`] over the slot.
//! Each callback invocation runs the trampoline: look the slot up by its
//! context token, and append the event only while the slot's strong sender
//! is held — a late invocation after teardown finds the sender dropped and
//! discards the event, which is the required no-op path.  The stream's
//! filter and termination laws are stated and proved over [`stream_yield`].

use vstd::prelude::*;

use crate::engine::{CallbackReg, Engine, EventData, FiredEvent, HandleData};
use crate::error::SpxError;
use crate::properties::contains_nul;
use crate::speech::events::{
    spec_matching, AsrResult, Event, EventResult, Flags, NoMatchError, SpeechResult, CANCELED,
    CONNECTED, DISCONNECTED, NO_MATCH, RECOGNIZED, RECOGNIZING, SESSION, SESSION_STARTED,
    SESSION_STOPPED, SPEECH_END_DETECTED, SPEECH_START_DETECTED,
};
use crate::{Handle, INVALID_HANDLE};

verus! {

/// An owned async-operation token.
pub struct RecognizerAsync {
    /// The underlying handle.
    pub handle: usize,
}

impl RecognizerAsync {
    /// Adopt ownership of an async-operation handle.
    pub fn new(handle: usize) -> (r: RecognizerAsync)
        ensures
            r.handle == handle,
    {
        RecognizerAsync { handle }
    }

    /// Whether the underlying handle is still live.
    pub fn is_valid(&self, engine: &Engine) -> (r: bool)
        ensures
            r == engine.valid(self.handle),
    {
        engine.is_valid(self.handle)
    }

    /// Release the underlying handle, skipping a handle the engine already
    /// reports as dead.
    pub fn release(&mut self, engine: &mut Engine)
        ensures
            final(self).handle == INVALID_HANDLE,
            !old(engine).valid(old(self).handle) ==> *final(engine) == *old(engine),
            old(engine).valid(old(self).handle) ==> old(engine).same_but_entry(
                *final(engine),
                old(self).handle,
            ) && !final(engine).valid(old(self).handle),
    {
        if engine.is_valid(self.handle) {
            engine.release_handle(self.handle);
        }
        self.handle = INVALID_HANDLE;
    }
}

impl Handle for RecognizerAsync {
    open spec fn spec_handle(&self) -> usize {
        self.handle
    }

    fn handle(&self) -> (h: usize)
        ensures
            h == self.spec_handle(),
    {
        self.handle
    }
}

/// An owned session handle of the engine's session family.
pub struct RecognizerSession {
    /// The underlying handle.
    pub handle: usize,
}

impl RecognizerSession {
    /// Adopt ownership of a session handle.
    pub fn new(handle: usize) -> (r: RecognizerSession)
        ensures
            r.handle == handle,
    {
        RecognizerSession { handle }
    }

    /// Whether the underlying handle is still live.
    pub fn is_valid(&self, engine: &Engine) -> (r: bool)
        ensures
            r == engine.valid(self.handle),
    {
        engine.is_valid(self.handle)
    }

    /// Release the underlying handle, skipping a handle the engine already
    /// reports as dead.
    pub fn release(&mut self, engine: &mut Engine)
        ensures
            final(self).handle == INVALID_HANDLE,
            !old(engine).valid(old(self).handle) ==> *final(engine) == *old(engine),
            old(engine).valid(old(self).handle) ==> old(engine).same_but_entry(
                *final(engine),
                old(self).handle,
            ) && !final(engine).valid(old(self).handle),
    {
        if engine.is_valid(self.handle) {
            engine.release_handle(self.handle);
        }
        self.handle = INVALID_HANDLE;
    }
}

impl Handle for RecognizerSession {
    open spec fn spec_handle(&self) -> usize {
        self.handle
    }

    fn handle(&self) -> (h: usize)
        ensures
            h == self.spec_handle(),
    {
        self.handle
    }
}

/// An owned intent trigger.
pub struct IntentTrigger {
    /// The underlying handle.
    pub handle: usize,
}

impl Handle for IntentTrigger {
    open spec fn spec_handle(&self) -> usize {
        self.handle
    }

    fn handle(&self) -> (h: usize)
        ensures
            h == self.spec_handle(),
    {
        self.handle
    }
}

impl IntentTrigger {
    /// Adopt ownership of a trigger handle.
    pub fn new(handle: usize) -> (r: IntentTrigger)
        ensures
            r.handle == handle,
    {
        IntentTrigger { handle }
    }

    /// A phrase as a singleton intent.
    pub fn from_phrase(phrase: &str, engine: &mut Engine) -> (r: Result<IntentTrigger, SpxError>)
        ensures
            r is Ok <==> !crate::properties::has_nul(phrase@) && old(engine).can_alloc(),
            crate::properties::has_nul(phrase@) ==> r == Err::<IntentTrigger, SpxError>(
                SpxError::IsNull,
            ) && *final(engine) == *old(engine),
            r is Ok ==> final(engine).valid(r->Ok_0.handle),
            r is Err ==> *final(engine) == *old(engine),
            r is Ok ==> final(engine).entries@.len() == old(engine).entries@.len() + 1,
            forall|j: int|
                0 <= j < old(engine).entries@.len() ==> #[trigger] final(engine).entries@[j]
                    == old(engine).entries@[j],
            final(engine).entries@.len() >= old(engine).entries@.len(),
            final(engine).outcomes == old(engine).outcomes,
            final(engine).callbacks == old(engine).callbacks,
            final(engine).slots == old(engine).slots,
            final(engine).spoken == old(engine).spoken,
            final(engine).formats == old(engine).formats,
    {
        if contains_nul(phrase) {
            return Err(SpxError::IsNull);
        }
        match engine.open_handle(HandleData::Plain) {
            Ok(h) => Ok(IntentTrigger { handle: h }),
            Err(e) => Err(e),
        }
    }

    /// An intent loaded from a language-understanding model by name.
    pub fn from_model(model: &Model, name: &str, engine: &mut Engine) -> (r: Result<
        IntentTrigger,
        SpxError,
    >)
        ensures
            r is Ok <==> !crate::properties::has_nul(name@) && old(engine).valid(model.handle)
                && old(engine).can_alloc(),
            crate::properties::has_nul(name@) ==> r == Err::<IntentTrigger, SpxError>(
                SpxError::IsNull,
            ) && *final(engine) == *old(engine),
            r is Ok ==> final(engine).valid(r->Ok_0.handle),
            r is Err ==> *final(engine) == *old(engine),
            r is Ok ==> final(engine).entries@.len() == old(engine).entries@.len() + 1,
            forall|j: int|
                0 <= j < old(engine).entries@.len() ==> #[trigger] final(engine).entries@[j]
                    == old(engine).entries@[j],
            final(engine).entries@.len() >= old(engine).entries@.len(),
            final(engine).outcomes == old(engine).outcomes,
            final(engine).callbacks == old(engine).callbacks,
            final(engine).slots == old(engine).slots,
            final(engine).spoken == old(engine).spoken,
            final(engine).formats == old(engine).formats,
    {
        if contains_nul(name) {
            return Err(SpxError::IsNull);
        }
        if !engine.is_valid(model.handle) {
            return Err(SpxError::ApiError(crate::engine::ERR_INVALID_HANDLE));
        }
        match engine.open_handle(HandleData::Plain) {
            Ok(h) => Ok(IntentTrigger { handle: h }),
            Err(e) => Err(e),
        }
    }

    /// All intents of a language-understanding model.
    pub fn from_model_all(model: &Model, engine: &mut Engine) -> (r: Result<
        IntentTrigger,
        SpxError,
    >)
        ensures
            r is Ok <==> old(engine).valid(model.handle) && old(engine).can_alloc(),
            r is Ok ==> final(engine).valid(r->Ok_0.handle),
            r is Err ==> *final(engine) == *old(engine),
            r is Ok ==> final(engine).entries@.len() == old(engine).entries@.len() + 1,
            forall|j: int|
                0 <= j < old(engine).entries@.len() ==> #[trigger] final(engine).entries@[j]
                    == old(engine).entries@[j],
            final(engine).entries@.len() >= old(engine).entries@.len(),
            final(engine).outcomes == old(engine).outcomes,
            final(engine).callbacks == old(engine).callbacks,
            final(engine).slots == old(engine).slots,
            final(engine).spoken == old(engine).spoken,
            final(engine).formats == old(engine).formats,
    {
        if !engine.is_valid(model.handle) {
            return Err(SpxError::ApiError(crate::engine::ERR_INVALID_HANDLE));
        }
        match engine.open_handle(HandleData::Plain) {
            Ok(h) => Ok(IntentTrigger { handle: h }),
            Err(e) => Err(e),
        }
    }

    /// Whether the underlying handle is still live.
    pub fn is_valid(&self, engine: &Engine) -> (r: bool)
        ensures
            r == engine.valid(self.handle),
    {
        engine.is_valid(self.handle)
    }

    /// Release the underlying handle, skipping a handle the engine already
    /// reports as dead.
    pub fn release(&mut self, engine: &mut Engine)
        ensures
            final(self).handle == INVALID_HANDLE,
            !old(engine).valid(old(self).handle) ==> *final(engine) == *old(engine),
            old(engine).valid(old(self).handle) ==> old(engine).same_but_entry(
                *final(engine),
                old(self).handle,
            ) && !final(engine).valid(old(self).handle),
    {
        if engine.is_valid(self.handle) {
            engine.release_handle(self.handle);
        }
        self.handle = INVALID_HANDLE;
    }
}

/// An owned language-understanding model handle.
pub struct Model {
    /// The underlying handle.
    pub handle: usize,
}

impl Handle for Model {
    open spec fn spec_handle(&self) -> usize {
        self.handle
    }

    fn handle(&self) -> (h: usize)
        ensures
            h == self.spec_handle(),
    {
        self.handle
    }
}

impl Model {
    /// Adopt ownership of a model handle.
    pub fn new(handle: usize) -> (r: Model)
        ensures
            r.handle == handle,
    {
        Model { handle }
    }

    /// A model named by its endpoint url.
    pub fn from_uri(uri: &str, engine: &mut Engine) -> (r: Result<Model, SpxError>)
        ensures
            r is Ok <==> !crate::properties::has_nul(uri@) && old(engine).can_alloc(),
            crate::properties::has_nul(uri@) ==> r == Err::<Model, SpxError>(SpxError::IsNull)
                && *final(engine) == *old(engine),
            r is Ok ==> final(engine).valid(r->Ok_0.handle),
            r is Err ==> *final(engine) == *old(engine),
            r is Ok ==> final(engine).entries@.len() == old(engine).entries@.len() + 1,
            forall|j: int|
                0 <= j < old(engine).entries@.len() ==> #[trigger] final(engine).entries@[j]
                    == old(engine).entries@[j],
            final(engine).entries@.len() >= old(engine).entries@.len(),
            final(engine).outcomes == old(engine).outcomes,
            final(engine).callbacks == old(engine).callbacks,
            final(engine).slots == old(engine).slots,
            final(engine).spoken == old(engine).spoken,
            final(engine).formats == old(engine).formats,
    {
        if contains_nul(uri) {
            return Err(SpxError::IsNull);
        }
        match engine.open_handle(HandleData::Plain) {
            Ok(h) => Ok(Model { handle: h }),
            Err(e) => Err(e),
        }
    }

    /// A model named by its application id.
    pub fn from_app_id(id: &str, engine: &mut Engine) -> (r: Result<Model, SpxError>)
        ensures
            r is Ok <==> !crate::properties::has_nul(id@) && old(engine).can_alloc(),
            crate::properties::has_nul(id@) ==> r == Err::<Model, SpxError>(SpxError::IsNull)
                && *final(engine) == *old(engine),
            r is Ok ==> final(engine).valid(r->Ok_0.handle),
            r is Err ==> *final(engine) == *old(engine),
            r is Ok ==> final(engine).entries@.len() == old(engine).entries@.len() + 1,
            forall|j: int|
                0 <= j < old(engine).entries@.len() ==> #[trigger] final(engine).entries@[j]
                    == old(engine).entries@[j],
            final(engine).entries@.len() >= old(engine).entries@.len(),
            final(engine).outcomes == old(engine).outcomes,
            final(engine).callbacks == old(engine).callbacks,
            final(engine).slots == old(engine).slots,
            final(engine).spoken == old(engine).spoken,
            final(engine).formats == old(engine).formats,
    {
        if contains_nul(id) {
            return Err(SpxError::IsNull);
        }
        match engine.open_handle(HandleData::Plain) {
            Ok(h) => Ok(Model { handle: h }),
            Err(e) => Err(e),
        }
    }

    /// A model named by hostname, subscription key and application id.
    pub fn from_subscription(key: &str, id: &str, region: &str, engine: &mut Engine) -> (r: Result<
        Model,
        SpxError,
    >)
        ensures
            r is Ok <==> !crate::properties::has_nul(key@) && !crate::properties::has_nul(id@)
                && !crate::properties::has_nul(region@) && old(engine).can_alloc(),
            r is Ok ==> final(engine).valid(r->Ok_0.handle),
            r is Err ==> *final(engine) == *old(engine),
            r is Ok ==> final(engine).entries@.len() == old(engine).entries@.len() + 1,
            forall|j: int|
                0 <= j < old(engine).entries@.len() ==> #[trigger] final(engine).entries@[j]
                    == old(engine).entries@[j],
            final(engine).entries@.len() >= old(engine).entries@.len(),
            final(engine).outcomes == old(engine).outcomes,
            final(engine).callbacks == old(engine).callbacks,
            final(engine).slots == old(engine).slots,
            final(engine).spoken == old(engine).spoken,
            final(engine).formats == old(engine).formats,
    {
        if contains_nul(key) {
            return Err(SpxError::IsNull);
        }
        if contains_nul(id) {
            return Err(SpxError::IsNull);
        }
        if contains_nul(region) {
            return Err(SpxError::IsNull);
        }
        match engine.open_handle(HandleData::Plain) {
            Ok(h) => Ok(Model { handle: h }),
            Err(e) => Err(e),
        }
    }

    /// Whether the underlying handle is still live.
    pub fn is_valid(&self, engine: &Engine) -> (r: bool)
        ensures
            r == engine.valid(self.handle),
    {
        engine.is_valid(self.handle)
    }

    /// Release the underlying handle, skipping a handle the engine already
    /// reports as dead.
    pub fn release(&mut self, engine: &mut Engine)
        ensures
            final(self).handle == INVALID_HANDLE,
            !old(engine).valid(old(self).handle) ==> *final(engine) == *old(engine),
            old(engine).valid(old(self).handle) ==> old(engine).same_but_entry(
                *final(engine),
                old(self).handle,
            ) && !final(engine).valid(old(self).handle),
    {
        if engine.is_valid(self.handle) {
            engine.release_handle(self.handle);
        }
        self.handle = INVALID_HANDLE;
    }
}

/// The trampoline: the fixed entry point every registered callback funnels
/// into.
///
/// The context token names a channel slot.  While the slot's strong sender
/// is held the event is appended; once the sender is dropped — or when the
/// token is unknown — the invocation is a safe no-op and the event handle is
/// released, because the engine cannot be told "stop calling" atomically
/// with teardown.
pub fn fire_on_event(engine: &mut Engine, flag: Flags, hevent: usize, context: usize)
    ensures
        old(engine).slot_is_alive(context) ==> old(engine).same_but_slot(*final(engine), context),
        old(engine).slot_is_alive(context) ==> final(engine).slot_queue(context) == old(engine).slot_queue(context).push(FiredEvent { flag: flag.bits, handle: hevent }),
        old(engine).slot_is_alive(context) ==> final(engine).slot_is_alive(context),
        !old(engine).slot_is_alive(context) ==> final(engine).slots == old(engine).slots,
        !old(engine).slot_is_alive(context) ==> !final(engine).valid(hevent),
        !old(engine).slot_is_alive(context) ==> final(engine).outcomes == old(engine).outcomes
            && final(engine).callbacks == old(engine).callbacks && final(engine).spoken == old(engine).spoken,
{
    let fe = FiredEvent { flag: flag.bits(), handle: hevent };
    let pushed = engine.slot_push(context, fe);
    if !pushed {
        if engine.is_valid(hevent) {
            engine.release_handle(hevent);
        }
    }
}

/// Find the latest callback registration for a handle and category.
fn find_callback(regs: &Vec<CallbackReg>, owner: usize, flag: u64) -> (r: Option<usize>)
    ensures
        r == crate::engine::reg_lookup(regs@, owner, flag),
{
    let mut i: usize = regs.len();
    proof {
        assert(regs@.take(i as int) =~= regs@);
    }
    while i > 0
        invariant
            i <= regs@.len(),
            crate::engine::reg_lookup(regs@, owner, flag) == crate::engine::reg_lookup(
                regs@.take(i as int),
                owner,
                flag,
            ),
        decreases i,
    {
        i = i - 1;
        proof {
            assert(regs@.take(i as int + 1).drop_last() =~= regs@.take(i as int));
            assert(regs@.take(i as int + 1).last() == regs@[i as int]);
        }
        let reg = &regs[i];
        if reg.owner == owner && reg.flag == flag {
            return Some(reg.token);
        }
    }
    None
}

/// The engine-side dispatch of one notification: create the event object
/// and invoke the trampoline registered for this handle and category, if
/// any.  The result reports whether the event reached a live slot.
pub fn raise_event(engine: &mut Engine, owner: usize, flag: Flags, data: EventData) -> (r: Result<
    bool,
    SpxError,
>)
    ensures
        crate::engine::reg_lookup(old(engine).callbacks@, owner, flag.bits) is None ==> r == Ok::<
            bool,
            SpxError,
        >(false) && *final(engine) == *old(engine),
        r is Err ==> crate::engine::reg_lookup(old(engine).callbacks@, owner, flag.bits) is Some
            && !old(engine).can_alloc(),
        crate::engine::reg_lookup(old(engine).callbacks@, owner, flag.bits) matches Some(token)
            ==> ((old(engine).can_alloc() && old(engine).slot_is_alive(token)) ==> (r == Ok::<
            bool,
            SpxError,
        >(true) && final(engine).slot_queue(token) == old(engine).slot_queue(token).push(
            FiredEvent { flag: flag.bits, handle: (old(engine).entries@.len() + 1) as usize },
        ) && final(engine).is_event((old(engine).entries@.len() + 1) as usize) && final(engine).event_at((old(engine).entries@.len() + 1) as usize) == data)),
        crate::engine::reg_lookup(old(engine).callbacks@, owner, flag.bits) matches Some(token)
            ==> ((old(engine).can_alloc() && !old(engine).slot_is_alive(token)) ==> (r == Ok::<
            bool,
            SpxError,
        >(false) && final(engine).slots == old(engine).slots)),
        final(engine).callbacks == old(engine).callbacks,
        final(engine).outcomes == old(engine).outcomes,
        final(engine).spoken == old(engine).spoken,
{
    let token = match find_callback(&engine.callbacks, owner, flag.bits()) {
        Some(t) => t,
        None => {
            return Ok(false);
        },
    };
    let hevent = match engine.open_handle(HandleData::Event(data)) {
        Ok(h) => h,
        Err(e) => {
            return Err(e);
        },
    };
    let alive = engine.is_slot_alive(token);
    fire_on_event(engine, flag, hevent, token);
    Ok(alive)
}

/// What a stream will yield from a queue of fired events: events are taken
/// in order, those intersecting the filter are yielded, and once an event
/// of a terminal category has been taken the stream latches and yields
/// nothing further.
pub open spec fn stream_yield(q: Seq<FiredEvent>, filter: u64, terminal: u64, stopped: bool) -> Seq<
    FiredEvent,
>
    decreases q.len(),
{
    if stopped || q.len() == 0 {
        Seq::empty()
    } else {
        let e = q[0];
        let rest = stream_yield(q.skip(1), filter, terminal, e.flag & terminal != 0);
        if e.flag & filter != 0 {
            seq![e] + rest
        } else {
            rest
        }
    }
}

/// The subsequence of a queue whose category intersects the filter, in the
/// original order.
pub open spec fn filtered(q: Seq<FiredEvent>, filter: u64) -> Seq<FiredEvent>
    decreases q.len(),
{
    if q.len() == 0 {
        Seq::empty()
    } else {
        let rest = filtered(q.skip(1), filter);
        if q[0].flag & filter != 0 {
            seq![q[0]] + rest
        } else {
            rest
        }
    }
}

/// Filter correctness: while no terminal event arrives, the stream yields
/// exactly the subsequence of the queue whose category intersects the
/// filter, in the original order.
pub proof fn lemma_stream_filters_in_order(q: Seq<FiredEvent>, filter: u64, terminal: u64)
    requires
        forall|i: int| 0 <= i < q.len() ==> #[trigger] q[i].flag & terminal == 0,
    ensures
        stream_yield(q, filter, terminal, false) == filtered(q, filter),
    decreases q.len(),
{
    if q.len() > 0 {
        assert(q[0].flag & terminal == 0);
        assert forall|i: int| 0 <= i < q.skip(1).len() implies #[trigger] q.skip(1)[i].flag
            & terminal == 0 by {
            assert(q.skip(1)[i] == q[i + 1]);
        }
        lemma_stream_filters_in_order(q.skip(1), filter, terminal);
    }
}

/// A latched stream yields nothing, whatever is still queued.
pub proof fn lemma_stream_stopped_yields_nothing(q: Seq<FiredEvent>, filter: u64, terminal: u64)
    ensures
        stream_yield(q, filter, terminal, true) == Seq::<FiredEvent>::empty(),
{
}

/// Termination priority: once the first terminal-category event is taken,
/// nothing queued after it is ever yielded — the stream behaves exactly as
/// if the queue ended right behind that event.
pub proof fn lemma_stream_stops_after_terminal(
    q: Seq<FiredEvent>,
    filter: u64,
    terminal: u64,
    k: int,
)
    requires
        0 <= k < q.len(),
        q[k].flag & terminal != 0,
        forall|i: int| 0 <= i < k ==> #[trigger] q[i].flag & terminal == 0,
    ensures
        stream_yield(q, filter, terminal, false) == stream_yield(
            q.take(k + 1),
            filter,
            terminal,
            false,
        ),
    decreases k,
{
    if k == 0 {
        assert(q.take(1)[0] == q[0]);
        assert(stream_yield(q.skip(1), filter, terminal, true) == Seq::<FiredEvent>::empty());
        assert(stream_yield(q.take(1).skip(1), filter, terminal, true) == Seq::<
            FiredEvent,
        >::empty());
    } else {
        assert(q.take(k + 1)[0] == q[0]);
        assert(q[0].flag & terminal == 0);
        assert forall|i: int| 0 <= i < k - 1 implies #[trigger] q.skip(1)[i].flag & terminal
            == 0 by {
            assert(q.skip(1)[i] == q[i + 1]);
        }
        assert(q.skip(1)[k - 1] == q[k]);
        lemma_stream_stops_after_terminal(q.skip(1), filter, terminal, k - 1);
        assert(q.skip(1).take(k) =~= q.take(k + 1).skip(1));
    }
}

/// A queue whose only terminal event stands last yields exactly its
/// filtered subsequence: the latch suppresses nothing before it.
proof fn lemma_stream_terminal_last(q: Seq<FiredEvent>, filter: u64, terminal: u64)
    requires
        forall|i: int| 0 <= i < q.len() - 1 ==> #[trigger] q[i].flag & terminal == 0,
    ensures
        stream_yield(q, filter, terminal, false) == filtered(q, filter),
    decreases q.len(),
{
    if q.len() > 1 {
        assert(q[0].flag & terminal == 0);
        assert forall|i: int| 0 <= i < q.skip(1).len() - 1 implies #[trigger] q.skip(1)[i].flag
            & terminal == 0 by {
            assert(q.skip(1)[i] == q[i + 1]);
        }
        lemma_stream_terminal_last(q.skip(1), filter, terminal);
    } else if q.len() == 1 {
        assert(stream_yield(q.skip(1), filter, terminal, true) == Seq::<FiredEvent>::empty());
        assert(stream_yield(q.skip(1), filter, terminal, false) == Seq::<FiredEvent>::empty());
        assert(filtered(q.skip(1), filter) == Seq::<FiredEvent>::empty());
    }
}

/// The two laws combined: with the first terminal event at position `k`,
/// the stream yields exactly the filtered subsequence of the queue cut
/// right behind that event — filtering in order up to the stop, nothing
/// after it.
pub proof fn lemma_stream_yield_characterized(
    q: Seq<FiredEvent>,
    filter: u64,
    terminal: u64,
    k: int,
)
    requires
        0 <= k < q.len(),
        q[k].flag & terminal != 0,
        forall|i: int| 0 <= i < k ==> #[trigger] q[i].flag & terminal == 0,
    ensures
        stream_yield(q, filter, terminal, false) == filtered(q.take(k + 1), filter),
{
    lemma_stream_stops_after_terminal(q, filter, terminal, k);
    assert forall|i: int| 0 <= i < q.take(k + 1).len() - 1 implies #[trigger] q.take(k + 1)[i].flag
        & terminal == 0 by {
        assert(q.take(k + 1)[i] == q[i]);
    }
    lemma_stream_terminal_last(q.take(k + 1), filter, terminal);
}

/// What one poll of the stream reported.
pub enum Polled {
    /// The next event whose category intersects the filter.
    Item(Event),
    /// Nothing queued yet, while the sender side is still live.
    Pending,
    /// The stream is over: the session stopped, or the sender is gone and
    /// the queue is drained.
    Done,
}

/// The consumer side of a session's callback bridge: a filter over the
/// queued events and the latch that ends the stream once a terminal
/// category was observed.
pub struct EventStream {
    /// The context token of the channel slot this stream reads.
    pub token: usize,
    /// Only events intersecting this mask are yielded.
    pub filter: Flags,
    /// Observing one of these categories latches the stream shut.
    pub terminal: Flags,
    /// Whether a terminal category was observed.
    pub stopped: bool,
}

impl EventStream {
    /// What this stream will yield from the engine's queue as it stands.
    pub open spec fn pending(self, engine: Engine) -> Seq<FiredEvent> {
        stream_yield(engine.slot_queue(self.token), self.filter.bits, self.terminal.bits, self.stopped)
    }

    /// A stream over the slot named by `token`, yielding the categories of
    /// `filter` and latching shut at the categories of `terminal`.
    pub fn new(token: usize, filter: Flags, terminal: Flags) -> (r: EventStream)
        ensures
            r.token == token,
            r.filter == filter,
            r.terminal == terminal,
            !r.stopped,
    {
        EventStream { token, filter, terminal, stopped: false }
    }

    /// Replace the filter, to pick out special events.
    pub fn set_filter(self, flags: Flags) -> (r: EventStream)
        ensures
            r.token == self.token,
            r.filter == flags,
            r.terminal == self.terminal,
            r.stopped == self.stopped,
    {
        EventStream { filter: flags, ..self }
    }

    /// Take the next event that passes the filter.
    ///
    /// Events are taken from the queue in delivery order; one that carries a
    /// terminal category latches the stream (it is still yielded when it
    /// passes the filter), and a latched stream reports the end on the next
    /// poll regardless of what is still queued.  An empty queue reports
    /// pending while the sender side is live, and the end once it is gone.
    pub fn poll(&mut self, engine: &mut Engine) -> (r: Polled)
        ensures
            final(self).token == old(self).token,
            final(self).filter == old(self).filter,
            final(self).terminal == old(self).terminal,
            old(engine).same_but_slot(*final(engine), old(self).token),
            final(engine).slot_is_alive(old(self).token) == old(engine).slot_is_alive(
                old(self).token,
            ),
            old(self).pending(*old(engine)).len() > 0 ==> (r matches Polled::Item(e) && e.flag.bits
                == old(self).pending(*old(engine))[0].flag && e.handle == old(self).pending(
                *old(engine),
            )[0].handle),
            old(self).pending(*old(engine)).len() > 0 ==> final(self).pending(*final(engine))
                == old(self).pending(*old(engine)).skip(1),
            old(self).pending(*old(engine)).len() == 0 ==> !(r matches Polled::Item(e)),
            old(self).pending(*old(engine)).len() == 0 ==> final(self).pending(*final(engine)).len()
                == 0,
            old(self).stopped ==> r is Done && *final(engine) == *old(engine) && *final(self)
                == *old(self),
            (r is Pending) ==> (!final(self).stopped && final(engine).slot_is_alive(
                old(self).token,
            ) && final(engine).slot_queue(old(self).token).len() == 0),
            r is Pending ==> forall|i: int|
                0 <= i < old(engine).slot_queue(old(self).token).len() ==> #[trigger] old(engine).slot_queue(old(self).token)[i].flag & old(self).terminal.bits == 0,
            (!old(self).stopped && !(r matches Polled::Item(e)) && exists|i: int|
                0 <= i < old(engine).slot_queue(old(self).token).len() && #[trigger] old(engine).slot_queue(old(self).token)[i].flag & old(self).terminal.bits != 0) ==> final(self).stopped && r is Done,
            (!old(self).stopped && final(self).stopped && !(r matches Polled::Item(e))) ==> r
                is Done,
            ((r matches Polled::Item(e)) && !final(self).stopped && exists|i: int|
                0 <= i < old(engine).slot_queue(old(self).token).len() && #[trigger] old(engine).slot_queue(old(self).token)[i].flag & old(self).terminal.bits != 0) ==> exists|i: int|
                0 <= i < final(engine).slot_queue(old(self).token).len() && #[trigger] final(engine).slot_queue(old(self).token)[i].flag & old(self).terminal.bits != 0,
    {
        let ghost y = old(self).pending(*old(engine));
        let ghost q0 = old(engine).slot_queue(old(self).token);
        if self.stopped {
            return Polled::Done;
        }
        let ghost mut taken: Seq<FiredEvent> = Seq::empty();
        proof {
            assert(taken + engine.slot_queue(self.token) =~= q0);
        }
        while !self.stopped
            invariant_except_break
                y == old(self).pending(*old(engine)),
                q0 == old(engine).slot_queue(old(self).token),
                self.token == old(self).token,
                self.filter == old(self).filter,
                self.terminal == old(self).terminal,
                old(engine).same_but_slot(*engine, old(self).token),
                engine.slot_is_alive(old(self).token) == old(engine).slot_is_alive(
                    old(self).token,
                ),
                y == self.pending(*engine),
                !self.stopped ==> q0 == taken + engine.slot_queue(self.token),
                forall|i: int| 0 <= i < taken.len() ==> #[trigger] taken[i].flag
                    & self.terminal.bits == 0,
            ensures
                self.token == old(self).token,
                self.filter == old(self).filter,
                self.terminal == old(self).terminal,
                old(engine).same_but_slot(*engine, old(self).token),
                engine.slot_is_alive(old(self).token) == old(engine).slot_is_alive(
                    old(self).token,
                ),
                y.len() == 0,
                self.pending(*engine).len() == 0,
                self.stopped || engine.slot_queue(self.token).len() == 0,
                !self.stopped ==> forall|i: int|
                    0 <= i < q0.len() ==> #[trigger] q0[i].flag & self.terminal.bits == 0,
            decreases engine.slot_queue(self.token).len(),
        {
            let ghost q_before = engine.slot_queue(self.token);
            match engine.slot_pop(self.token) {
                Some(fe) => {
                    proof {
                        assert(q_before[0] == fe);
                        assert(q0[taken.len() as int] == fe);
                    }
                    let flag = Flags::new(fe.flag);
                    if flag.intersects(self.terminal) {
                        self.stopped = true;
                    } else {
                        proof {
                            taken = taken.push(fe);
                            assert(taken + engine.slot_queue(self.token) =~= q0);
                        }
                    }
                    if flag.intersects(self.filter) {
                        proof {
                            assert(y[0] == fe);
                            assert(y.skip(1) =~= self.pending(*engine));
                            if !self.stopped {
                                assert forall|i: int|
                                    0 <= i < q0.len() && q0[i].flag & self.terminal.bits
                                        != 0 implies exists|k: int|
                                    0 <= k < engine.slot_queue(self.token).len()
                                        && #[trigger] engine.slot_queue(self.token)[k].flag
                                        & self.terminal.bits != 0 by {
                                    assert(q0[i] == engine.slot_queue(self.token)[i - taken.len()]);
                                }
                            }
                        }
                        return Polled::Item(Event::new(flag, fe.handle));
                    }
                },
                None => {
                    proof {
                        assert(engine.slot_queue(self.token).len() == 0);
                        assert(taken =~= q0);
                    }
                    break;
                },
            }
        }
        if self.stopped {
            return Polled::Done;
        }
        if engine.is_slot_alive(self.token) {
            Polled::Pending
        } else {
            Polled::Done
        }
    }
}

/// A recognizer session: one handle, an optional audio stream, and at most
/// one live callback bridge.
///
/// The session is idle until `start` installs the bridge, running until
/// `stop` tears it down, and an attempt to start a running session is an
/// error rather than a second bridge.
pub struct Recognizer {
    /// The underlying recognizer handle.
    pub handle: usize,
    /// The categories this session always registers, set at construction.
    pub flags: Flags,
    /// The owned audio input stream, if one backs this session.
    pub stream: Option<crate::speech::audio::AnyAudioStream>,
    /// The context token of the live bridge, while started.
    pub sink: Option<usize>,
    /// Timeout, in milliseconds, for waiting on engine operations.
    pub timeout: u32,
}

impl Handle for Recognizer {
    open spec fn spec_handle(&self) -> usize {
        self.handle
    }

    fn handle(&self) -> (h: usize)
        ensures
            h == self.spec_handle(),
    {
        self.handle
    }
}

impl Recognizer {
    /// Adopt a recognizer handle with its audio stream and default
    /// categories.
    pub fn new(
        handle: usize,
        stream: Option<crate::speech::audio::AnyAudioStream>,
        flags: Flags,
        timeout: u32,
    ) -> (r: Recognizer)
        ensures
            r.handle == handle,
            r.stream == stream,
            r.flags == flags,
            r.timeout == timeout,
            r.sink is None,
    {
        Recognizer { handle, flags, stream, timeout, sink: None }
    }

    /// Proxy the write entry point of the owned stream.
    pub fn write_stream(&mut self, engine: &mut Engine, buffer: &[u8]) -> (r: Result<(), SpxError>)
        ensures
            old(self).stream is None ==> r == Err::<(), SpxError>(SpxError::IsNothing) && *final(engine)
                == *old(engine),
            final(self).handle == old(self).handle,
            final(self).sink == old(self).sink,
    {
        match &mut self.stream {
            Some(crate::speech::audio::AnyAudioStream::PushInput(s)) => s.push_write(
                engine,
                buffer,
            ),
            Some(crate::speech::audio::AnyAudioStream::PullInput(s)) => s.pull_write(buffer),
            Some(_) => Err(SpxError::Unimplemented),
            None => Err(SpxError::IsNothing),
        }
    }

    /// Close the owned stream gracefully.
    pub fn close_stream(&mut self, engine: &mut Engine) -> (r: Result<(), SpxError>)
        ensures
            old(self).stream is None ==> r == Err::<(), SpxError>(SpxError::IsNothing) && *final(engine)
                == *old(engine),
            final(self).handle == old(self).handle,
            final(self).sink == old(self).sink,
    {
        match &mut self.stream {
            Some(crate::speech::audio::AnyAudioStream::PushInput(s)) => s.push_close(engine),
            Some(crate::speech::audio::AnyAudioStream::PullInput(s)) => s.pull_close(),
            Some(_) => Err(SpxError::Unimplemented),
            None => Err(SpxError::IsNothing),
        }
    }

    /// The blocking one-shot operation: a single engine call, one outcome,
    /// classified on the spot.
    ///
    /// A recognized outcome yields its text; a canceled outcome comes back
    /// through the error channel with its reason, code and details; a
    /// no-match outcome classifies to its no-match reason; any other reason
    /// is unknown.
    pub fn recognize(&self, engine: &mut Engine) -> (r: Result<String, SpxError>)
        ensures
            !old(engine).is_session(self.handle) ==> r is Err && *final(engine) == *old(engine),
            old(engine).is_session(self.handle) && old(engine).outcomes@.len() == 0 ==> r == Err::<
                String,
                SpxError,
            >(SpxError::ApiError(crate::engine::ERR_NO_RESULT)) && *final(engine) == *old(engine),
            old(engine).is_session(self.handle) && old(engine).outcomes@.len() > 0 && old(engine).entries@.len() + 2 < usize::MAX ==> final(engine).outcomes@ == old(engine).outcomes@.remove(0),
            old(engine).is_session(self.handle) && old(engine).outcomes@.len() > 0 && old(engine).entries@.len() + 2 < usize::MAX && crate::speech::events::spec_classify(
                old(engine).outcomes@[0].reason,
            ) & RECOGNIZED != 0 ==> (r matches Ok(t) && t@ == old(engine).outcomes@[0].text@),
            old(engine).is_session(self.handle) && old(engine).outcomes@.len() > 0 && old(engine).entries@.len() + 2 < usize::MAX && crate::speech::events::spec_classify(
                old(engine).outcomes@[0].reason,
            ) & RECOGNIZED == 0 && crate::speech::events::spec_classify(
                old(engine).outcomes@[0].reason,
            ) & CANCELED != 0 ==> (r matches Err(e) && crate::speech::events::cancellation_of(
                e,
                old(engine).outcomes@[0],
            )),
            old(engine).is_session(self.handle) && old(engine).outcomes@.len() > 0 && old(engine).entries@.len() + 2 < usize::MAX && crate::speech::events::spec_classify(
                old(engine).outcomes@[0].reason,
            ) & RECOGNIZED == 0 && crate::speech::events::spec_classify(
                old(engine).outcomes@[0].reason,
            ) & CANCELED == 0 && crate::speech::events::spec_classify(
                old(engine).outcomes@[0].reason,
            ) & NO_MATCH != 0 ==> (r matches Err(SpxError::NoMatch(n)) && n.reason
                == spec_matching(old(engine).outcomes@[0].no_match_reason)),
            old(engine).is_session(self.handle) && old(engine).outcomes@.len() > 0 && old(engine).entries@.len() + 2 < usize::MAX && crate::speech::events::spec_classify(
                old(engine).outcomes@[0].reason,
            ) & RECOGNIZED == 0 && crate::speech::events::spec_classify(
                old(engine).outcomes@[0].reason,
            ) & CANCELED == 0 && crate::speech::events::spec_classify(
                old(engine).outcomes@[0].reason,
            ) & NO_MATCH == 0 ==> r == Err::<String, SpxError>(SpxError::Unknown),
            final(engine).callbacks == old(engine).callbacks,
            final(engine).slots == old(engine).slots,
            final(engine).spoken == old(engine).spoken,
    {
        let hres = match engine.recognize_once(self.handle) {
            Ok(h) => h,
            Err(e) => {
                return Err(e);
            },
        };
        let rr = match EventResult::new(Flags::empty(), hres, engine) {
            Ok(v) => v,
            Err(e) => {
                return Err(e);
            },
        };
        proof {
            let c = crate::speech::events::spec_classify(old(engine).outcomes@[0].reason);
            assert(0u64 | c == c) by (bit_vector);
            assert(((c & RECOGNIZED) == RECOGNIZED) == ((c & RECOGNIZED) != 0)) by (bit_vector);
            assert(((c & CANCELED) == CANCELED) == ((c & CANCELED) != 0)) by (bit_vector);
            assert(((c & NO_MATCH) == NO_MATCH) == ((c & NO_MATCH) != 0)) by (bit_vector);
        }
        let reason = rr.reason();
        if reason.contains(Flags::new(RECOGNIZED)) {
            let text = match rr.text(engine) {
                Ok(t) => t,
                Err(e) => {
                    rr.release(engine);
                    return Err(e);
                },
            };
            rr.release(engine);
            Ok(text)
        } else if reason.contains(Flags::new(CANCELED)) {
            let err = match rr.cancellation_error(engine) {
                Ok(never) => {
                    proof {
                        assert(false);
                    }
                    Ok(never.text_only())
                },
                Err(e) => Err(e),
            };
            rr.release(engine);
            err
        } else if reason.contains(Flags::new(NO_MATCH)) {
            let matching = match rr.no_match_reason(engine) {
                Ok(m) => m,
                Err(e) => {
                    rr.release(engine);
                    return Err(e);
                },
            };
            rr.release(engine);
            Err(SpxError::NoMatch(NoMatchError { reason: matching }))
        } else {
            rr.release(engine);
            Err(SpxError::Unknown)
        }
    }

    /// Pause event delivery without tearing the bridge down.
    pub fn pause(&self, engine: &mut Engine) -> (r: Result<(), SpxError>)
        ensures
            old(engine).is_session(self.handle) <==> r is Ok,
            r is Ok ==> old(engine).same_but_entry(*final(engine), self.handle),
            r is Ok ==> !final(engine).session_enabled(self.handle),
            r is Err ==> *final(engine) == *old(engine),
    {
        engine.disable(self.handle)
    }

    /// Resume a paused session.
    pub fn resume(&self, engine: &mut Engine) -> (r: Result<(), SpxError>)
        ensures
            old(engine).is_session(self.handle) <==> r is Ok,
            r is Ok ==> old(engine).same_but_entry(*final(engine), self.handle),
            r is Ok ==> final(engine).session_enabled(self.handle),
            r is Err ==> *final(engine) == *old(engine),
    {
        engine.enable(self.handle)
    }

    /// Whether the session is running, by the live bridge it holds.
    pub fn started(&self) -> (r: bool)
        ensures
            r == (self.sink is Some),
    {
        match &self.sink {
            Some(_) => true,
            None => false,
        }
    }

    /// Start the continuous operation with the default categories: session
    /// tracking and cancellation are always on, so that termination and
    /// errors are observed even if the filter hides them.
    pub fn start(&mut self, engine: &mut Engine) -> (r: Result<EventStream, SpxError>)
        ensures
            old(self).sink is Some ==> r == Err::<EventStream, SpxError>(SpxError::AlreadyExists)
                && *final(self) == *old(self) && *final(engine) == *old(engine),
            r is Ok ==> final(self).sink == Some(r->Ok_0.token),
            r is Ok ==> r->Ok_0.filter.bits == old(self).flags.bits | (SESSION | CANCELED),
            r is Ok ==> r->Ok_0.terminal.bits == SESSION_STOPPED,
            r is Ok ==> !r->Ok_0.stopped,
            r is Ok ==> final(engine).slot_is_alive(r->Ok_0.token),
            r is Ok ==> final(engine).slot_queue(r->Ok_0.token) == Seq::<FiredEvent>::empty(),
            r is Err ==> *final(self) == *old(self),
    {
        self.start_flags(engine, Flags::new(SESSION | CANCELED))
    }

    /// Tear the bridge down: ask the engine to stop the continuous
    /// operation, wait for it bounded by the timeout, and only then drop
    /// the strong sender, after which a late callback's delivery fails and
    /// is safely ignored.
    pub fn stop(&mut self, engine: &mut Engine) -> (r: Result<(), SpxError>)
        ensures
            r is Ok <==> old(engine).is_session(old(self).handle) && old(engine).can_alloc(),
            r is Ok ==> final(self).sink is None,
            r is Ok ==> final(self).handle == old(self).handle,
            r is Ok ==> final(self).stream == old(self).stream,
            old(self).sink matches Some(token) ==> (r is Ok ==> !final(engine).slot_is_alive(
                token,
            ) && final(engine).slot_queue(token) == old(engine).slot_queue(token)),
            r is Err ==> *final(self) == *old(self),
            final(engine).outcomes == old(engine).outcomes,
            final(engine).callbacks == old(engine).callbacks,
            final(engine).spoken == old(engine).spoken,
    {
        let h = match engine.stop_continuous(self.handle) {
            Ok(h) => h,
            Err(e) => {
                return Err(e);
            },
        };
        let mut ra = RecognizerAsync::new(h);
        let waited = engine.wait_for(h, self.timeout);
        proof {
            assert(waited is Ok);
        }
        ra.release(engine);
        let mut taken: Option<usize> = None;
        core::mem::swap(&mut self.sink, &mut taken);
        match taken {
            Some(token) => {
                engine.drop_sender(token);
            },
            None => {},
        }
        Ok(())
    }

    /// Start the continuous operation with extra categories.
    ///
    /// A running session is refused.  Otherwise the engine starts the
    /// operation (waited for, bounded by the timeout), a fresh channel slot
    /// becomes the bridge, and one callback per requested category is
    /// registered with the slot's token as context.  The stream returned
    /// filters on the combined categories and terminates at session-stopped.
    pub fn start_flags(&mut self, engine: &mut Engine, flags: Flags) -> (r: Result<
        EventStream,
        SpxError,
    >)
        ensures
            old(self).sink is Some ==> r == Err::<EventStream, SpxError>(SpxError::AlreadyExists)
                && *final(self) == *old(self) && *final(engine) == *old(engine),
            r is Ok <==> old(self).sink is None && old(engine).is_session(old(self).handle) && old(engine).can_alloc(),
            r is Ok ==> r->Ok_0.token == old(engine).slots@.len(),
            r is Ok ==> r->Ok_0.filter.bits == old(self).flags.bits | flags.bits,
            r is Ok ==> r->Ok_0.terminal.bits == SESSION_STOPPED,
            r is Ok ==> !r->Ok_0.stopped,
            r is Ok ==> final(self).sink == Some(r->Ok_0.token),
            r is Ok ==> final(self).handle == old(self).handle,
            r is Ok ==> final(self).flags == old(self).flags,
            r is Ok ==> final(self).stream == old(self).stream,
            r is Ok ==> final(engine).slot_is_alive(r->Ok_0.token),
            r is Ok ==> final(engine).slot_queue(r->Ok_0.token) == Seq::<FiredEvent>::empty(),
            r is Ok ==> forall|bit: u64|
                #![trigger crate::engine::reg_lookup(final(engine).callbacks@, old(self).handle, bit)]
                ((bit & (old(self).flags.bits | flags.bits)) == bit) && bit != 0 && (bit
                    == RECOGNIZING || bit == RECOGNIZED || bit == SESSION_STARTED || bit
                    == SESSION_STOPPED || bit == SPEECH_START_DETECTED || bit
                    == SPEECH_END_DETECTED || bit == CONNECTED || bit == DISCONNECTED || bit
                    == CANCELED) ==> crate::engine::reg_lookup(
                    final(engine).callbacks@,
                    old(self).handle,
                    bit,
                ) == Some(r->Ok_0.token),
            r is Err ==> *final(self) == *old(self),
            final(engine).outcomes == old(engine).outcomes,
            final(engine).spoken == old(engine).spoken,
    {
        if self.started() {
            return Err(SpxError::AlreadyExists);
        }
        let combined = self.flags.or(flags);
        let h = match engine.start_continuous(self.handle) {
            Ok(h) => h,
            Err(e) => {
                return Err(e);
            },
        };
        let mut ra = RecognizerAsync::new(h);
        let waited = engine.wait_for(h, self.timeout);
        proof {
            assert(waited is Ok);
        }
        ra.release(engine);
        let token = engine.new_slot();
        let reception = EventStream::new(token, combined, Flags::new(SESSION_STOPPED));
        self.register_bit(engine, combined, RECOGNIZING, token);
        self.register_bit(engine, combined, RECOGNIZED, token);
        self.register_bit(engine, combined, SESSION_STARTED, token);
        self.register_bit(engine, combined, SESSION_STOPPED, token);
        self.register_bit(engine, combined, SPEECH_START_DETECTED, token);
        self.register_bit(engine, combined, SPEECH_END_DETECTED, token);
        self.register_bit(engine, combined, CONNECTED, token);
        self.register_bit(engine, combined, DISCONNECTED, token);
        self.register_bit(engine, combined, CANCELED, token);
        proof {
            if combined.bits & RECOGNIZING == RECOGNIZING {
                assert(crate::engine::reg_lookup(engine.callbacks@, self.handle, RECOGNIZING)
                    == Some(token));
            }
            if combined.bits & RECOGNIZED == RECOGNIZED {
                assert(crate::engine::reg_lookup(engine.callbacks@, self.handle, RECOGNIZED)
                    == Some(token));
            }
            if combined.bits & SESSION_STARTED == SESSION_STARTED {
                assert(crate::engine::reg_lookup(engine.callbacks@, self.handle, SESSION_STARTED)
                    == Some(token));
            }
            if combined.bits & SESSION_STOPPED == SESSION_STOPPED {
                assert(crate::engine::reg_lookup(engine.callbacks@, self.handle, SESSION_STOPPED)
                    == Some(token));
            }
            if combined.bits & SPEECH_START_DETECTED == SPEECH_START_DETECTED {
                assert(crate::engine::reg_lookup(
                    engine.callbacks@,
                    self.handle,
                    SPEECH_START_DETECTED,
                ) == Some(token));
            }
            if combined.bits & SPEECH_END_DETECTED == SPEECH_END_DETECTED {
                assert(crate::engine::reg_lookup(
                    engine.callbacks@,
                    self.handle,
                    SPEECH_END_DETECTED,
                ) == Some(token));
            }
            if combined.bits & CONNECTED == CONNECTED {
                assert(crate::engine::reg_lookup(engine.callbacks@, self.handle, CONNECTED)
                    == Some(token));
            }
            if combined.bits & DISCONNECTED == DISCONNECTED {
                assert(crate::engine::reg_lookup(engine.callbacks@, self.handle, DISCONNECTED)
                    == Some(token));
            }
            if combined.bits & CANCELED == CANCELED {
                assert(crate::engine::reg_lookup(engine.callbacks@, self.handle, CANCELED)
                    == Some(token));
            }
            let m = combined.bits;
            assert forall|bit: u64|
                ((bit & m) == bit) && bit != 0 && (bit == RECOGNIZING || bit == RECOGNIZED || bit
                    == SESSION_STARTED || bit == SESSION_STOPPED || bit == SPEECH_START_DETECTED
                    || bit == SPEECH_END_DETECTED || bit == CONNECTED || bit == DISCONNECTED
                    || bit == CANCELED) implies crate::engine::reg_lookup(
                engine.callbacks@,
                self.handle,
                bit,
            ) == Some(token) by {
                assert((bit & m) == (m & bit)) by (bit_vector);
            }
        }
        self.sink = Some(token);
        Ok(reception)
    }

    /// Register the callback for one category bit, where the combined mask
    /// asks for it.
    fn register_bit(&self, engine: &mut Engine, combined: Flags, bit: u64, token: usize)
        requires
            old(engine).valid(self.handle),
        ensures
            final(engine).entries == old(engine).entries,
            final(engine).outcomes == old(engine).outcomes,
            final(engine).slots == old(engine).slots,
            final(engine).spoken == old(engine).spoken,
            combined.bits & bit == bit && bit != 0 ==> final(engine).callbacks@ == old(engine).callbacks@.push(CallbackReg { owner: self.handle, flag: bit, token }),
            !(combined.bits & bit == bit && bit != 0) ==> final(engine).callbacks == old(engine).callbacks,
            forall|o: usize, f: u64|
                #[trigger] crate::engine::reg_lookup(final(engine).callbacks@, o, f) == if (
                combined.bits & bit == bit && bit != 0 && o == self.handle && f == bit) {
                    Some(token)
                } else {
                    crate::engine::reg_lookup(old(engine).callbacks@, o, f)
                },
    {
        if combined.contains(Flags::new(bit)) && bit != 0 {
            let set = engine.set_callback(self.handle, bit, token);
            proof {
                assert(set is Ok);
                crate::engine::lemma_reg_lookup_push(
                    old(engine).callbacks@,
                    CallbackReg { owner: self.handle, flag: bit, token },
                );
            }
        }
    }

    /// Register an intent trigger under an id; the empty id stands for the
    /// trigger's own name.
    pub fn add_intent(&self, engine: &mut Engine, id: &str, trigger: &IntentTrigger) -> (r: Result<
        (),
        SpxError,
    >)
        ensures
            r is Ok <==> !crate::properties::has_nul(id@) && old(engine).valid(self.handle) && old(engine).valid(trigger.handle),
            *final(engine) == *old(engine),
    {
        if contains_nul(id) {
            return Err(SpxError::IsNull);
        }
        if !engine.is_valid(self.handle) {
            return Err(SpxError::ApiError(crate::engine::ERR_INVALID_HANDLE));
        }
        if !engine.is_valid(trigger.handle) {
            return Err(SpxError::ApiError(crate::engine::ERR_INVALID_HANDLE));
        }
        Ok(())
    }

    /// Whether the underlying handle is still live.
    pub fn is_valid(&self, engine: &Engine) -> (r: bool)
        ensures
            r == engine.valid(self.handle),
    {
        engine.is_valid(self.handle)
    }

    /// Release the underlying handle, skipping a handle the engine already
    /// reports as dead.
    pub fn release(&mut self, engine: &mut Engine)
        ensures
            final(self).handle == INVALID_HANDLE,
            !old(engine).valid(old(self).handle) ==> *final(engine) == *old(engine),
            old(engine).valid(old(self).handle) ==> old(engine).same_but_entry(
                *final(engine),
                old(self).handle,
            ) && !final(engine).valid(old(self).handle),
    {
        if engine.is_valid(self.handle) {
            engine.release_handle(self.handle);
        }
        self.handle = INVALID_HANDLE;
    }
}

} // verus!
