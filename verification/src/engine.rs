//! In-memory model of the engine-side state that this crate drives.
//!
//! The real engine lives behind a C interface: constructors fill a handle
//! out-parameter and return a status code, every resource is released through
//! its family's release call, property bags store key/value pairs, and a
//! callback registered for a category is invoked later with an event handle.
//! This module states that interface as explicit data.  An [`Engine`] value
//! holds the handle table, the registered callbacks, the channel slots of the
//! callback bridge, and the outcomes the next one-shot calls will produce.
//! Tests script it directly, as an engine double, and a host drives the
//! same operations from whatever loop it runs.

use vstd::prelude::*;

use crate::error::SpxError;

verus! {

/// Engine status for an operation on a dead, foreign or mistyped handle.
pub const ERR_INVALID_HANDLE: usize = 0x021;

/// Engine status once the handle table cannot grow any further.
pub const ERR_OUT_OF_HANDLES: usize = 0x00d;

/// Engine status for a one-shot call with no outcome left to deliver.
pub const ERR_NO_RESULT: usize = 0x00e;

/// Reason code: the input was not recognized.
pub const REASON_NO_MATCH: u64 = 0;

/// Reason code: the operation was canceled.
pub const REASON_CANCELED: u64 = 1;

/// Reason code: interim speech hypothesis.
pub const REASON_RECOGNIZING_SPEECH: u64 = 2;

/// Reason code: final speech result.
pub const REASON_RECOGNIZED_SPEECH: u64 = 3;

/// Reason code: interim intent hypothesis.
pub const REASON_RECOGNIZING_INTENT: u64 = 4;

/// Reason code: final intent result.
pub const REASON_RECOGNIZED_INTENT: u64 = 5;

/// Reason code: interim translation hypothesis.
pub const REASON_TRANSLATING_SPEECH: u64 = 6;

/// Reason code: final translation result.
pub const REASON_TRANSLATED_SPEECH: u64 = 7;

/// Reason code: synthesis produced an audio chunk.
pub const REASON_SYNTHESIZING_AUDIO: u64 = 8;

/// Reason code: synthesis completed.
pub const REASON_SYNTHESIZING_AUDIO_COMPLETE: u64 = 9;

/// Cancellation error code: no error (end of stream and the like).
pub const CANCEL_CODE_NO_ERROR: u64 = 0;

/// Cancellation error code: the subscription was rejected.
pub const CANCEL_CODE_AUTHENTICATION_FAILURE: u64 = 1;

/// Cancellation error code: the request was malformed.
pub const CANCEL_CODE_BAD_REQUEST: u64 = 2;

/// Cancellation error code: the connection to the service was lost.
pub const CANCEL_CODE_CONNECTION_FAILURE: u64 = 5;

/// Cancellation reason: an error occurred.
pub const CANCEL_REASON_ERROR: u64 = 1;

/// Cancellation reason: the end of the audio stream was reached.
pub const CANCEL_REASON_END_OF_STREAM: u64 = 2;

/// No-match reason: speech was detected but not recognized.
pub const NO_MATCH_NOT_RECOGNIZED: u64 = 1;

/// No-match reason: only silence was detected within the initial timeout.
pub const NO_MATCH_INITIAL_SILENCE_TIMEOUT: u64 = 2;

/// No-match reason: only noise was detected within the initial timeout.
pub const NO_MATCH_INITIAL_BABBLE_TIMEOUT: u64 = 3;

/// The key/value store behind a property-bag handle.
///
/// Both key spaces are kept as append logs; a lookup takes the latest entry,
/// so an update is a plain push.
pub struct Bag {
    /// Entries keyed by numeric property id.
    pub by_id: Vec<(u32, String)>,
    /// Entries keyed by property name.
    pub by_name: Vec<(String, String)>,
}

/// The value a lookup by numeric id finds: the last entry with that id.
pub open spec fn lookup_id(entries: Seq<(u32, String)>, id: u32) -> Option<Seq<char>>
    decreases entries.len(),
{
    if entries.len() == 0 {
        None
    } else if entries.last().0 == id {
        Some(entries.last().1@)
    } else {
        lookup_id(entries.drop_last(), id)
    }
}

/// The value a lookup by name finds: the last entry with that name.
pub open spec fn lookup_name(entries: Seq<(String, String)>, name: Seq<char>) -> Option<Seq<char>>
    decreases entries.len(),
{
    if entries.len() == 0 {
        None
    } else if entries.last().0@ == name {
        Some(entries.last().1@)
    } else {
        lookup_name(entries.drop_last(), name)
    }
}

impl Bag {
    /// An empty store.
    pub fn empty() -> (r: Bag)
        ensures
            r.by_id@.len() == 0,
            r.by_name@.len() == 0,
    {
        Bag { by_id: Vec::new(), by_name: Vec::new() }
    }
}

/// What a one-shot call returns, and what an event's outcome handle carries.
///
/// Every field the classification reads from an outcome handle stands here as
/// a plain value; the property bag holds what only arrives as a property,
/// such as the JSON error details of a cancellation.
pub struct ResultData {
    /// The foreign reason code of the outcome.
    pub reason: u64,
    /// The unique result id.
    pub id: String,
    /// The recognized text, if any.
    pub text: String,
    /// Duration of the recognized audio, in ticks of a hundred nanoseconds.
    pub duration_ticks: u64,
    /// Offset of the recognized audio, in ticks of a hundred nanoseconds.
    pub offset_ticks: u64,
    /// The cancellation reason, meaningful when `reason` is canceled.
    pub cancellation_reason: u64,
    /// The cancellation error code, meaningful when `reason` is canceled.
    pub error_code: u64,
    /// The no-match reason, meaningful when `reason` is no-match.
    pub no_match_reason: u64,
    /// The recognized intent id, empty when none.
    pub intent: String,
    /// Translations as (language, text) pairs.
    pub translations: Vec<(String, String)>,
    /// Synthesized audio bytes, empty when none.
    pub synthesis: Vec<u8>,
    /// The outcome's property bag.
    pub bag: Bag,
}

impl ResultData {
    /// An outcome with nothing in it: reason zero, empty payloads.
    pub fn empty() -> (r: ResultData)
        ensures
            r.reason == 0,
            r.id@.len() == 0,
            r.text@.len() == 0,
            r.duration_ticks == 0,
            r.offset_ticks == 0,
            r.cancellation_reason == 0,
            r.error_code == 0,
            r.no_match_reason == 0,
            r.intent@.len() == 0,
            r.translations@.len() == 0,
            r.synthesis@.len() == 0,
            r.bag.by_id@.len() == 0,
            r.bag.by_name@.len() == 0,
    {
        ResultData {
            reason: 0,
            id: String::new(),
            text: String::new(),
            duration_ticks: 0,
            offset_ticks: 0,
            cancellation_reason: 0,
            error_code: 0,
            no_match_reason: 0,
            intent: String::new(),
            translations: Vec::new(),
            synthesis: Vec::new(),
            bag: Bag { by_id: Vec::new(), by_name: Vec::new() },
        }
    }
}

/// What an event handle carries: the session id, the offset for the speech
/// boundary categories, and the outcome handle's data where the category
/// produces one.
pub struct EventData {
    /// The session id of the operation that fired the event.
    pub session: String,
    /// Offset of the event, in ticks of a hundred nanoseconds.
    pub offset_ticks: u64,
    /// The outcome behind the event, handed out once as an outcome handle.
    pub outcome: Option<ResultData>,
}

/// What kind of resource a handle refers to, with the state the model keeps
/// for that kind.
pub enum HandleData {
    /// A resource the model keeps no state for (configs, triggers, models,
    /// async tokens and the like).
    Plain,
    /// A recognizer or synthesizer: a session whose delivery can be paused.
    Session {
        /// Whether event delivery is enabled (`true` unless paused).
        enabled: bool,
    },
    /// An event fired by the engine.
    Event(EventData),
    /// The outcome of a one-shot call or of an event.
    Outcome(ResultData),
    /// A property bag.
    Bag(Bag),
    /// An audio stream's byte buffer.
    Stream {
        /// Bytes written and not yet read.
        data: Vec<u8>,
        /// Whether the stream was closed.
        closed: bool,
    },
}

/// One row of the handle table.
pub struct HandleEntry {
    /// Whether the resource is still live (release flips this off).
    pub live: bool,
    /// How many times release was called on this handle.
    pub releases: u64,
    /// The resource state.
    pub data: HandleData,
}

/// A callback registration: which handle it was installed on, the single
/// category bit of the registration call, and the context token passed along.
pub struct CallbackReg {
    /// The handle the callback was registered on.
    pub owner: usize,
    /// The single category bit of the registration entry point.
    pub flag: u64,
    /// The context token the trampoline will receive.
    pub token: usize,
}

/// The context token a registration with the given owner and category would
/// use: the latest matching registration wins.
pub open spec fn reg_lookup(regs: Seq<CallbackReg>, owner: usize, flag: u64) -> Option<usize>
    decreases regs.len(),
{
    if regs.len() == 0 {
        None
    } else if regs.last().owner == owner && regs.last().flag == flag {
        Some(regs.last().token)
    } else {
        reg_lookup(regs.drop_last(), owner, flag)
    }
}

/// An event as the trampoline queued it: the category of the registration
/// that fired, and the raw event handle.
#[derive(Clone, Copy, PartialEq, Eq, Structural, Debug)]
pub struct FiredEvent {
    /// The category bit of the callback that fired.
    pub flag: u64,
    /// The event handle passed to the trampoline.
    pub handle: usize,
}

/// One channel slot of the callback bridge.
///
/// `alive` models whether the strong sender still exists: the trampoline
/// appends only while it does, and the receiver may drain what is already
/// queued either way.
pub struct Slot {
    /// Whether the strong sender is still held by a session.
    pub alive: bool,
    /// Events sent and not yet received, in delivery order.
    pub queue: Vec<FiredEvent>,
}

/// The modeled engine state.  See the module documentation.
pub struct Engine {
    /// The handle table; handle `h` is row `h - 1`.
    pub entries: Vec<HandleEntry>,
    /// Outcomes the next one-shot calls will produce, front first.
    pub outcomes: Vec<ResultData>,
    /// Registered callbacks, in registration order.
    pub callbacks: Vec<CallbackReg>,
    /// Channel slots of the callback bridge, indexed by context token.
    pub slots: Vec<Slot>,
    /// Texts handed to the synthesis entry points, in call order.
    pub spoken: Vec<String>,
    /// PCM characteristics handed to the format constructors, in call order:
    /// (rate, bits per sample, channels).
    pub formats: Vec<(u32, u8, u8)>,
}

impl Engine {
    /// Whether `h` addresses a row of the handle table at all.
    pub open spec fn handle_in_range(self, h: usize) -> bool {
        1 <= h && h < usize::MAX && h - 1 < self.entries@.len()
    }

    /// Whether `h` is a live handle.
    pub open spec fn valid(self, h: usize) -> bool {
        self.handle_in_range(h) && self.entries@[h - 1].live
    }

    /// How many times release was called on `h`.
    pub open spec fn releases(self, h: usize) -> u64 {
        if self.handle_in_range(h) {
            self.entries@[h - 1].releases
        } else {
            0
        }
    }

    /// The state behind a handle (meaningful under `handle_in_range`).
    pub open spec fn data_at(self, h: usize) -> HandleData
        recommends
            self.handle_in_range(h),
    {
        self.entries@[h - 1].data
    }

    /// Whether another row can be allocated.
    pub open spec fn can_alloc(self) -> bool {
        self.entries@.len() < usize::MAX - 1
    }

    /// Whether `h` is a live property bag.
    pub open spec fn is_bag(self, h: usize) -> bool {
        self.valid(h) && self.data_at(h) is Bag
    }

    /// Whether `h` is a live session (recognizer or synthesizer).
    pub open spec fn is_session(self, h: usize) -> bool {
        self.valid(h) && self.data_at(h) is Session
    }

    /// Whether `h` is a live event.
    pub open spec fn is_event(self, h: usize) -> bool {
        self.valid(h) && self.data_at(h) is Event
    }

    /// Whether `h` is a live outcome.
    pub open spec fn is_outcome(self, h: usize) -> bool {
        self.valid(h) && self.data_at(h) is Outcome
    }

    /// Whether `h` is a live audio stream buffer.
    pub open spec fn is_stream(self, h: usize) -> bool {
        self.valid(h) && self.data_at(h) is Stream
    }

    /// The id-keyed entries of the bag behind `h` (empty when not a bag).
    pub open spec fn bag_id_entries(self, h: usize) -> Seq<(u32, String)> {
        match self.data_at(h) {
            HandleData::Bag(b) => b.by_id@,
            _ => Seq::empty(),
        }
    }

    /// The name-keyed entries of the bag behind `h` (empty when not a bag).
    pub open spec fn bag_name_entries(self, h: usize) -> Seq<(String, String)> {
        match self.data_at(h) {
            HandleData::Bag(b) => b.by_name@,
            _ => Seq::empty(),
        }
    }

    /// The event data behind `h` (meaningful under `is_event`).
    pub open spec fn event_at(self, h: usize) -> EventData
        recommends
            self.is_event(h),
    {
        match self.data_at(h) {
            HandleData::Event(e) => e,
            _ => arbitrary(),
        }
    }

    /// The outcome data behind `h` (meaningful under `is_outcome`).
    pub open spec fn outcome_at(self, h: usize) -> ResultData
        recommends
            self.is_outcome(h),
    {
        match self.data_at(h) {
            HandleData::Outcome(r) => r,
            _ => arbitrary(),
        }
    }

    /// Frame: `new` equals `self` except possibly row `h - 1` of the table.
    pub open spec fn same_but_entry(self, new: Engine, h: usize) -> bool {
        &&& new.entries@.len() == self.entries@.len()
        &&& forall|j: int|
            0 <= j < self.entries@.len() && j != h - 1 ==> #[trigger] new.entries@[j]
                == self.entries@[j]
        &&& new.outcomes == self.outcomes
        &&& new.callbacks == self.callbacks
        &&& new.slots == self.slots
        &&& new.spoken == self.spoken
        &&& new.formats == self.formats
    }

    /// Frame: as `same_but_entry`, with one row appended as well.
    pub open spec fn same_but_entry_plus_one(self, new: Engine, h: usize) -> bool {
        &&& new.entries@.len() == self.entries@.len() + 1
        &&& forall|j: int|
            0 <= j < self.entries@.len() && j != h - 1 ==> #[trigger] new.entries@[j]
                == self.entries@[j]
        &&& new.outcomes == self.outcomes
        &&& new.callbacks == self.callbacks
        &&& new.slots == self.slots
        &&& new.spoken == self.spoken
        &&& new.formats == self.formats
    }

    /// A fresh engine: no handles, no script, no callbacks, no slots.
    pub fn new() -> (r: Engine)
        ensures
            r.entries@.len() == 0,
            r.outcomes@.len() == 0,
            r.callbacks@.len() == 0,
            r.slots@.len() == 0,
            r.spoken@.len() == 0,
            r.formats@.len() == 0,
    {
        Engine {
            entries: Vec::new(),
            outcomes: Vec::new(),
            callbacks: Vec::new(),
            slots: Vec::new(),
            spoken: Vec::new(),
            formats: Vec::new(),
        }
    }

    /// Create a resource: fill a row and hand out its handle, or report that
    /// the table is exhausted.
    pub fn open_handle(&mut self, data: HandleData) -> (r: Result<usize, SpxError>)
        ensures
            old(self).can_alloc() <==> r is Ok,
            r is Ok ==> r == Ok::<usize, SpxError>((old(self).entries@.len() + 1) as usize),
            r is Ok ==> final(self).entries@ == old(self).entries@.push(
                HandleEntry { live: true, releases: 0, data },
            ),
            r is Ok ==> final(self).valid((old(self).entries@.len() + 1) as usize),
            r is Ok ==> final(self).data_at((old(self).entries@.len() + 1) as usize) == data,
            r is Err ==> r == Err::<usize, SpxError>(SpxError::ApiError(ERR_OUT_OF_HANDLES))
                && *final(self) == *old(self),
            final(self).outcomes == old(self).outcomes,
            final(self).callbacks == old(self).callbacks,
            final(self).slots == old(self).slots,
            final(self).spoken == old(self).spoken,
            final(self).formats == old(self).formats,
    {
        if self.entries.len() < usize::MAX - 1 {
            let h = self.entries.len() + 1;
            self.entries.push(HandleEntry { live: true, releases: 0, data });
            Ok(h)
        } else {
            Err(SpxError::ApiError(ERR_OUT_OF_HANDLES))
        }
    }

    /// The validity check of a handle family: whether `h` is still live.
    pub fn is_valid(&self, h: usize) -> (r: bool)
        ensures
            r == self.valid(h),
    {
        h >= 1 && h < usize::MAX && h - 1 < self.entries.len() && self.entries[h - 1].live
    }

    /// The release call of a handle family.
    ///
    /// Counts every call, so a double release is visible in `releases`; the
    /// row goes dead either way.  Unknown handles are ignored.
    pub fn release_handle(&mut self, h: usize)
        ensures
            !old(self).handle_in_range(h) ==> *final(self) == *old(self),
            old(self).handle_in_range(h) ==> old(self).same_but_entry(*final(self), h),
            old(self).handle_in_range(h) ==> !final(self).valid(h),
            old(self).handle_in_range(h) ==> final(self).data_at(h) == old(self).data_at(h),
            old(self).handle_in_range(h) && old(self).releases(h) < u64::MAX
                ==> final(self).releases(h) == old(self).releases(h) + 1,
            old(self).handle_in_range(h) && old(self).releases(h) == u64::MAX
                ==> final(self).releases(h) == u64::MAX,
    {
        if h >= 1 && h < usize::MAX && h - 1 < self.entries.len() {
            let e = &mut self.entries[h - 1];
            e.live = false;
            if e.releases < u64::MAX {
                e.releases = e.releases + 1;
            }
        }
    }
}

/// The value a bag hands out for a numeric id: the stored value, or the
/// blank default when the id was never set.
pub open spec fn stored_id(entries: Seq<(u32, String)>, id: u32) -> Seq<char> {
    match lookup_id(entries, id) {
        Some(v) => v,
        None => Seq::empty(),
    }
}

/// The value a bag hands out for a name: the stored value, or the blank
/// default when the name was never set.
pub open spec fn stored_name(entries: Seq<(String, String)>, name: Seq<char>) -> Seq<char> {
    match lookup_name(entries, name) {
        Some(v) => v,
        None => Seq::empty(),
    }
}

/// Scan an id-keyed log from its end for the latest entry with this id.
pub(crate) fn find_by_id(entries: &Vec<(u32, String)>, id: u32) -> (r: Option<String>)
    ensures
        match r {
            Some(s) => lookup_id(entries@, id) == Some(s@),
            None => lookup_id(entries@, id) is None,
        },
{
    let mut i: usize = entries.len();
    proof {
        assert(entries@.take(i as int) =~= entries@);
    }
    while i > 0
        invariant
            i <= entries@.len(),
            lookup_id(entries@, id) == lookup_id(entries@.take(i as int), id),
        decreases i,
    {
        i = i - 1;
        proof {
            assert(entries@.take(i as int + 1).drop_last() =~= entries@.take(i as int));
            assert(entries@.take(i as int + 1).last() == entries@[i as int]);
        }
        let pair = &entries[i];
        if pair.0 == id {
            return Some(pair.1.clone());
        }
    }
    None
}

/// Scan a name-keyed log from its end for the latest entry with this name.
fn find_by_name(entries: &Vec<(String, String)>, name: &String) -> (r: Option<String>)
    ensures
        match r {
            Some(s) => lookup_name(entries@, name@) == Some(s@),
            None => lookup_name(entries@, name@) is None,
        },
{
    let mut i: usize = entries.len();
    proof {
        assert(entries@.take(i as int) =~= entries@);
    }
    while i > 0
        invariant
            i <= entries@.len(),
            lookup_name(entries@, name@) == lookup_name(entries@.take(i as int), name@),
        decreases i,
    {
        i = i - 1;
        proof {
            assert(entries@.take(i as int + 1).drop_last() =~= entries@.take(i as int));
            assert(entries@.take(i as int + 1).last() == entries@[i as int]);
        }
        let pair = &entries[i];
        if pair.0.eq(name) {
            return Some(pair.1.clone());
        }
    }
    None
}

impl Engine {
    /// The value the bag behind `h` holds for a numeric id.
    pub open spec fn bag_value_id(self, h: usize, id: u32) -> Seq<char> {
        stored_id(self.bag_id_entries(h), id)
    }

    /// The value the bag behind `h` holds for a name.
    pub open spec fn bag_value_name(self, h: usize, name: Seq<char>) -> Seq<char> {
        stored_name(self.bag_name_entries(h), name)
    }

    /// Create an empty property bag and hand out its handle.
    pub fn open_bag(&mut self) -> (r: Result<usize, SpxError>)
        ensures
            old(self).can_alloc() <==> r is Ok,
            r is Ok ==> r == Ok::<usize, SpxError>((old(self).entries@.len() + 1) as usize),
            r is Ok ==> old(self).same_but_entry_plus_one(*final(self), 0),
            r is Ok ==> final(self).is_bag(r->Ok_0),
            r is Ok ==> final(self).bag_id_entries(r->Ok_0) == Seq::<(u32, String)>::empty(),
            r is Ok ==> final(self).bag_name_entries(r->Ok_0) == Seq::<(String, String)>::empty(),
            r is Err ==> r == Err::<usize, SpxError>(SpxError::ApiError(ERR_OUT_OF_HANDLES))
                && *final(self) == *old(self),
    {
        self.open_handle(HandleData::Bag(Bag { by_id: Vec::new(), by_name: Vec::new() }))
    }

    /// The property-bag read by numeric id: the stored value, or the blank
    /// default when the id was never set.
    pub fn bag_get_by_id(&self, h: usize, id: u32) -> (r: Result<String, SpxError>)
        ensures
            self.is_bag(h) <==> r is Ok,
            r is Ok ==> r->Ok_0@ == self.bag_value_id(h, id),
            r is Err ==> r == Err::<String, SpxError>(SpxError::ApiError(ERR_INVALID_HANDLE)),
    {
        if !self.is_valid(h) {
            return Err(SpxError::ApiError(ERR_INVALID_HANDLE));
        }
        match &self.entries[h - 1].data {
            HandleData::Bag(b) => match find_by_id(&b.by_id, id) {
                Some(v) => Ok(v),
                None => Ok(String::new()),
            },
            _ => Err(SpxError::ApiError(ERR_INVALID_HANDLE)),
        }
    }

    /// The property-bag read by name: the stored value, or the blank default
    /// when the name was never set.
    pub fn bag_get_by_name(&self, h: usize, name: &String) -> (r: Result<String, SpxError>)
        ensures
            self.is_bag(h) <==> r is Ok,
            r is Ok ==> r->Ok_0@ == self.bag_value_name(h, name@),
            r is Err ==> r == Err::<String, SpxError>(SpxError::ApiError(ERR_INVALID_HANDLE)),
    {
        if !self.is_valid(h) {
            return Err(SpxError::ApiError(ERR_INVALID_HANDLE));
        }
        match &self.entries[h - 1].data {
            HandleData::Bag(b) => match find_by_name(&b.by_name, name) {
                Some(v) => Ok(v),
                None => Ok(String::new()),
            },
            _ => Err(SpxError::ApiError(ERR_INVALID_HANDLE)),
        }
    }

    /// The property-bag write by numeric id.
    pub fn bag_put_by_id(&mut self, h: usize, id: u32, value: String) -> (r: Result<
        (),
        SpxError,
    >)
        ensures
            old(self).is_bag(h) <==> r is Ok,
            r is Ok ==> old(self).same_but_entry(*final(self), h),
            r is Ok ==> final(self).is_bag(h),
            r is Ok ==> final(self).releases(h) == old(self).releases(h),
            r is Ok ==> final(self).bag_id_entries(h) == old(self).bag_id_entries(h).push(
                (id, value),
            ),
            r is Ok ==> final(self).bag_name_entries(h) == old(self).bag_name_entries(h),
            r is Err ==> r == Err::<(), SpxError>(SpxError::ApiError(ERR_INVALID_HANDLE))
                && *final(self) == *old(self),
    {
        if !self.is_valid(h) {
            return Err(SpxError::ApiError(ERR_INVALID_HANDLE));
        }
        let found = match &self.entries[h - 1].data {
            HandleData::Bag(_) => true,
            _ => false,
        };
        if !found {
            return Err(SpxError::ApiError(ERR_INVALID_HANDLE));
        }
        let e = &mut self.entries[h - 1];
        match &mut e.data {
            HandleData::Bag(b) => {
                b.by_id.push((id, value));
                Ok(())
            },
            _ => {
                proof {
                    assert(false);
                }
                Err(SpxError::ApiError(ERR_INVALID_HANDLE))
            },
        }
    }

    /// The property-bag write by name.
    pub fn bag_put_by_name(&mut self, h: usize, name: String, value: String) -> (r: Result<
        (),
        SpxError,
    >)
        ensures
            old(self).is_bag(h) <==> r is Ok,
            r is Ok ==> old(self).same_but_entry(*final(self), h),
            r is Ok ==> final(self).is_bag(h),
            r is Ok ==> final(self).releases(h) == old(self).releases(h),
            r is Ok ==> final(self).bag_name_entries(h) == old(self).bag_name_entries(h).push(
                (name, value),
            ),
            r is Ok ==> final(self).bag_id_entries(h) == old(self).bag_id_entries(h),
            r is Err ==> r == Err::<(), SpxError>(SpxError::ApiError(ERR_INVALID_HANDLE))
                && *final(self) == *old(self),
    {
        if !self.is_valid(h) {
            return Err(SpxError::ApiError(ERR_INVALID_HANDLE));
        }
        let found = match &self.entries[h - 1].data {
            HandleData::Bag(_) => true,
            _ => false,
        };
        if !found {
            return Err(SpxError::ApiError(ERR_INVALID_HANDLE));
        }
        let e = &mut self.entries[h - 1];
        match &mut e.data {
            HandleData::Bag(b) => {
                b.by_name.push((name, value));
                Ok(())
            },
            _ => {
                proof {
                    assert(false);
                }
                Err(SpxError::ApiError(ERR_INVALID_HANDLE))
            },
        }
    }
}

impl Engine {
    /// Whether event delivery for the session behind `h` is enabled.
    pub open spec fn session_enabled(self, h: usize) -> bool {
        match self.data_at(h) {
            HandleData::Session { enabled } => enabled,
            _ => false,
        }
    }

    /// The queue of the channel slot behind `token` (empty for unknown
    /// tokens).
    pub open spec fn slot_queue(self, token: usize) -> Seq<FiredEvent> {
        if token < self.slots@.len() {
            self.slots@[token as int].queue@
        } else {
            Seq::empty()
        }
    }

    /// Whether the strong sender of slot `token` is still held.
    pub open spec fn slot_is_alive(self, token: usize) -> bool {
        token < self.slots@.len() && self.slots@[token as int].alive
    }

    /// Frame: `new` equals `self` except possibly slot `token`.
    pub open spec fn same_but_slot(self, new: Engine, token: usize) -> bool {
        &&& new.entries == self.entries
        &&& new.outcomes == self.outcomes
        &&& new.callbacks == self.callbacks
        &&& new.spoken == self.spoken
        &&& new.formats == self.formats
        &&& new.slots@.len() == self.slots@.len()
        &&& forall|j: int|
            0 <= j < self.slots@.len() && j != token ==> #[trigger] new.slots@[j]
                == self.slots@[j]
    }

    /// Script the outcome the next one-shot call will produce.
    pub fn push_outcome(&mut self, data: ResultData)
        ensures
            final(self).outcomes@ == old(self).outcomes@.push(data),
            final(self).entries == old(self).entries,
            final(self).callbacks == old(self).callbacks,
            final(self).slots == old(self).slots,
            final(self).spoken == old(self).spoken,
            final(self).formats == old(self).formats,
    {
        self.outcomes.push(data);
    }

    /// Create a recognizer or synthesizer from a configuration and an
    /// optional audio input (the null handle stands for the default device).
    pub fn create_session(&mut self, config: usize, audio: usize) -> (r: Result<usize, SpxError>)
        ensures
            r is Ok <==> old(self).valid(config) && (audio == crate::NULL_HANDLE || old(
                self,
            ).valid(audio)) && old(self).can_alloc(),
            r is Ok ==> r == Ok::<usize, SpxError>((old(self).entries@.len() + 1) as usize),
            r is Ok ==> final(self).entries@ == old(self).entries@.push(
                HandleEntry { live: true, releases: 0, data: HandleData::Session { enabled: true } },
            ),
            r is Ok ==> final(self).is_session(r->Ok_0) && final(self).session_enabled(r->Ok_0),
            r is Err ==> *final(self) == *old(self),
            final(self).outcomes == old(self).outcomes,
            final(self).callbacks == old(self).callbacks,
            final(self).slots == old(self).slots,
            final(self).spoken == old(self).spoken,
            final(self).formats == old(self).formats,
    {
        if !self.is_valid(config) {
            return Err(SpxError::ApiError(ERR_INVALID_HANDLE));
        }
        if audio != crate::NULL_HANDLE && !self.is_valid(audio) {
            return Err(SpxError::ApiError(ERR_INVALID_HANDLE));
        }
        self.open_handle(HandleData::Session { enabled: true })
    }

    /// Turn event delivery for a session on or off.
    fn set_enabled(&mut self, session: usize, on: bool) -> (r: Result<(), SpxError>)
        ensures
            old(self).is_session(session) <==> r is Ok,
            r is Ok ==> old(self).same_but_entry(*final(self), session),
            r is Ok ==> final(self).is_session(session),
            r is Ok ==> final(self).session_enabled(session) == on,
            r is Ok ==> final(self).releases(session) == old(self).releases(session),
            r is Err ==> r == Err::<(), SpxError>(SpxError::ApiError(ERR_INVALID_HANDLE))
                && *final(self) == *old(self),
    {
        if !self.is_valid(session) {
            return Err(SpxError::ApiError(ERR_INVALID_HANDLE));
        }
        let found = match &self.entries[session - 1].data {
            HandleData::Session { .. } => true,
            _ => false,
        };
        if !found {
            return Err(SpxError::ApiError(ERR_INVALID_HANDLE));
        }
        let e = &mut self.entries[session - 1];
        match &mut e.data {
            HandleData::Session { enabled } => {
                *enabled = on;
                Ok(())
            },
            _ => {
                proof {
                    assert(false);
                }
                Err(SpxError::ApiError(ERR_INVALID_HANDLE))
            },
        }
    }

    /// Resume event delivery for a paused session.
    pub fn enable(&mut self, session: usize) -> (r: Result<(), SpxError>)
        ensures
            old(self).is_session(session) <==> r is Ok,
            r is Ok ==> old(self).same_but_entry(*final(self), session),
            r is Ok ==> final(self).is_session(session),
            r is Ok ==> final(self).session_enabled(session),
            r is Ok ==> final(self).releases(session) == old(self).releases(session),
            r is Err ==> r == Err::<(), SpxError>(SpxError::ApiError(ERR_INVALID_HANDLE))
                && *final(self) == *old(self),
    {
        self.set_enabled(session, true)
    }

    /// Pause event delivery for a session.
    pub fn disable(&mut self, session: usize) -> (r: Result<(), SpxError>)
        ensures
            old(self).is_session(session) <==> r is Ok,
            r is Ok ==> old(self).same_but_entry(*final(self), session),
            r is Ok ==> final(self).is_session(session),
            r is Ok ==> !final(self).session_enabled(session),
            r is Ok ==> final(self).releases(session) == old(self).releases(session),
            r is Err ==> r == Err::<(), SpxError>(SpxError::ApiError(ERR_INVALID_HANDLE))
                && *final(self) == *old(self),
    {
        self.set_enabled(session, false)
    }

    /// Begin an asynchronous engine operation on a session; the returned
    /// handle is the async-operation token, itself to be released.
    fn begin_async(&mut self, session: usize) -> (r: Result<usize, SpxError>)
        ensures
            r is Ok <==> old(self).is_session(session) && old(self).can_alloc(),
            r is Ok ==> r == Ok::<usize, SpxError>((old(self).entries@.len() + 1) as usize),
            r is Ok ==> final(self).entries@ == old(self).entries@.push(
                HandleEntry { live: true, releases: 0, data: HandleData::Plain },
            ),
            r is Ok ==> final(self).valid(r->Ok_0),
            r is Err ==> *final(self) == *old(self),
            final(self).outcomes == old(self).outcomes,
            final(self).callbacks == old(self).callbacks,
            final(self).slots == old(self).slots,
            final(self).spoken == old(self).spoken,
            final(self).formats == old(self).formats,
    {
        if !self.is_valid(session) {
            return Err(SpxError::ApiError(ERR_INVALID_HANDLE));
        }
        let found = match &self.entries[session - 1].data {
            HandleData::Session { .. } => true,
            _ => false,
        };
        if !found {
            return Err(SpxError::ApiError(ERR_INVALID_HANDLE));
        }
        self.open_handle(HandleData::Plain)
    }

    /// Ask the engine to start the continuous operation of a session.
    pub fn start_continuous(&mut self, session: usize) -> (r: Result<usize, SpxError>)
        ensures
            r is Ok <==> old(self).is_session(session) && old(self).can_alloc(),
            r is Ok ==> r == Ok::<usize, SpxError>((old(self).entries@.len() + 1) as usize),
            r is Ok ==> final(self).entries@ == old(self).entries@.push(
                HandleEntry { live: true, releases: 0, data: HandleData::Plain },
            ),
            r is Ok ==> final(self).valid(r->Ok_0),
            r is Err ==> *final(self) == *old(self),
            final(self).outcomes == old(self).outcomes,
            final(self).callbacks == old(self).callbacks,
            final(self).slots == old(self).slots,
            final(self).spoken == old(self).spoken,
            final(self).formats == old(self).formats,
    {
        self.begin_async(session)
    }

    /// Ask the engine to stop the continuous operation of a session.
    pub fn stop_continuous(&mut self, session: usize) -> (r: Result<usize, SpxError>)
        ensures
            r is Ok <==> old(self).is_session(session) && old(self).can_alloc(),
            r is Ok ==> r == Ok::<usize, SpxError>((old(self).entries@.len() + 1) as usize),
            r is Ok ==> final(self).entries@ == old(self).entries@.push(
                HandleEntry { live: true, releases: 0, data: HandleData::Plain },
            ),
            r is Ok ==> final(self).valid(r->Ok_0),
            r is Err ==> *final(self) == *old(self),
            final(self).outcomes == old(self).outcomes,
            final(self).callbacks == old(self).callbacks,
            final(self).slots == old(self).slots,
            final(self).spoken == old(self).spoken,
            final(self).formats == old(self).formats,
    {
        self.begin_async(session)
    }

    /// Block until an asynchronous operation completes, bounded by the given
    /// timeout in milliseconds.  The model completes at once.
    pub fn wait_for(&self, h: usize, timeout: u32) -> (r: Result<(), SpxError>)
        ensures
            self.valid(h) <==> r is Ok,
            r is Err ==> r == Err::<(), SpxError>(SpxError::ApiError(ERR_INVALID_HANDLE)),
    {
        let _ = timeout;
        if self.is_valid(h) {
            Ok(())
        } else {
            Err(SpxError::ApiError(ERR_INVALID_HANDLE))
        }
    }

    /// The blocking one-shot call: produce the next scripted outcome as an
    /// outcome handle.
    pub fn recognize_once(&mut self, session: usize) -> (r: Result<usize, SpxError>)
        ensures
            r is Ok <==> old(self).is_session(session) && old(self).outcomes@.len() > 0 && old(
                self,
            ).can_alloc(),
            r is Ok ==> r == Ok::<usize, SpxError>((old(self).entries@.len() + 1) as usize),
            r is Ok ==> final(self).entries@ == old(self).entries@.push(
                HandleEntry {
                    live: true,
                    releases: 0,
                    data: HandleData::Outcome(old(self).outcomes@[0]),
                },
            ),
            r is Ok ==> final(self).is_outcome(r->Ok_0) && final(self).outcome_at(r->Ok_0) == old(
                self,
            ).outcomes@[0],
            r is Ok ==> final(self).outcomes@ == old(self).outcomes@.remove(0),
            r is Err ==> *final(self) == *old(self),
            old(self).is_session(session) && old(self).outcomes@.len() == 0 ==> r == Err::<
                usize,
                SpxError,
            >(SpxError::ApiError(ERR_NO_RESULT)),
            !old(self).is_session(session) ==> r == Err::<usize, SpxError>(
                SpxError::ApiError(ERR_INVALID_HANDLE),
            ),
            final(self).callbacks == old(self).callbacks,
            final(self).slots == old(self).slots,
            final(self).spoken == old(self).spoken,
            final(self).formats == old(self).formats,
    {
        if !self.is_valid(session) {
            return Err(SpxError::ApiError(ERR_INVALID_HANDLE));
        }
        let found = match &self.entries[session - 1].data {
            HandleData::Session { .. } => true,
            _ => false,
        };
        if !found {
            return Err(SpxError::ApiError(ERR_INVALID_HANDLE));
        }
        if self.outcomes.len() == 0 {
            return Err(SpxError::ApiError(ERR_NO_RESULT));
        }
        if self.entries.len() >= usize::MAX - 1 {
            return Err(SpxError::ApiError(ERR_OUT_OF_HANDLES));
        }
        let data = self.outcomes.remove(0);
        self.open_handle(HandleData::Outcome(data))
    }

    /// Hand a text to the asynchronous synthesis entry point; the returned
    /// handle is the async-operation token.
    pub fn speak(&mut self, session: usize, text: String) -> (r: Result<usize, SpxError>)
        ensures
            r is Ok <==> old(self).is_session(session) && old(self).can_alloc(),
            r is Ok ==> r == Ok::<usize, SpxError>((old(self).entries@.len() + 1) as usize),
            r is Ok ==> final(self).entries@ == old(self).entries@.push(
                HandleEntry { live: true, releases: 0, data: HandleData::Plain },
            ),
            r is Ok ==> final(self).spoken@ == old(self).spoken@.push(text),
            r is Err ==> *final(self) == *old(self),
            final(self).outcomes == old(self).outcomes,
            final(self).callbacks == old(self).callbacks,
            final(self).slots == old(self).slots,
            final(self).formats == old(self).formats,
    {
        if !self.is_valid(session) {
            return Err(SpxError::ApiError(ERR_INVALID_HANDLE));
        }
        let found = match &self.entries[session - 1].data {
            HandleData::Session { .. } => true,
            _ => false,
        };
        if !found {
            return Err(SpxError::ApiError(ERR_INVALID_HANDLE));
        }
        if self.entries.len() >= usize::MAX - 1 {
            return Err(SpxError::ApiError(ERR_OUT_OF_HANDLES));
        }
        self.spoken.push(text);
        self.open_handle(HandleData::Plain)
    }

    /// Hand a text to the blocking one-shot synthesis entry point: records
    /// the text and produces the next scripted outcome as an outcome handle.
    pub fn speak_once(&mut self, session: usize, text: String) -> (r: Result<usize, SpxError>)
        ensures
            r is Ok <==> old(self).is_session(session) && old(self).outcomes@.len() > 0 && old(
                self,
            ).can_alloc(),
            r is Ok ==> r == Ok::<usize, SpxError>((old(self).entries@.len() + 1) as usize),
            r is Ok ==> final(self).entries@ == old(self).entries@.push(
                HandleEntry {
                    live: true,
                    releases: 0,
                    data: HandleData::Outcome(old(self).outcomes@[0]),
                },
            ),
            r is Ok ==> final(self).is_outcome(r->Ok_0) && final(self).outcome_at(r->Ok_0) == old(
                self,
            ).outcomes@[0],
            r is Ok ==> final(self).outcomes@ == old(self).outcomes@.remove(0),
            r is Ok ==> final(self).spoken@ == old(self).spoken@.push(text),
            r is Err ==> *final(self) == *old(self),
            final(self).callbacks == old(self).callbacks,
            final(self).slots == old(self).slots,
            final(self).formats == old(self).formats,
    {
        if !self.is_valid(session) {
            return Err(SpxError::ApiError(ERR_INVALID_HANDLE));
        }
        let found = match &self.entries[session - 1].data {
            HandleData::Session { .. } => true,
            _ => false,
        };
        if !found {
            return Err(SpxError::ApiError(ERR_INVALID_HANDLE));
        }
        if self.outcomes.len() == 0 {
            return Err(SpxError::ApiError(ERR_NO_RESULT));
        }
        if self.entries.len() >= usize::MAX - 1 {
            return Err(SpxError::ApiError(ERR_OUT_OF_HANDLES));
        }
        self.spoken.push(text);
        let data = self.outcomes.remove(0);
        self.open_handle(HandleData::Outcome(data))
    }
}

impl Engine {
    /// The session id of the event behind `h`.
    pub fn event_session_id(&self, h: usize) -> (r: Result<String, SpxError>)
        ensures
            self.is_event(h) <==> r is Ok,
            r is Ok ==> r->Ok_0@ == self.event_at(h).session@,
            r is Err ==> r == Err::<String, SpxError>(SpxError::ApiError(ERR_INVALID_HANDLE)),
    {
        if !self.is_valid(h) {
            return Err(SpxError::ApiError(ERR_INVALID_HANDLE));
        }
        match &self.entries[h - 1].data {
            HandleData::Event(ev) => Ok(ev.session.clone()),
            _ => Err(SpxError::ApiError(ERR_INVALID_HANDLE)),
        }
    }

    /// The offset, in ticks, of the event behind `h`.
    pub fn event_offset_ticks(&self, h: usize) -> (r: Result<u64, SpxError>)
        ensures
            self.is_event(h) <==> r is Ok,
            r is Ok ==> r->Ok_0 == self.event_at(h).offset_ticks,
            r is Err ==> r == Err::<u64, SpxError>(SpxError::ApiError(ERR_INVALID_HANDLE)),
    {
        if !self.is_valid(h) {
            return Err(SpxError::ApiError(ERR_INVALID_HANDLE));
        }
        match &self.entries[h - 1].data {
            HandleData::Event(ev) => Ok(ev.offset_ticks),
            _ => Err(SpxError::ApiError(ERR_INVALID_HANDLE)),
        }
    }

    /// Hand out the outcome behind the event `h` as a fresh outcome handle.
    ///
    /// The engine hands the outcome out once: afterwards the event carries
    /// none, and asking again reports no result.
    pub fn event_result(&mut self, h: usize) -> (r: Result<usize, SpxError>)
        ensures
            r is Ok <==> old(self).is_event(h) && old(self).event_at(h).outcome is Some && old(
                self,
            ).can_alloc(),
            r is Ok ==> r == Ok::<usize, SpxError>((old(self).entries@.len() + 1) as usize),
            r is Ok ==> old(self).same_but_entry_plus_one(*final(self), h),
            r is Ok ==> final(self).is_event(h),
            r is Ok ==> final(self).releases(h) == old(self).releases(h),
            r is Ok ==> final(self).event_at(h).session == old(self).event_at(h).session,
            r is Ok ==> final(self).event_at(h).offset_ticks == old(self).event_at(h).offset_ticks,
            r is Ok ==> final(self).event_at(h).outcome is None,
            r is Ok ==> final(self).is_outcome(r->Ok_0),
            r is Ok ==> final(self).outcome_at(r->Ok_0) == old(self).event_at(h).outcome.unwrap(),
            r is Err ==> *final(self) == *old(self),
            !old(self).is_event(h) ==> r == Err::<usize, SpxError>(
                SpxError::ApiError(ERR_INVALID_HANDLE),
            ),
            old(self).is_event(h) && old(self).event_at(h).outcome is None ==> r == Err::<
                usize,
                SpxError,
            >(SpxError::ApiError(ERR_NO_RESULT)),
    {
        if !self.is_valid(h) {
            return Err(SpxError::ApiError(ERR_INVALID_HANDLE));
        }
        let is_ev = match &self.entries[h - 1].data {
            HandleData::Event(_) => true,
            _ => false,
        };
        if !is_ev {
            return Err(SpxError::ApiError(ERR_INVALID_HANDLE));
        }
        let have_outcome = match &self.entries[h - 1].data {
            HandleData::Event(ev) => ev.outcome.is_some(),
            _ => false,
        };
        if !have_outcome {
            return Err(SpxError::ApiError(ERR_NO_RESULT));
        }
        if self.entries.len() >= usize::MAX - 1 {
            return Err(SpxError::ApiError(ERR_OUT_OF_HANDLES));
        }
        let mut taken: Option<ResultData> = None;
        let e = &mut self.entries[h - 1];
        match &mut e.data {
            HandleData::Event(ev) => {
                core::mem::swap(&mut ev.outcome, &mut taken);
            },
            _ => {
                proof {
                    assert(false);
                }
            },
        }
        match taken {
            Some(data) => self.open_handle(HandleData::Outcome(data)),
            None => {
                proof {
                    assert(false);
                }
                Err(SpxError::ApiError(ERR_NO_RESULT))
            },
        }
    }

    /// The reason code of the outcome behind `h`.
    pub fn result_reason(&self, h: usize) -> (r: Result<u64, SpxError>)
        ensures
            self.is_outcome(h) <==> r is Ok,
            r is Ok ==> r->Ok_0 == self.outcome_at(h).reason,
            r is Err ==> r == Err::<u64, SpxError>(SpxError::ApiError(ERR_INVALID_HANDLE)),
    {
        if !self.is_valid(h) {
            return Err(SpxError::ApiError(ERR_INVALID_HANDLE));
        }
        match &self.entries[h - 1].data {
            HandleData::Outcome(d) => Ok(d.reason),
            _ => Err(SpxError::ApiError(ERR_INVALID_HANDLE)),
        }
    }

    /// The unique id of the outcome behind `h`.
    pub fn result_id(&self, h: usize) -> (r: Result<String, SpxError>)
        ensures
            self.is_outcome(h) <==> r is Ok,
            r is Ok ==> r->Ok_0@ == self.outcome_at(h).id@,
            r is Err ==> r == Err::<String, SpxError>(SpxError::ApiError(ERR_INVALID_HANDLE)),
    {
        if !self.is_valid(h) {
            return Err(SpxError::ApiError(ERR_INVALID_HANDLE));
        }
        match &self.entries[h - 1].data {
            HandleData::Outcome(d) => Ok(d.id.clone()),
            _ => Err(SpxError::ApiError(ERR_INVALID_HANDLE)),
        }
    }

    /// The recognized text of the outcome behind `h`.
    pub fn result_text(&self, h: usize) -> (r: Result<String, SpxError>)
        ensures
            self.is_outcome(h) <==> r is Ok,
            r is Ok ==> r->Ok_0@ == self.outcome_at(h).text@,
            r is Err ==> r == Err::<String, SpxError>(SpxError::ApiError(ERR_INVALID_HANDLE)),
    {
        if !self.is_valid(h) {
            return Err(SpxError::ApiError(ERR_INVALID_HANDLE));
        }
        match &self.entries[h - 1].data {
            HandleData::Outcome(d) => Ok(d.text.clone()),
            _ => Err(SpxError::ApiError(ERR_INVALID_HANDLE)),
        }
    }

    /// The duration, in ticks, of the outcome behind `h`.
    pub fn result_duration_ticks(&self, h: usize) -> (r: Result<u64, SpxError>)
        ensures
            self.is_outcome(h) <==> r is Ok,
            r is Ok ==> r->Ok_0 == self.outcome_at(h).duration_ticks,
            r is Err ==> r == Err::<u64, SpxError>(SpxError::ApiError(ERR_INVALID_HANDLE)),
    {
        if !self.is_valid(h) {
            return Err(SpxError::ApiError(ERR_INVALID_HANDLE));
        }
        match &self.entries[h - 1].data {
            HandleData::Outcome(d) => Ok(d.duration_ticks),
            _ => Err(SpxError::ApiError(ERR_INVALID_HANDLE)),
        }
    }

    /// The offset, in ticks, of the outcome behind `h`.
    pub fn result_offset_ticks(&self, h: usize) -> (r: Result<u64, SpxError>)
        ensures
            self.is_outcome(h) <==> r is Ok,
            r is Ok ==> r->Ok_0 == self.outcome_at(h).offset_ticks,
            r is Err ==> r == Err::<u64, SpxError>(SpxError::ApiError(ERR_INVALID_HANDLE)),
    {
        if !self.is_valid(h) {
            return Err(SpxError::ApiError(ERR_INVALID_HANDLE));
        }
        match &self.entries[h - 1].data {
            HandleData::Outcome(d) => Ok(d.offset_ticks),
            _ => Err(SpxError::ApiError(ERR_INVALID_HANDLE)),
        }
    }

    /// The cancellation reason of the outcome behind `h`.
    pub fn result_cancellation_reason(&self, h: usize) -> (r: Result<u64, SpxError>)
        ensures
            self.is_outcome(h) <==> r is Ok,
            r is Ok ==> r->Ok_0 == self.outcome_at(h).cancellation_reason,
            r is Err ==> r == Err::<u64, SpxError>(SpxError::ApiError(ERR_INVALID_HANDLE)),
    {
        if !self.is_valid(h) {
            return Err(SpxError::ApiError(ERR_INVALID_HANDLE));
        }
        match &self.entries[h - 1].data {
            HandleData::Outcome(d) => Ok(d.cancellation_reason),
            _ => Err(SpxError::ApiError(ERR_INVALID_HANDLE)),
        }
    }

    /// The cancellation error code of the outcome behind `h`.
    pub fn result_error_code(&self, h: usize) -> (r: Result<u64, SpxError>)
        ensures
            self.is_outcome(h) <==> r is Ok,
            r is Ok ==> r->Ok_0 == self.outcome_at(h).error_code,
            r is Err ==> r == Err::<u64, SpxError>(SpxError::ApiError(ERR_INVALID_HANDLE)),
    {
        if !self.is_valid(h) {
            return Err(SpxError::ApiError(ERR_INVALID_HANDLE));
        }
        match &self.entries[h - 1].data {
            HandleData::Outcome(d) => Ok(d.error_code),
            _ => Err(SpxError::ApiError(ERR_INVALID_HANDLE)),
        }
    }

    /// The no-match reason code of the outcome behind `h`.
    pub fn result_no_match_reason(&self, h: usize) -> (r: Result<u64, SpxError>)
        ensures
            self.is_outcome(h) <==> r is Ok,
            r is Ok ==> r->Ok_0 == self.outcome_at(h).no_match_reason,
            r is Err ==> r == Err::<u64, SpxError>(SpxError::ApiError(ERR_INVALID_HANDLE)),
    {
        if !self.is_valid(h) {
            return Err(SpxError::ApiError(ERR_INVALID_HANDLE));
        }
        match &self.entries[h - 1].data {
            HandleData::Outcome(d) => Ok(d.no_match_reason),
            _ => Err(SpxError::ApiError(ERR_INVALID_HANDLE)),
        }
    }

    /// The recognized intent id of the outcome behind `h`.
    pub fn result_intent(&self, h: usize) -> (r: Result<String, SpxError>)
        ensures
            self.is_outcome(h) <==> r is Ok,
            r is Ok ==> r->Ok_0@ == self.outcome_at(h).intent@,
            r is Err ==> r == Err::<String, SpxError>(SpxError::ApiError(ERR_INVALID_HANDLE)),
    {
        if !self.is_valid(h) {
            return Err(SpxError::ApiError(ERR_INVALID_HANDLE));
        }
        match &self.entries[h - 1].data {
            HandleData::Outcome(d) => Ok(d.intent.clone()),
            _ => Err(SpxError::ApiError(ERR_INVALID_HANDLE)),
        }
    }

    /// The length, in bytes, of the synthesized audio of the outcome.
    pub fn result_synthesis_length(&self, h: usize) -> (r: Result<usize, SpxError>)
        ensures
            self.is_outcome(h) <==> r is Ok,
            r is Ok ==> r->Ok_0 == self.outcome_at(h).synthesis@.len(),
            r is Err ==> r == Err::<usize, SpxError>(SpxError::ApiError(ERR_INVALID_HANDLE)),
    {
        if !self.is_valid(h) {
            return Err(SpxError::ApiError(ERR_INVALID_HANDLE));
        }
        match &self.entries[h - 1].data {
            HandleData::Outcome(d) => Ok(d.synthesis.len()),
            _ => Err(SpxError::ApiError(ERR_INVALID_HANDLE)),
        }
    }

    /// Hand out the synthesized audio of the outcome behind `h`.  The bytes
    /// move out: a second call finds none left.
    pub fn result_synthesis(&mut self, h: usize) -> (r: Result<Vec<u8>, SpxError>)
        ensures
            old(self).is_outcome(h) <==> r is Ok,
            r is Ok ==> r->Ok_0@ == old(self).outcome_at(h).synthesis@,
            r is Ok ==> old(self).same_but_entry(*final(self), h),
            r is Ok ==> final(self).is_outcome(h),
            r is Ok ==> final(self).releases(h) == old(self).releases(h),
            r is Ok ==> final(self).outcome_at(h).synthesis@.len() == 0,
            r is Ok ==> final(self).outcome_at(h).reason == old(self).outcome_at(h).reason,
            r is Ok ==> final(self).outcome_at(h).id == old(self).outcome_at(h).id,
            r is Ok ==> final(self).outcome_at(h).text == old(self).outcome_at(h).text,
            r is Ok ==> final(self).outcome_at(h).duration_ticks == old(self).outcome_at(
                h,
            ).duration_ticks,
            r is Ok ==> final(self).outcome_at(h).offset_ticks == old(self).outcome_at(
                h,
            ).offset_ticks,
            r is Ok ==> final(self).outcome_at(h).cancellation_reason == old(self).outcome_at(
                h,
            ).cancellation_reason,
            r is Ok ==> final(self).outcome_at(h).error_code == old(self).outcome_at(h).error_code,
            r is Ok ==> final(self).outcome_at(h).no_match_reason == old(self).outcome_at(
                h,
            ).no_match_reason,
            r is Ok ==> final(self).outcome_at(h).intent == old(self).outcome_at(h).intent,
            r is Ok ==> final(self).outcome_at(h).translations == old(self).outcome_at(
                h,
            ).translations,
            r is Ok ==> final(self).outcome_at(h).bag == old(self).outcome_at(h).bag,
            r is Err ==> r == Err::<Vec<u8>, SpxError>(SpxError::ApiError(ERR_INVALID_HANDLE))
                && *final(self) == *old(self),
    {
        if !self.is_valid(h) {
            return Err(SpxError::ApiError(ERR_INVALID_HANDLE));
        }
        let found = match &self.entries[h - 1].data {
            HandleData::Outcome(_) => true,
            _ => false,
        };
        if !found {
            return Err(SpxError::ApiError(ERR_INVALID_HANDLE));
        }
        let mut taken: Vec<u8> = Vec::new();
        let e = &mut self.entries[h - 1];
        match &mut e.data {
            HandleData::Outcome(d) => {
                core::mem::swap(&mut d.synthesis, &mut taken);
            },
            _ => {
                proof {
                    assert(false);
                }
            },
        }
        Ok(taken)
    }

    /// Hand out the translations of the outcome behind `h`.  The pairs move
    /// out: a second call finds none left.
    pub fn result_translations(&mut self, h: usize) -> (r: Result<Vec<(String, String)>, SpxError>)
        ensures
            old(self).is_outcome(h) <==> r is Ok,
            r is Ok ==> r->Ok_0@ == old(self).outcome_at(h).translations@,
            r is Ok ==> old(self).same_but_entry(*final(self), h),
            r is Ok ==> final(self).is_outcome(h),
            r is Ok ==> final(self).releases(h) == old(self).releases(h),
            r is Ok ==> final(self).outcome_at(h).translations@.len() == 0,
            r is Ok ==> final(self).outcome_at(h).reason == old(self).outcome_at(h).reason,
            r is Ok ==> final(self).outcome_at(h).id == old(self).outcome_at(h).id,
            r is Ok ==> final(self).outcome_at(h).text == old(self).outcome_at(h).text,
            r is Ok ==> final(self).outcome_at(h).duration_ticks == old(self).outcome_at(
                h,
            ).duration_ticks,
            r is Ok ==> final(self).outcome_at(h).offset_ticks == old(self).outcome_at(
                h,
            ).offset_ticks,
            r is Ok ==> final(self).outcome_at(h).cancellation_reason == old(self).outcome_at(
                h,
            ).cancellation_reason,
            r is Ok ==> final(self).outcome_at(h).error_code == old(self).outcome_at(h).error_code,
            r is Ok ==> final(self).outcome_at(h).no_match_reason == old(self).outcome_at(
                h,
            ).no_match_reason,
            r is Ok ==> final(self).outcome_at(h).intent == old(self).outcome_at(h).intent,
            r is Ok ==> final(self).outcome_at(h).synthesis == old(self).outcome_at(h).synthesis,
            r is Ok ==> final(self).outcome_at(h).bag == old(self).outcome_at(h).bag,
            r is Err ==> r == Err::<Vec<(String, String)>, SpxError>(
                SpxError::ApiError(ERR_INVALID_HANDLE),
            ) && *final(self) == *old(self),
    {
        if !self.is_valid(h) {
            return Err(SpxError::ApiError(ERR_INVALID_HANDLE));
        }
        let found = match &self.entries[h - 1].data {
            HandleData::Outcome(_) => true,
            _ => false,
        };
        if !found {
            return Err(SpxError::ApiError(ERR_INVALID_HANDLE));
        }
        let mut taken: Vec<(String, String)> = Vec::new();
        let e = &mut self.entries[h - 1];
        match &mut e.data {
            HandleData::Outcome(d) => {
                core::mem::swap(&mut d.translations, &mut taken);
            },
            _ => {
                proof {
                    assert(false);
                }
            },
        }
        Ok(taken)
    }

    /// Hand out the property bag of the outcome behind `h` as a fresh bag
    /// handle.  The store moves out: a second call finds an empty bag left.
    pub fn result_bag(&mut self, h: usize) -> (r: Result<usize, SpxError>)
        ensures
            r is Ok <==> old(self).is_outcome(h) && old(self).can_alloc(),
            r is Ok ==> r == Ok::<usize, SpxError>((old(self).entries@.len() + 1) as usize),
            r is Ok ==> old(self).same_but_entry_plus_one(*final(self), h),
            r is Ok ==> final(self).is_outcome(h),
            r is Ok ==> final(self).releases(h) == old(self).releases(h),
            r is Ok ==> final(self).is_bag(r->Ok_0),
            r is Ok ==> final(self).bag_id_entries(r->Ok_0) == old(self).outcome_at(h).bag.by_id@,
            r is Ok ==> final(self).bag_name_entries(r->Ok_0) == old(self).outcome_at(
                h,
            ).bag.by_name@,
            r is Ok ==> final(self).outcome_at(h).bag.by_id@.len() == 0,
            r is Ok ==> final(self).outcome_at(h).bag.by_name@.len() == 0,
            r is Ok ==> final(self).outcome_at(h).reason == old(self).outcome_at(h).reason,
            r is Ok ==> final(self).outcome_at(h).id == old(self).outcome_at(h).id,
            r is Ok ==> final(self).outcome_at(h).text == old(self).outcome_at(h).text,
            r is Ok ==> final(self).outcome_at(h).duration_ticks == old(self).outcome_at(
                h,
            ).duration_ticks,
            r is Ok ==> final(self).outcome_at(h).offset_ticks == old(self).outcome_at(
                h,
            ).offset_ticks,
            r is Ok ==> final(self).outcome_at(h).cancellation_reason == old(self).outcome_at(
                h,
            ).cancellation_reason,
            r is Ok ==> final(self).outcome_at(h).error_code == old(self).outcome_at(h).error_code,
            r is Ok ==> final(self).outcome_at(h).no_match_reason == old(self).outcome_at(
                h,
            ).no_match_reason,
            r is Ok ==> final(self).outcome_at(h).intent == old(self).outcome_at(h).intent,
            r is Ok ==> final(self).outcome_at(h).translations == old(self).outcome_at(
                h,
            ).translations,
            r is Ok ==> final(self).outcome_at(h).synthesis == old(self).outcome_at(h).synthesis,
            r is Err ==> *final(self) == *old(self),
            !old(self).is_outcome(h) ==> r == Err::<usize, SpxError>(
                SpxError::ApiError(ERR_INVALID_HANDLE),
            ),
    {
        if !self.is_valid(h) {
            return Err(SpxError::ApiError(ERR_INVALID_HANDLE));
        }
        let found = match &self.entries[h - 1].data {
            HandleData::Outcome(_) => true,
            _ => false,
        };
        if !found {
            return Err(SpxError::ApiError(ERR_INVALID_HANDLE));
        }
        if self.entries.len() >= usize::MAX - 1 {
            return Err(SpxError::ApiError(ERR_OUT_OF_HANDLES));
        }
        let mut taken: Bag = Bag { by_id: Vec::new(), by_name: Vec::new() };
        let e = &mut self.entries[h - 1];
        match &mut e.data {
            HandleData::Outcome(d) => {
                core::mem::swap(&mut d.bag, &mut taken);
            },
            _ => {
                proof {
                    assert(false);
                }
            },
        }
        self.open_handle(HandleData::Bag(taken))
    }

    /// Install a callback: the given category of the given handle will fire
    /// into the slot named by `token`.  The latest registration wins.
    pub fn set_callback(&mut self, owner: usize, flag: u64, token: usize) -> (r: Result<
        (),
        SpxError,
    >)
        ensures
            old(self).valid(owner) <==> r is Ok,
            r is Ok ==> final(self).callbacks@ == old(self).callbacks@.push(
                CallbackReg { owner, flag, token },
            ),
            r is Ok ==> final(self).entries == old(self).entries,
            r is Ok ==> final(self).outcomes == old(self).outcomes,
            r is Ok ==> final(self).slots == old(self).slots,
            r is Ok ==> final(self).spoken == old(self).spoken,
            r is Ok ==> final(self).formats == old(self).formats,
            r is Err ==> r == Err::<(), SpxError>(SpxError::ApiError(ERR_INVALID_HANDLE))
                && *final(self) == *old(self),
    {
        if !self.is_valid(owner) {
            return Err(SpxError::ApiError(ERR_INVALID_HANDLE));
        }
        self.callbacks.push(CallbackReg { owner, flag, token });
        Ok(())
    }

    /// Open a fresh channel slot for a session's callback bridge and hand
    /// out its context token.
    pub fn new_slot(&mut self) -> (token: usize)
        ensures
            token == old(self).slots@.len(),
            final(self).slots@.len() == old(self).slots@.len() + 1,
            forall|j: int|
                0 <= j < old(self).slots@.len() ==> #[trigger] final(self).slots@[j] == old(
                    self,
                ).slots@[j],
            final(self).slot_is_alive(token),
            final(self).slot_queue(token) == Seq::<FiredEvent>::empty(),
            final(self).entries == old(self).entries,
            final(self).outcomes == old(self).outcomes,
            final(self).callbacks == old(self).callbacks,
            final(self).spoken == old(self).spoken,
            final(self).formats == old(self).formats,
    {
        let token = self.slots.len();
        self.slots.push(Slot { alive: true, queue: Vec::new() });
        token
    }

    /// Whether the strong sender of slot `token` is still held.
    pub fn is_slot_alive(&self, token: usize) -> (r: bool)
        ensures
            r == self.slot_is_alive(token),
    {
        token < self.slots.len() && self.slots[token].alive
    }

    /// Append an event to a live slot; a dead or unknown slot takes nothing.
    pub fn slot_push(&mut self, token: usize, fe: FiredEvent) -> (pushed: bool)
        ensures
            pushed == old(self).slot_is_alive(token),
            pushed ==> old(self).same_but_slot(*final(self), token),
            pushed ==> final(self).slot_is_alive(token),
            pushed ==> final(self).slot_queue(token) == old(self).slot_queue(token).push(fe),
            !pushed ==> *final(self) == *old(self),
    {
        if token < self.slots.len() {
            if self.slots[token].alive {
                let s = &mut self.slots[token];
                s.queue.push(fe);
                return true;
            }
        }
        false
    }

    /// Take the next queued event of a slot, if any; the queue may be
    /// drained whether or not the sender is still held.
    pub fn slot_pop(&mut self, token: usize) -> (r: Option<FiredEvent>)
        ensures
            old(self).slot_queue(token).len() > 0 ==> r == Some(old(self).slot_queue(token)[0]),
            old(self).slot_queue(token).len() > 0 ==> old(self).same_but_slot(*final(self), token),
            old(self).slot_queue(token).len() > 0 ==> final(self).slot_queue(token) == old(
                self,
            ).slot_queue(token).remove(0),
            old(self).slot_queue(token).len() > 0 ==> final(self).slot_is_alive(token) == old(
                self,
            ).slot_is_alive(token),
            old(self).slot_queue(token).len() == 0 ==> r is None && *final(self) == *old(self),
    {
        if token < self.slots.len() {
            if self.slots[token].queue.len() > 0 {
                let s = &mut self.slots[token];
                return Some(s.queue.remove(0));
            }
        }
        None
    }

    /// Drop the strong sender of a slot: late callbacks will find it dead
    /// and discard their event; what is already queued stays readable.
    pub fn drop_sender(&mut self, token: usize)
        ensures
            token < old(self).slots@.len() ==> old(self).same_but_slot(*final(self), token),
            token < old(self).slots@.len() ==> !final(self).slot_is_alive(token),
            token < old(self).slots@.len() ==> final(self).slot_queue(token) == old(
                self,
            ).slot_queue(token),
            token >= old(self).slots@.len() ==> *final(self) == *old(self),
    {
        if token < self.slots.len() {
            let s = &mut self.slots[token];
            s.alive = false;
        }
    }
}

impl Engine {
    /// The bytes buffered in the stream behind `h` (empty when not a
    /// stream).
    pub open spec fn stream_data(self, h: usize) -> Seq<u8> {
        match self.data_at(h) {
            HandleData::Stream { data, closed } => data@,
            _ => Seq::empty(),
        }
    }

    /// Whether the stream behind `h` was closed.
    pub open spec fn stream_closed(self, h: usize) -> bool {
        match self.data_at(h) {
            HandleData::Stream { data, closed } => closed,
            _ => false,
        }
    }

    /// Append audio bytes to an open stream buffer.
    pub fn stream_write(&mut self, h: usize, buffer: &[u8]) -> (r: Result<(), SpxError>)
        ensures
            r is Ok <==> old(self).is_stream(h) && !old(self).stream_closed(h),
            r is Ok ==> old(self).same_but_entry(*final(self), h),
            r is Ok ==> final(self).is_stream(h),
            r is Ok ==> final(self).releases(h) == old(self).releases(h),
            r is Ok ==> final(self).stream_data(h) == old(self).stream_data(h) + buffer@,
            r is Ok ==> !final(self).stream_closed(h),
            r is Err ==> r == Err::<(), SpxError>(SpxError::ApiError(ERR_INVALID_HANDLE))
                && *final(self) == *old(self),
    {
        if !self.is_valid(h) {
            return Err(SpxError::ApiError(ERR_INVALID_HANDLE));
        }
        let open_stream = match &self.entries[h - 1].data {
            HandleData::Stream { data: _, closed } => !*closed,
            _ => false,
        };
        if !open_stream {
            return Err(SpxError::ApiError(ERR_INVALID_HANDLE));
        }
        let e = &mut self.entries[h - 1];
        match &mut e.data {
            HandleData::Stream { data, closed: _ } => {
                data.extend_from_slice(buffer);
                Ok(())
            },
            _ => {
                proof {
                    assert(false);
                }
                Err(SpxError::ApiError(ERR_INVALID_HANDLE))
            },
        }
    }

    /// Drain up to `want` bytes from the front of a stream buffer.
    pub fn stream_read(&mut self, h: usize, want: usize) -> (r: Result<Vec<u8>, SpxError>)
        ensures
            old(self).is_stream(h) <==> r is Ok,
            r is Ok ==> old(self).same_but_entry(*final(self), h),
            r is Ok ==> final(self).is_stream(h),
            r is Ok ==> final(self).releases(h) == old(self).releases(h),
            r is Ok ==> r->Ok_0@ == old(self).stream_data(h).take(
                vstd::math::min(want as int, old(self).stream_data(h).len() as int),
            ),
            r is Ok ==> final(self).stream_data(h) == old(self).stream_data(h).skip(
                vstd::math::min(want as int, old(self).stream_data(h).len() as int),
            ),
            r is Ok ==> final(self).stream_closed(h) == old(self).stream_closed(h),
            r is Err ==> r == Err::<Vec<u8>, SpxError>(SpxError::ApiError(ERR_INVALID_HANDLE))
                && *final(self) == *old(self),
    {
        if !self.is_valid(h) {
            return Err(SpxError::ApiError(ERR_INVALID_HANDLE));
        }
        let found = match &self.entries[h - 1].data {
            HandleData::Stream { .. } => true,
            _ => false,
        };
        if !found {
            return Err(SpxError::ApiError(ERR_INVALID_HANDLE));
        }
        let e = &mut self.entries[h - 1];
        match &mut e.data {
            HandleData::Stream { data, closed: _ } => {
                let k = if want < data.len() {
                    want
                } else {
                    data.len()
                };
                let mut tail = data.split_off(k);
                core::mem::swap(data, &mut tail);
                Ok(tail)
            },
            _ => {
                proof {
                    assert(false);
                }
                Err(SpxError::ApiError(ERR_INVALID_HANDLE))
            },
        }
    }

    /// Mark a stream buffer closed; buffered bytes stay readable.
    pub fn stream_close(&mut self, h: usize) -> (r: Result<(), SpxError>)
        ensures
            old(self).is_stream(h) <==> r is Ok,
            r is Ok ==> old(self).same_but_entry(*final(self), h),
            r is Ok ==> final(self).is_stream(h),
            r is Ok ==> final(self).releases(h) == old(self).releases(h),
            r is Ok ==> final(self).stream_closed(h),
            r is Ok ==> final(self).stream_data(h) == old(self).stream_data(h),
            r is Err ==> r == Err::<(), SpxError>(SpxError::ApiError(ERR_INVALID_HANDLE))
                && *final(self) == *old(self),
    {
        if !self.is_valid(h) {
            return Err(SpxError::ApiError(ERR_INVALID_HANDLE));
        }
        let found = match &self.entries[h - 1].data {
            HandleData::Stream { .. } => true,
            _ => false,
        };
        if !found {
            return Err(SpxError::ApiError(ERR_INVALID_HANDLE));
        }
        let e = &mut self.entries[h - 1];
        match &mut e.data {
            HandleData::Stream { data: _, closed } => {
                *closed = true;
                Ok(())
            },
            _ => {
                proof {
                    assert(false);
                }
                Err(SpxError::ApiError(ERR_INVALID_HANDLE))
            },
        }
    }
}

/// No engine state treats the invalid-handle marker as live, so a wrapper
/// that has already released its handle (and now holds the marker) can never
/// release it a second time: the release path of every wrapper checks
/// validity first.
pub proof fn lemma_invalid_handle_never_valid(e: Engine)
    ensures
        !e.valid(crate::INVALID_HANDLE),
{
}

impl Engine {
    /// Create an audio stream format object: the PCM characteristics reach
    /// the engine and are recorded, and a plain handle comes back.
    pub fn create_format(&mut self, rate: u32, bits: u8, channels: u8) -> (r: Result<
        usize,
        SpxError,
    >)
        ensures
            old(self).can_alloc() <==> r is Ok,
            r is Ok ==> r == Ok::<usize, SpxError>((old(self).entries@.len() + 1) as usize),
            r is Ok ==> final(self).entries@ == old(self).entries@.push(
                HandleEntry { live: true, releases: 0, data: HandleData::Plain },
            ),
            r is Ok ==> final(self).valid(r->Ok_0),
            r is Ok ==> final(self).formats@ == old(self).formats@.push((rate, bits, channels)),
            r is Err ==> *final(self) == *old(self),
            final(self).outcomes == old(self).outcomes,
            final(self).callbacks == old(self).callbacks,
            final(self).slots == old(self).slots,
            final(self).spoken == old(self).spoken,
    {
        if self.entries.len() >= usize::MAX - 1 {
            return Err(SpxError::ApiError(ERR_OUT_OF_HANDLES));
        }
        self.formats.push((rate, bits, channels));
        self.open_handle(HandleData::Plain)
    }
}

/// How one more registration changes every lookup: the query it matches now
/// finds it, every other query is untouched.
pub proof fn lemma_reg_lookup_push(regs: Seq<CallbackReg>, r: CallbackReg)
    ensures
        forall|o: usize, f: u64|
            #[trigger] reg_lookup(regs.push(r), o, f) == if r.owner == o && r.flag == f {
                Some(r.token)
            } else {
                reg_lookup(regs, o, f)
            },
{
    assert forall|o: usize, f: u64|
        #[trigger] reg_lookup(regs.push(r), o, f) == if r.owner == o && r.flag == f {
            Some(r.token)
        } else {
            reg_lookup(regs, o, f)
        } by {
        assert(regs.push(r).drop_last() =~= regs);
        assert(regs.push(r).last() == r);
    }
}

/// What a lookup finds is always one of the stored values.
pub proof fn lemma_lookup_id_is_a_value(entries: Seq<(u32, String)>, id: u32)
    ensures
        lookup_id(entries, id) matches Some(v) ==> exists|i: int|
            0 <= i < entries.len() && #[trigger] entries[i].1@ == v,
    decreases entries.len(),
{
    if entries.len() > 0 {
        if entries.last().0 == id {
            assert(entries[entries.len() - 1].1@ == entries.last().1@);
        } else {
            lemma_lookup_id_is_a_value(entries.drop_last(), id);
            match lookup_id(entries, id) {
                Some(v) => {
                    let i = choose|i: int|
                        0 <= i < entries.drop_last().len() && #[trigger] entries.drop_last()[i].1@
                            == v;
                    assert(entries[i].1@ == v);
                },
                None => {},
            }
        }
    }
}

/// `put` then `get` on the same numeric id yields the value just put: the
/// latest entry of the log wins.
pub proof fn lemma_bag_round_trip_id(entries: Seq<(u32, String)>, id: u32, value: String)
    ensures
        stored_id(entries.push((id, value)), id) == value@,
{
    assert(entries.push((id, value)).last() == (id, value));
}

/// `put` then `get` on the same name yields the value just put, and a put
/// under one id leaves every other id unchanged.
pub proof fn lemma_bag_round_trip_name(entries: Seq<(String, String)>, name: String, value: String)
    ensures
        stored_name(entries.push((name, value)), name@) == value@,
{
    assert(entries.push((name, value)).last() == (name, value));
}

/// A put under one id leaves the value of every other id as it was.
pub proof fn lemma_bag_put_frame_id(entries: Seq<(u32, String)>, id: u32, value: String, other: u32)
    requires
        other != id,
    ensures
        stored_id(entries.push((id, value)), other) == stored_id(entries, other),
{
    assert(entries.push((id, value)).drop_last() =~= entries);
}

} // verus!
