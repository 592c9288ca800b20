//! Property bags: key/value access over an engine resource, by numeric id or
//! by name.
//!
//! Values cross to the engine as plain strings; an embedded nul byte in an
//! input is a documented error, never undefined behaviour.

use vstd::prelude::*;

use crate::engine::Engine;
use crate::error::SpxError;
use crate::{Handle, INVALID_HANDLE};

verus! {

/// Property id: the subscription key of the service connection.
pub const PROPERTY_CONNECTION_KEY: u32 = 1000;

/// Property id: the service endpoint.
pub const PROPERTY_CONNECTION_ENDPOINT: u32 = 1001;

/// Property id: the service region.
pub const PROPERTY_CONNECTION_REGION: u32 = 1002;

/// Property id: the authorization token.
pub const PROPERTY_AUTHORIZATION_TOKEN: u32 = 1003;

/// Property id: the custom endpoint id.
pub const PROPERTY_ENDPOINT_ID: u32 = 1005;

/// Property id: the proxy host name.
pub const PROPERTY_PROXY_HOST_NAME: u32 = 1100;

/// Property id: the proxy port.
pub const PROPERTY_PROXY_PORT: u32 = 1101;

/// Property id: the proxy user name.
pub const PROPERTY_PROXY_USER_NAME: u32 = 1102;

/// Property id: the proxy password.
pub const PROPERTY_PROXY_PASSWORD: u32 = 1103;

/// Property id: the target languages of a translation session.
pub const PROPERTY_TRANSLATION_TO_LANGUAGES: u32 = 2000;

/// Property id: the synthesis voice of a translation session.
pub const PROPERTY_TRANSLATION_VOICE: u32 = 2001;

/// Property id: the feature flags of a translation session.
pub const PROPERTY_TRANSLATION_FEATURES: u32 = 2002;

/// Property id: the recognition language.
pub const PROPERTY_RECO_LANGUAGE: u32 = 3001;

/// Property id: whether detailed results are requested, "true" or "false".
pub const PROPERTY_REQUEST_DETAILED_RESULT: u32 = 4000;

/// Property id: the JSON error details of an unsuccessful outcome.
pub const PROPERTY_JSON_ERROR_DETAILS: u32 = 5001;

/// Property id: the JSON response of the language-understanding service.
pub const PROPERTY_LUIS_JSON_RESULT: u32 = 7000;

/// Whether the string holds an interior nul character, which cannot cross to
/// the engine.
pub open spec fn has_nul(s: Seq<char>) -> bool {
    exists|i: int| 0 <= i < s.len() && s[i] == '\0'
}

/// Check a string for an interior nul character before it crosses to the
/// engine.
pub fn contains_nul(s: &str) -> (r: bool)
    ensures
        r == has_nul(s@),
{
    let len = s.unicode_len();
    let mut i: usize = 0;
    while i < len
        invariant
            len == s@.len(),
            i <= len,
            forall|j: int| 0 <= j < i ==> s@[j] != '\0',
        decreases len - i,
    {
        if s.get_char(i) == '\0' {
            return true;
        }
        i = i + 1;
    }
    false
}

/// The character of one decimal digit.
pub open spec fn digit_char(d: nat) -> char {
    if d == 0 {
        '0'
    } else if d == 1 {
        '1'
    } else if d == 2 {
        '2'
    } else if d == 3 {
        '3'
    } else if d == 4 {
        '4'
    } else if d == 5 {
        '5'
    } else if d == 6 {
        '6'
    } else if d == 7 {
        '7'
    } else if d == 8 {
        '8'
    } else {
        '9'
    }
}

/// The decimal notation of a number, most significant digit first.
pub open spec fn spec_decimal(n: nat) -> Seq<char>
    decreases n,
{
    if n < 10 {
        seq![digit_char(n)]
    } else {
        spec_decimal(n / 10).push(digit_char(n % 10))
    }
}

/// The one-character string of a decimal digit.
fn digit_string(d: u32) -> (r: String)
    requires
        d < 10,
    ensures
        r@ == seq![digit_char(d as nat)],
{
    let r = if d == 0 {
        "0"
    } else if d == 1 {
        "1"
    } else if d == 2 {
        "2"
    } else if d == 3 {
        "3"
    } else if d == 4 {
        "4"
    } else if d == 5 {
        "5"
    } else if d == 6 {
        "6"
    } else if d == 7 {
        "7"
    } else if d == 8 {
        "8"
    } else {
        "9"
    };
    proof {
        reveal_strlit("0");
        reveal_strlit("1");
        reveal_strlit("2");
        reveal_strlit("3");
        reveal_strlit("4");
        reveal_strlit("5");
        reveal_strlit("6");
        reveal_strlit("7");
        reveal_strlit("8");
        reveal_strlit("9");
        assert(r@ =~= seq![digit_char(d as nat)]);
    }
    r.to_owned()
}

/// Render a number in decimal, as property values are plain text.
pub fn decimal_string(v: u32) -> (r: String)
    ensures
        r@ == spec_decimal(v as nat),
    decreases v,
{
    if v < 10 {
        digit_string(v)
    } else {
        let mut s = decimal_string(v / 10);
        let d = digit_string(v % 10);
        s.append(d.as_str());
        proof {
            assert(s@ =~= spec_decimal((v / 10) as nat).push(digit_char((v % 10) as nat)));
        }
        s
    }
}

/// The decimal notation holds digit characters only, never a nul: a
/// rendered number can always cross to the engine.
pub proof fn lemma_decimal_no_nul(n: nat)
    ensures
        !has_nul(spec_decimal(n)),
    decreases n,
{
    if n >= 10 {
        lemma_decimal_no_nul(n / 10);
        assert forall|i: int| 0 <= i < spec_decimal(n).len() implies spec_decimal(n)[i]
            != '\0' by {
            if i < spec_decimal(n / 10).len() {
                assert(spec_decimal(n)[i] == spec_decimal(n / 10)[i]);
                assert(!has_nul(spec_decimal(n / 10)));
            }
        }
    }
}

/// Key/value access over the property bag of an engine resource.
///
/// A read of a key that was never set yields the blank default; a write
/// refuses a value (or name) with an interior nul byte.
pub trait PropertyBag {
    /// The bag handle the accessors go through.
    spec fn bag_handle(&self) -> usize;

    /// Read the value stored under a numeric id, or the blank default.
    fn get_by_id(&self, engine: &Engine, id: u32) -> (r: Result<String, SpxError>)
        ensures
            engine.is_bag(self.bag_handle()) <==> r is Ok,
            r is Ok ==> r->Ok_0@ == engine.bag_value_id(self.bag_handle(), id),
    ;

    /// Read the value stored under a name, or the blank default.
    fn get_by_name(&self, engine: &Engine, name: &String) -> (r: Result<String, SpxError>)
        ensures
            engine.is_bag(self.bag_handle()) <==> r is Ok,
            r is Ok ==> r->Ok_0@ == engine.bag_value_name(self.bag_handle(), name@),
    ;

    /// Store a value under a numeric id.
    fn put_by_id(&self, engine: &mut Engine, id: u32, value: &str) -> (r: Result<(), SpxError>)
        ensures
            r is Ok <==> !has_nul(value@) && old(engine).is_bag(self.bag_handle()),
            has_nul(value@) ==> r == Err::<(), SpxError>(SpxError::IsNull) && *final(engine)
                == *old(engine),
            r is Ok ==> final(engine).bag_value_id(self.bag_handle(), id) == value@,
            r is Ok ==> forall|other: u32|
                other != id ==> final(engine).bag_value_id(self.bag_handle(), other) == old(
                    engine,
                ).bag_value_id(self.bag_handle(), other),
            r is Ok ==> final(engine).bag_name_entries(self.bag_handle()) == old(
                engine,
            ).bag_name_entries(self.bag_handle()),
            r is Ok ==> old(engine).same_but_entry(*final(engine), self.bag_handle()),
            r is Ok ==> final(engine).is_bag(self.bag_handle()),
            r is Ok ==> final(engine).releases(self.bag_handle()) == old(engine).releases(
                self.bag_handle(),
            ),
            r is Err ==> *final(engine) == *old(engine),
    ;

    /// Store a value under a name.
    fn put_by_name(&self, engine: &mut Engine, name: &str, value: &str) -> (r: Result<
        (),
        SpxError,
    >)
        ensures
            r is Ok <==> !has_nul(name@) && !has_nul(value@) && old(engine).is_bag(
                self.bag_handle(),
            ),
            has_nul(name@) || has_nul(value@) ==> r == Err::<(), SpxError>(SpxError::IsNull)
                && *final(engine) == *old(engine),
            r is Ok ==> final(engine).bag_value_name(self.bag_handle(), name@) == value@,
            r is Ok ==> final(engine).bag_id_entries(self.bag_handle()) == old(
                engine,
            ).bag_id_entries(self.bag_handle()),
            r is Ok ==> old(engine).same_but_entry(*final(engine), self.bag_handle()),
            r is Ok ==> final(engine).is_bag(self.bag_handle()),
            r is Ok ==> final(engine).releases(self.bag_handle()) == old(engine).releases(
                self.bag_handle(),
            ),
            r is Err ==> *final(engine) == *old(engine),
    ;
}

/// An owned property-bag handle.
pub struct Properties {
    /// The underlying bag handle.
    pub handle: usize,
}

impl Properties {
    /// Adopt ownership of a bag handle, without validation.
    pub fn new(handle: usize) -> (r: Properties)
        ensures
            r.handle == handle,
    {
        Properties { handle }
    }

    /// Whether the underlying handle is still live in the engine.
    pub fn is_valid(&self, engine: &Engine) -> (r: bool)
        ensures
            r == engine.valid(self.handle),
    {
        engine.is_valid(self.handle)
    }

    /// Release the underlying handle: the engine's validity check runs
    /// first, so a handle the engine already knows as dead is not released
    /// again, and afterwards the wrapper holds the invalid handle.
    pub fn release(&mut self, engine: &mut Engine)
        ensures
            final(self).handle == INVALID_HANDLE,
            !old(engine).valid(old(self).handle) ==> *final(engine) == *old(engine),
            old(engine).valid(old(self).handle) ==> old(engine).same_but_entry(
                *final(engine),
                old(self).handle,
            ),
            old(engine).valid(old(self).handle) ==> !final(engine).valid(old(self).handle),
            old(engine).valid(old(self).handle) && old(engine).releases(old(self).handle)
                < u64::MAX ==> final(engine).releases(old(self).handle) == old(engine).releases(
                old(self).handle,
            ) + 1,
    {
        if engine.is_valid(self.handle) {
            engine.release_handle(self.handle);
        }
        self.handle = INVALID_HANDLE;
    }
}

impl Handle for Properties {
    open spec fn spec_handle(&self) -> usize {
        self.handle
    }

    fn handle(&self) -> (h: usize)
        ensures
            h == self.spec_handle(),
    {
        self.handle
    }
}

impl PropertyBag for Properties {
    open spec fn bag_handle(&self) -> usize {
        self.handle
    }

    fn get_by_id(&self, engine: &Engine, id: u32) -> (r: Result<String, SpxError>) {
        engine.bag_get_by_id(self.handle, id)
    }

    fn get_by_name(&self, engine: &Engine, name: &String) -> (r: Result<String, SpxError>) {
        engine.bag_get_by_name(self.handle, name)
    }

    fn put_by_id(&self, engine: &mut Engine, id: u32, value: &str) -> (r: Result<(), SpxError>) {
        if contains_nul(value) {
            return Err(SpxError::IsNull);
        }
        let owned = value.to_owned();
        let ghost snapshot = owned;
        let r = engine.bag_put_by_id(self.handle, id, owned);
        proof {
            if old(engine).is_bag(self.handle) {
                crate::engine::lemma_bag_round_trip_id(
                    old(engine).bag_id_entries(self.handle),
                    id,
                    snapshot,
                );
                assert forall|other: u32| other != id implies engine.bag_value_id(
                    self.handle,
                    other,
                ) == old(engine).bag_value_id(self.handle, other) by {
                    crate::engine::lemma_bag_put_frame_id(
                        old(engine).bag_id_entries(self.handle),
                        id,
                        snapshot,
                        other,
                    );
                }
            }
        }
        r
    }

    fn put_by_name(&self, engine: &mut Engine, name: &str, value: &str) -> (r: Result<
        (),
        SpxError,
    >) {
        if contains_nul(name) {
            return Err(SpxError::IsNull);
        }
        if contains_nul(value) {
            return Err(SpxError::IsNull);
        }
        let owned_name = name.to_owned();
        let owned_value = value.to_owned();
        let ghost name_snapshot = owned_name;
        let ghost value_snapshot = owned_value;
        let r = engine.bag_put_by_name(self.handle, owned_name, owned_value);
        proof {
            if old(engine).is_bag(self.handle) {
                crate::engine::lemma_bag_round_trip_name(
                    old(engine).bag_name_entries(self.handle),
                    name_snapshot,
                    value_snapshot,
                );
            }
        }
        r
    }
}

} // verus!
