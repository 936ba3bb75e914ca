//! The wire schema: how typed values stand in JSON trees.
//!
//! Every type that crosses the wire implements [`Wire`]. Its specification
//! functions say, over the models of values and trees, which tree a value is
//! written as and which value a tree is read as; its executable methods are
//! proved against them; its lemmas state that reading what was written gives
//! the value back, and that what was read from text can be written as text.

use vstd::prelude::*;
use crate::json::{members_view, Json, JsonView};
use crate::text::{lemma_canonical_members_ok, writable};

verus! {

/// Why a body could not be read as the expected value.
#[derive(Clone, Copy, PartialEq, Eq, Debug, Structural)]
pub enum DecodeError {
    /// The text is not JSON.
    Syntax,
    /// An object lacks a member that the schema requires.
    MissingField,
    /// A value has another JSON type, or another range, than the schema asks.
    TypeMismatch,
}

impl DecodeError {
    /// What went wrong, in words.
    pub open spec fn spec_message(self) -> Seq<char> {
        match self {
            DecodeError::Syntax => "the body is not JSON"@,
            DecodeError::MissingField => "an object lacks a field that must be there"@,
            DecodeError::TypeMismatch => "a value is not of the type or range of its field"@,
        }
    }

    /// What went wrong, in words.
    pub fn message(&self) -> (r: &'static str)
        ensures
            r@ == self.spec_message(),
    {
        match self {
            DecodeError::Syntax => "the body is not JSON",
            DecodeError::MissingField => "an object lacks a field that must be there",
            DecodeError::TypeMismatch => "a value is not of the type or range of its field",
        }
    }
}

/// The members of an object, each a name and a value, in the order written.
pub type Members = Seq<(Seq<char>, JsonView)>;

/// The value of the last member of `m` named `key`.
#[verifier::opaque]
pub open spec fn lookup(m: Members, key: Seq<char>) -> Option<JsonView>
    decreases m.len(),
{
    if m.len() == 0 {
        None
    } else if m.last().0 == key {
        Some(m.last().1)
    } else {
        lookup(m.drop_last(), key)
    }
}

/// Looking a name up after one more member was written.
pub broadcast proof fn lemma_lookup_push(m: Members, e: (Seq<char>, JsonView), key: Seq<char>)
    ensures
        #[trigger] lookup(m.push(e), key) == if e.0 == key {
            Some(e.1)
        } else {
            lookup(m, key)
        },
{
    reveal(lookup);
    assert(m.push(e).drop_last() =~= m);
}

/// No member of the empty object has any name.
pub broadcast proof fn lemma_lookup_empty(key: Seq<char>)
    ensures
        #[trigger] lookup(Seq::empty(), key) is None,
{
    reveal(lookup);
}

/// Whether no two entries of a map, or members of an object, have the same
/// name.
pub open spec fn distinct_keys<T>(entries: Seq<(Seq<char>, T)>) -> bool {
    forall|i: int, j: int|
        0 <= i < j < entries.len() ==> (#[trigger] entries[i]).0 != (#[trigger] entries[j]).0
}

/// A name is found in an object exactly where some member has it.
pub proof fn lemma_lookup_some(m: Members, key: Seq<char>)
    ensures
        lookup(m, key) is Some <==> exists|k: int| 0 <= k < m.len() && (#[trigger] m[k]).0 == key,
    decreases m.len(),
{
    reveal(lookup);
    if m.len() > 0 {
        let head = m.drop_last();
        lemma_lookup_some(head, key);
        if m.last().0 == key {
            assert(m[m.len() - 1].0 == key);
        } else {
            if exists|k: int| 0 <= k < m.len() && (#[trigger] m[k]).0 == key {
                let k = choose|k: int| 0 <= k < m.len() && (#[trigger] m[k]).0 == key;
                assert(head[k].0 == key);
            }
            if exists|k: int| 0 <= k < head.len() && (#[trigger] head[k]).0 == key {
                let k = choose|k: int| 0 <= k < head.len() && (#[trigger] head[k]).0 == key;
                assert(m[k].0 == key);
            }
        }
    }
}

/// A value that is found under a name is the value of a member of that name.
pub proof fn lemma_lookup_found(m: Members, key: Seq<char>)
    requires
        lookup(m, key) is Some,
    ensures
        exists|k: int| 0 <= k < m.len() && #[trigger] m[k] == (key, lookup(m, key)->Some_0),
    decreases m.len(),
{
    reveal(lookup);
    if m.last().0 == key {
        assert(m[m.len() - 1] == (key, lookup(m, key)->Some_0));
    } else {
        let head = m.drop_last();
        lemma_lookup_found(head, key);
        let k = choose|k: int|
            0 <= k < head.len() && #[trigger] head[k] == (key, lookup(head, key)->Some_0);
        assert(m[k] == head[k]);
    }
}

/// Whether two strings hold the same characters.
///
/// Calls `str::eq` of the standard library; the contract claims that it
/// compares the two strings character by character.
#[verifier::external_body]
pub(crate) fn str_eq(a: &str, b: &str) -> (r: bool)
    ensures
        r == (a@ == b@),
{
    a == b
}

/// The last member of an object named `key`, if there is one.
pub fn find<'a>(members: &'a Vec<(String, Json)>, key: &str) -> (r: Option<&'a Json>)
    ensures
        match r {
            Some(x) => lookup(members_view(members@), key@) == Some(x@),
            None => lookup(members_view(members@), key@) is None,
        },
{
    broadcast use {lemma_lookup_push, lemma_lookup_empty};

    let ghost m = members_view(members@);
    let mut i: usize = members.len();
    proof {
        assert(m.subrange(0, i as int) =~= m);
    }
    while i > 0
        invariant
            i <= members.len(),
            m == members_view(members@),
            lookup(m, key@) == lookup(m.subrange(0, i as int), key@),
        decreases i,
    {
        i -= 1;
        proof {
            assert(m.subrange(0, i + 1) =~= m.subrange(0, i as int).push(m[i as int]));
            lemma_lookup_push(m.subrange(0, i as int), m[i as int], key@);
        }
        if str_eq(members[i].0.as_str(), key) {
            return Some(&members[i].1);
        }
    }
    proof {
        assert(m.subrange(0, 0) =~= Seq::empty());
    }
    None
}

/// A result with its value replaced by the value's model.
pub open spec fn outcome<T: DeepView>(r: Result<T, DecodeError>) -> Result<T::V, DecodeError> {
    match r {
        Ok(x) => Ok(x.deep_view()),
        Err(e) => Err(e),
    }
}

/// A type with a place in the wire schema.
pub trait Wire: DeepView + Sized {
    /// The value that a tree is read as, or the reason why it is read as none.
    spec fn spec_decode(v: JsonView) -> Result<Self::V, DecodeError>;

    /// The value of a field of this type whose object has no member of its
    /// name.
    spec fn spec_absent() -> Result<Self::V, DecodeError>;

    /// The tree that a value is written as.
    spec fn spec_encode(x: Self::V) -> JsonView;

    /// Reads a tree.
    fn decode(v: &Json) -> (r: Result<Self, DecodeError>)
        ensures
            outcome(r) == Self::spec_decode(v@),
    ;

    /// The value of a field that is not there.
    fn absent() -> (r: Result<Self, DecodeError>)
        ensures
            outcome(r) == Self::spec_absent(),
    ;

    /// Writes a value as a tree.
    fn encode(&self) -> (r: Json)
        ensures
            r@ == Self::spec_encode(self.deep_view()),
    ;

    /// A value that was read from a tree is read again from the tree that it
    /// is written as; that tree is `null` only where the first one was.
    proof fn lemma_round_trip(v: JsonView)
        requires
            Self::spec_decode(v) is Ok,
        ensures
            Self::spec_decode(Self::spec_encode(Self::spec_decode(v)->Ok_0)) == Self::spec_decode(
                v,
            ),
            Self::spec_encode(Self::spec_decode(v)->Ok_0) is Null <==> v is Null,
    ;

    /// Where a field that is not there has a value, that value is written as
    /// `null`, and read again from it.
    proof fn lemma_absent_round_trip()
        ensures
            Self::spec_absent() matches Ok(x) ==> Self::spec_encode(x) is Null
                && Self::spec_decode(JsonView::Null) == Self::spec_absent(),
    ;

    /// A value that was read from a tree that can be written as text, is
    /// itself written as a tree that can.
    proof fn lemma_writable(v: JsonView)
        requires
            Self::spec_decode(v) is Ok,
            writable(v),
        ensures
            writable(Self::spec_encode(Self::spec_decode(v)->Ok_0)),
    ;
}

/// The field `key` of the object `v`, read as a `T`.
pub open spec fn spec_field<T: Wire>(v: JsonView, key: Seq<char>) -> Result<T::V, DecodeError> {
    match v {
        JsonView::Object(m) => match lookup(m, key) {
            Some(x) => T::spec_decode(x),
            None => T::spec_absent(),
        },
        _ => Err(DecodeError::TypeMismatch),
    }
}

/// The field `key` of the object `v`, read as a `T`, or `fallback` where the
/// object has no member of that name.
pub open spec fn spec_field_or<T: Wire>(v: JsonView, key: Seq<char>, fallback: T::V) -> Result<
    T::V,
    DecodeError,
> {
    match v {
        JsonView::Object(m) => match lookup(m, key) {
            Some(x) => T::spec_decode(x),
            None => Ok(fallback),
        },
        _ => Err(DecodeError::TypeMismatch),
    }
}

/// Reads the field `key` of the object `v`.
pub fn field<T: Wire>(v: &Json, key: &str) -> (r: Result<T, DecodeError>)
    ensures
        outcome(r) == spec_field::<T>(v@, key@),
{
    match v {
        Json::Object(members) => {
            match find(members, key) {
                Some(x) => T::decode(x),
                None => T::absent(),
            }
        },
        _ => Err(DecodeError::TypeMismatch),
    }
}

/// Reads the field `key` of the object `v`, taking `fallback` where the
/// object has no member of that name.
pub fn field_or<T: Wire>(v: &Json, key: &str, fallback: T) -> (r: Result<T, DecodeError>)
    ensures
        outcome(r) == spec_field_or::<T>(v@, key@, fallback.deep_view()),
{
    match v {
        Json::Object(members) => {
            match find(members, key) {
                Some(x) => T::decode(x),
                None => Ok(fallback),
            }
        },
        _ => Err(DecodeError::TypeMismatch),
    }
}

/// Writes one more member to an object under construction.
pub fn put(members: &mut Vec<(String, Json)>, key: &str, value: Json)
    ensures
        members_view(final(members)@) == members_view(old(members)@).push((key@, value@)),
{
    members.push((key.to_owned(), value));
    assert(members_view(members@) =~= members_view(old(members)@).push((key@, value@)));
}

/// A field that was read from an object is read again from what it is
/// written as.
pub proof fn lemma_field_round_trip<T: Wire>(v: JsonView, key: Seq<char>)
    requires
        spec_field::<T>(v, key) is Ok,
    ensures
        T::spec_decode(T::spec_encode(spec_field::<T>(v, key)->Ok_0)) == spec_field::<T>(v, key),
{
    match lookup(v->Object_0, key) {
        Some(x) => {
            T::lemma_round_trip(x);
        },
        None => {
            T::lemma_absent_round_trip();
        },
    }
}

/// A field that was read from an object, or taken as `fallback` where the
/// object did not hold it, is read again from what it is written as, if
/// `fallback` is.
pub proof fn lemma_field_or_round_trip<T: Wire>(v: JsonView, key: Seq<char>, fallback: T::V)
    requires
        spec_field_or::<T>(v, key, fallback) is Ok,
        T::spec_decode(T::spec_encode(fallback)) == Ok::<T::V, DecodeError>(fallback),
    ensures
        T::spec_decode(T::spec_encode(spec_field_or::<T>(v, key, fallback)->Ok_0))
            == spec_field_or::<T>(v, key, fallback),
{
    match lookup(v->Object_0, key) {
        Some(x) => {
            T::lemma_round_trip(x);
        },
        None => {},
    }
}

/// A field that was read from an object that can be written as text, is
/// itself written as a tree that can.
pub proof fn lemma_field_writable<T: Wire>(v: JsonView, key: Seq<char>)
    requires
        spec_field::<T>(v, key) is Ok,
        writable(v),
    ensures
        writable(T::spec_encode(spec_field::<T>(v, key)->Ok_0)),
{
    let m = v->Object_0;
    match lookup(m, key) {
        Some(x) => {
            lemma_lookup_found(m, key);
            lemma_canonical_members_ok(m);
            let k = choose|k: int| 0 <= k < m.len() && #[trigger] m[k] == (key, x);
            assert(writable(m[k].1));
            T::lemma_writable(x);
        },
        None => {
            T::lemma_absent_round_trip();
        },
    }
}

/// A field that was read from an object that can be written as text, or
/// taken as `fallback` where the object did not hold it, is itself written
/// as a tree that can, if `fallback` is.
pub proof fn lemma_field_or_writable<T: Wire>(v: JsonView, key: Seq<char>, fallback: T::V)
    requires
        spec_field_or::<T>(v, key, fallback) is Ok,
        writable(v),
        writable(T::spec_encode(fallback)),
    ensures
        writable(T::spec_encode(spec_field_or::<T>(v, key, fallback)->Ok_0)),
{
    let m = v->Object_0;
    match lookup(m, key) {
        Some(x) => {
            lemma_lookup_found(m, key);
            lemma_canonical_members_ok(m);
            let k = choose|k: int| 0 <= k < m.len() && #[trigger] m[k] == (key, x);
            assert(writable(m[k].1));
            T::lemma_writable(x);
        },
        None => {},
    }
}

} // verus!
