//! JSON text: reading a body into a tree and writing a tree as a body.
//!
//! The text is read and written by `serde_json`. Its values are opaque here;
//! what they hold is named by [`value_model`], and the functions of this
//! module walk them through a handful of accessors and constructors whose
//! contracts are taken on trust from that crate's source.

use vstd::prelude::*;
use crate::json::{items_view, members_view, Json, JsonView, Number, NumberView};
use crate::wire::{distinct_keys, lemma_lookup_some, lookup, outcome, str_eq};
use crate::wire::{DecodeError, Members, Wire};

verus! {

/// `serde_json::Value`, a JSON value of that crate. Nothing of its inside is
/// known here but what the items below claim.
#[verifier::external_type_specification]
#[verifier::external_body]
pub struct ExValue(serde_json::Value);

/// `serde_json::Map`, the map that a JSON object of that crate holds. It
/// keeps its entries in the order of insertion.
#[verifier::external_type_specification]
#[verifier::external_body]
#[verifier::reject_recursive_types(K)]
#[verifier::reject_recursive_types(V)]
pub struct ExMap<K, V>(serde_json::Map<K, V>);

/// What a `serde_json::Value` holds: its variant and contents, an integer as
/// its value, any other number as the text it is written as, the members of
/// an object in the order of the map.
pub uninterp spec fn value_model(v: serde_json::Value) -> JsonView;

/// What a `serde_json::Map` holds: its entries in the order in which the map
/// hands them out.
pub uninterp spec fn map_model(m: serde_json::Map<String, serde_json::Value>) -> Members;

/// What `serde_json::from_str` reads a text as: the contents of the value it
/// returns, or nothing where it returns an error.
pub uninterp spec fn parsed(text: Seq<char>) -> Option<JsonView>;

/// The compact text that `serde_json` writes for a value of the given
/// contents.
pub uninterp spec fn rendered(tree: JsonView) -> Seq<char>;

/// What the values of a list hold.
pub open spec fn values_model(values: Seq<serde_json::Value>) -> Seq<JsonView> {
    Seq::new(values.len(), |i: int| value_model(values[i]))
}

/// What a list of named values holds.
pub open spec fn entries_model(entries: Seq<(String, serde_json::Value)>) -> Members {
    Seq::new(entries.len(), |i: int| (entries[i].0@, value_model(entries[i].1)))
}

/// One level of a `serde_json::Value`.
enum Shape<'a> {
    Null,
    Bool(bool),
    Number,
    Str(&'a String),
    Array(&'a Vec<serde_json::Value>),
    Object(&'a serde_json::Map<String, serde_json::Value>),
}

/// Matches on the variants of `serde_json::Value` and hands out what each
/// holds. The contract claims that the contents named by [`value_model`] are
/// of that variant and hold that, and that a map holds no name twice.
#[verifier::external_body]
fn shape_of<'a>(v: &'a serde_json::Value) -> (s: Shape<'a>)
    ensures
        match s {
            Shape::Null => value_model(*v) is Null,
            Shape::Bool(b) => value_model(*v) == JsonView::Bool(b),
            Shape::Number => value_model(*v) is Number,
            Shape::Str(x) => value_model(*v) == JsonView::Str(x@),
            Shape::Array(a) => value_model(*v) == JsonView::Array(values_model(a@)),
            Shape::Object(m) => value_model(*v) == JsonView::Object(map_model(*m)) && distinct_keys(
                map_model(*m),
            ),
        },
{
    match v {
        serde_json::Value::Null => Shape::Null,
        serde_json::Value::Bool(b) => Shape::Bool(*b),
        serde_json::Value::Number(_) => Shape::Number,
        serde_json::Value::String(x) => Shape::Str(x),
        serde_json::Value::Array(a) => Shape::Array(a),
        serde_json::Value::Object(m) => Shape::Object(m),
    }
}

/// `serde_json::Value::as_i64` returns the number that a value holds where
/// it is an integer of the signed 64-bit range, and nothing for any other
/// value.
pub assume_specification[ serde_json::Value::as_i64 ](v: &serde_json::Value) -> (r: Option<i64>)
    ensures
        match r {
            Some(i) => value_model(*v) == JsonView::Number(NumberView::Integer(i as int)),
            None => !(value_model(*v) matches JsonView::Number(NumberView::Integer(n)) && n
                <= i64::MAX),
        },
;

/// `serde_json::Value::as_u64` returns the number that a value holds where
/// it is an integer that is not negative, and nothing for any other value.
pub assume_specification[ serde_json::Value::as_u64 ](v: &serde_json::Value) -> (r: Option<u64>)
    ensures
        match r {
            Some(u) => value_model(*v) == JsonView::Number(NumberView::Integer(u as int)),
            None => !(value_model(*v) matches JsonView::Number(NumberView::Integer(n)) && n >= 0),
        },
;

/// Calls `serde_json::Map::iter` and collects what it hands out. The
/// contract claims that these are the entries named by [`map_model`], in its
/// order.
#[verifier::external_body]
fn entries_of<'a>(m: &'a serde_json::Map<String, serde_json::Value>) -> (r: Vec<
    (&'a String, &'a serde_json::Value),
>)
    ensures
        r@.len() == map_model(*m).len(),
        forall|i: int|
            0 <= i < r@.len() ==> (#[trigger] r@[i]).0@ == map_model(*m)[i].0 && value_model(
                *r@[i].1,
            ) == map_model(*m)[i].1,
{
    m.iter().collect()
}

/// The variant `serde_json::Value::Null`, which holds nothing.
#[verifier::external_body]
fn value_null() -> (r: serde_json::Value)
    ensures
        value_model(r) == JsonView::Null,
{
    serde_json::Value::Null
}

/// Calls `serde_json::Value::from` on a `bool`, which makes the JSON boolean
/// of that value.
#[verifier::external_body]
fn value_bool(b: bool) -> (r: serde_json::Value)
    ensures
        value_model(r) == JsonView::Bool(b),
{
    serde_json::Value::from(b)
}

/// Calls `serde_json::Value::from` on an `i64`, which makes the JSON number
/// of that value.
#[verifier::external_body]
fn value_int(i: i64) -> (r: serde_json::Value)
    ensures
        value_model(r) == JsonView::Number(NumberView::Integer(i as int)),
{
    serde_json::Value::from(i)
}

/// Calls `serde_json::Value::from` on a `u64`, which makes the JSON number
/// of that value.
#[verifier::external_body]
fn value_uint(u: u64) -> (r: serde_json::Value)
    ensures
        value_model(r) == JsonView::Number(NumberView::Integer(u as int)),
{
    serde_json::Value::from(u)
}

/// Calls `serde_json::Value::from` on a `String`, which makes the JSON
/// string of those characters.
#[verifier::external_body]
fn value_str(s: String) -> (r: serde_json::Value)
    ensures
        value_model(r) == JsonView::Str(s@),
{
    serde_json::Value::from(s)
}

/// Calls `serde_json::Value::from` on a list of values, which makes the JSON
/// array of them, in order.
#[verifier::external_body]
fn value_array(items: Vec<serde_json::Value>) -> (r: serde_json::Value)
    ensures
        value_model(r) == JsonView::Array(values_model(items@)),
{
    serde_json::Value::from(items)
}

/// Calls `serde_json::Map::from_iter`, which inserts the entries one after
/// the other into a map that keeps the order of insertion. Where no two of
/// them share a name, each is appended: the contract claims that the object
/// then holds the entries in the order given.
#[verifier::external_body]
fn value_object(entries: Vec<(String, serde_json::Value)>) -> (r: serde_json::Value)
    requires
        forall|i: int, j: int|
            0 <= i < j < entries@.len() ==> (#[trigger] entries@[i]).0@ != (
            #[trigger] entries@[j]).0@,
    ensures
        value_model(r) == JsonView::Object(entries_model(entries@)),
{
    serde_json::Value::Object(serde_json::Map::from_iter(entries))
}

/// Calls `serde_json::from_str` at the type `Value`. What it returns for a
/// text is named by [`parsed`]; nothing more is claimed of it.
#[verifier::external_body]
fn parse_value(text: &str) -> (r: Option<serde_json::Value>)
    ensures
        match r {
            Some(v) => parsed(text@) == Some(value_model(v)),
            None => parsed(text@) is None,
        },
{
    serde_json::from_str::<serde_json::Value>(text).ok()
}

/// Calls `to_string` on a `serde_json::Value`, that is its `Display`, which
/// writes the value as compact JSON and does not fail when it writes to a
/// `String`. What is written is named by [`rendered`]; of a number that is no
/// integer the contract claims that it is written as the text that
/// [`value_model`] holds for it, which is how that text is defined, and that
/// this text is JSON for a number.
#[verifier::external_body]
fn render_value(v: &serde_json::Value) -> (r: String)
    ensures
        r@ == rendered(value_model(*v)),
        value_model(*v) matches JsonView::Number(NumberView::Float(t)) ==> r@ == t && (parsed(
            r@,
        ) matches Some(JsonView::Number(_))),
{
    v.to_string()
}

/// Why a tree could not be written as text.
#[derive(Clone, Copy, PartialEq, Eq, Debug, Structural)]
pub enum EncodeError {
    /// A number's text is not the text of a JSON number.
    BadNumber,
    /// Two members of one object have the same name.
    DuplicateName,
}

impl EncodeError {
    /// What went wrong, in words.
    pub open spec fn spec_message(self) -> Seq<char> {
        match self {
            EncodeError::BadNumber => "the text of a number is not a JSON number"@,
            EncodeError::DuplicateName => "an object or a map holds a name twice"@,
        }
    }

    /// What went wrong, in words.
    pub fn message(&self) -> (r: &'static str)
        ensures
            r@ == self.spec_message(),
    {
        match self {
            EncodeError::BadNumber => "the text of a number is not a JSON number",
            EncodeError::DuplicateName => "an object or a map holds a name twice",
        }
    }
}

/// The tree as it is written: each number given as text is replaced by what
/// that text is read as. A tree is not written where such a text is not read
/// as a number, or where an object names a member twice.
pub open spec fn canonical(j: JsonView) -> Result<JsonView, EncodeError>
    decreases j,
{
    match j {
        JsonView::Number(NumberView::Float(t)) => match parsed(t) {
            Some(JsonView::Number(n)) => Ok(JsonView::Number(n)),
            _ => Err(EncodeError::BadNumber),
        },
        JsonView::Array(items) => match canonical_items(items) {
            Ok(xs) => Ok(JsonView::Array(xs)),
            Err(e) => Err(e),
        },
        JsonView::Object(m) => match canonical_members(m) {
            Ok(xs) => Ok(JsonView::Object(xs)),
            Err(e) => Err(e),
        },
        _ => Ok(j),
    }
}

/// The items of an array as they are written, or the error of the first
/// that is not.
pub open spec fn canonical_items(items: Seq<JsonView>) -> Result<Seq<JsonView>, EncodeError>
    decreases items,
{
    if items.len() == 0 {
        Ok(Seq::empty())
    } else {
        match canonical_items(items.drop_last()) {
            Err(e) => Err(e),
            Ok(xs) => match canonical(items.last()) {
                Err(e) => Err(e),
                Ok(x) => Ok(xs.push(x)),
            },
        }
    }
}

/// The members of an object as they are written, or the error of the first
/// that is not: its name stands before it already, or its value is not
/// written.
pub open spec fn canonical_members(m: Members) -> Result<Members, EncodeError>
    decreases m,
{
    if m.len() == 0 {
        Ok(Seq::empty())
    } else {
        match canonical_members(m.drop_last()) {
            Err(e) => Err(e),
            Ok(xs) => if lookup(m.drop_last(), m.last().0) is Some {
                Err(EncodeError::DuplicateName)
            } else {
                match canonical(m.last().1) {
                    Err(e) => Err(e),
                    Ok(x) => Ok(xs.push((m.last().0, x))),
                }
            },
        }
    }
}

/// The items of an array are written exactly where each of them is.
pub proof fn lemma_canonical_items_ok(items: Seq<JsonView>)
    ensures
        canonical_items(items) is Ok <==> forall|i: int|
            0 <= i < items.len() ==> canonical(#[trigger] items[i]) is Ok,
    decreases items.len(),
{
    if items.len() > 0 {
        let head = items.drop_last();
        lemma_canonical_items_ok(head);
        if canonical_items(items) is Ok {
            assert forall|i: int| 0 <= i < items.len() implies canonical(
                #[trigger] items[i],
            ) is Ok by {
                if i < head.len() {
                    assert(head[i] == items[i]);
                }
            }
        }
        if forall|i: int| 0 <= i < items.len() ==> canonical(#[trigger] items[i]) is Ok {
            assert forall|i: int| 0 <= i < head.len() implies canonical(#[trigger] head[i]) is Ok by {
                assert(head[i] == items[i]);
            }
            assert(canonical(items[items.len() - 1]) is Ok);
        }
    }
}

/// The members of an object are written exactly where no two of them share
/// a name and the value of each is written.
pub proof fn lemma_canonical_members_ok(m: Members)
    ensures
        canonical_members(m) is Ok <==> distinct_keys(m) && forall|i: int|
            0 <= i < m.len() ==> canonical((#[trigger] m[i]).1) is Ok,
    decreases m.len(),
{
    if m.len() > 0 {
        let head = m.drop_last();
        let last = m.last();
        lemma_canonical_members_ok(head);
        lemma_lookup_some(head, last.0);
        let each = forall|i: int| 0 <= i < m.len() ==> canonical((#[trigger] m[i]).1) is Ok;
        if canonical_members(m) is Ok {
            assert forall|i: int| 0 <= i < m.len() implies canonical((#[trigger] m[i]).1) is Ok by {
                if i < head.len() {
                    assert(head[i] == m[i]);
                }
            }
            assert forall|i: int, j: int| 0 <= i < j < m.len() implies (#[trigger] m[i]).0 != (
            #[trigger] m[j]).0 by {
                if j < head.len() {
                    assert(head[i].0 != head[j].0);
                } else {
                    assert(head[i].0 == m[i].0);
                }
            }
        }
        if distinct_keys(m) && each {
            assert forall|i: int| 0 <= i < head.len() implies canonical(
                (#[trigger] head[i]).1,
            ) is Ok by {
                assert(head[i] == m[i]);
            }
            assert forall|i: int, j: int| 0 <= i < j < head.len() implies (#[trigger] head[i]).0
                != (#[trigger] head[j]).0 by {
                assert(m[i].0 != m[j].0);
            }
            if lookup(head, last.0) is Some {
                let k = choose|k: int| 0 <= k < head.len() && (#[trigger] head[k]).0 == last.0;
                assert(m[k].0 == m[m.len() - 1].0);
            }
            assert(canonical(m[m.len() - 1].1) is Ok);
        }
    }
}

/// Whether a tree can be written as text.
pub open spec fn writable(j: JsonView) -> bool {
    canonical(j) is Ok
}

/// Whether the members of an object can be written as text.
#[verifier::opaque]
pub open spec fn members_writable(m: Members) -> bool {
    canonical_members(m) is Ok
}

/// An object can be written where its members can.
pub proof fn lemma_writable_object(m: Members)
    ensures
        writable(JsonView::Object(m)) <==> members_writable(m),
{
    reveal(members_writable);
}

/// No members can always be written.
pub broadcast proof fn lemma_writable_empty()
    ensures
        #[trigger] members_writable(Seq::empty()),
{
    reveal(members_writable);
}

/// One more member can be written after those before it where its name is
/// not among theirs and its value can be written.
pub broadcast proof fn lemma_writable_push(m: Members, e: (Seq<char>, JsonView))
    ensures
        #[trigger] members_writable(m.push(e)) <==> members_writable(m) && lookup(m, e.0) is None
            && writable(e.1),
{
    reveal(members_writable);
    assert(m.push(e).drop_last() =~= m);
}

/// Members whose values are written as they are, are themselves written as
/// they are where no two of them share a name, and otherwise not written.
pub proof fn lemma_canonical_members(m: Members)
    requires
        forall|i: int|
            0 <= i < m.len() ==> canonical((#[trigger] m[i]).1) == Ok::<JsonView, EncodeError>(
                m[i].1,
            ),
    ensures
        canonical_members(m) == if distinct_keys(m) {
            Ok::<Members, EncodeError>(m)
        } else {
            Err::<Members, EncodeError>(EncodeError::DuplicateName)
        },
    decreases m.len(),
{
    if m.len() > 0 {
        let head = m.drop_last();
        let last = m.last();
        assert forall|i: int| 0 <= i < head.len() implies canonical((#[trigger] head[i]).1) == Ok::<
            JsonView,
            EncodeError,
        >(head[i].1) by {
            assert(head[i] == m[i]);
        }
        lemma_canonical_members(head);
        lemma_lookup_some(head, last.0);
        if distinct_keys(head) {
            if lookup(head, last.0) is Some {
                let k = choose|k: int| 0 <= k < head.len() && (#[trigger] head[k]).0 == last.0;
                assert(m[k].0 == m[m.len() - 1].0);
            } else {
                assert forall|i: int, j: int| 0 <= i < j < m.len() implies (#[trigger] m[i]).0 != (
                #[trigger] m[j]).0 by {
                    if j < head.len() {
                        assert(head[i].0 != head[j].0);
                    } else {
                        assert(head[i].0 != last.0);
                    }
                }
                assert(canonical(m[m.len() - 1].1) == Ok::<JsonView, EncodeError>(last.1));
                assert(head.push((last.0, last.1)) =~= m);
            }
        } else {
            let (i, j) = choose|i: int, j: int|
                0 <= i < j < head.len() && (#[trigger] head[i]).0 == (#[trigger] head[j]).0;
            assert(m[i].0 == m[j].0);
        }
    } else {
        assert(m =~= Seq::empty());
    }
}

/// An array whose beginning is not written is not written, for the same
/// reason.
proof fn lemma_canonical_items_error(items: Seq<JsonView>, k: int)
    requires
        0 <= k <= items.len(),
        canonical_items(items.subrange(0, k)) is Err,
    ensures
        canonical_items(items) == Err::<Seq<JsonView>, EncodeError>(
            canonical_items(items.subrange(0, k))->Err_0,
        ),
    decreases items.len() - k,
{
    if k < items.len() {
        let next = items.subrange(0, k + 1);
        assert(next.drop_last() =~= items.subrange(0, k));
        lemma_canonical_items_error(items, k + 1);
    } else {
        assert(items.subrange(0, k) =~= items);
    }
}

/// An object whose beginning is not written is not written, for the same
/// reason.
proof fn lemma_canonical_members_error(m: Members, k: int)
    requires
        0 <= k <= m.len(),
        canonical_members(m.subrange(0, k)) is Err,
    ensures
        canonical_members(m) == Err::<Members, EncodeError>(
            canonical_members(m.subrange(0, k))->Err_0,
        ),
    decreases m.len() - k,
{
    if k < m.len() {
        let next = m.subrange(0, k + 1);
        assert(next.drop_last() =~= m.subrange(0, k));
        lemma_canonical_members_error(m, k + 1);
    } else {
        assert(m.subrange(0, k) =~= m);
    }
}

/// The tree that a `serde_json::Value` holds. Such a tree can be written.
fn tree_of(v: &serde_json::Value) -> (j: Json)
    ensures
        j@ == value_model(*v),
        writable(j@),
    decreases value_model(*v),
{
    match shape_of(v) {
        Shape::Null => Json::Null,
        Shape::Bool(b) => Json::Bool(b),
        Shape::Number => match v.as_i64() {
            Some(i) => Json::Number(Number::Int(i)),
            None => match v.as_u64() {
                Some(u) => Json::Number(Number::UInt(u)),
                None => Json::Number(Number::Float(render_value(v))),
            },
        },
        Shape::Str(x) => Json::Str(x.clone()),
        Shape::Array(a) => {
            let mut out: Vec<Json> = Vec::new();
            let mut i: usize = 0;
            while i < a.len()
                invariant
                    i <= a.len(),
                    out@.len() == i,
                    value_model(*v) == JsonView::Array(values_model(a@)),
                    forall|k: int| 0 <= k < i ==> out@[k]@ == value_model(a@[k]),
                    forall|k: int| 0 <= k < i ==> canonical(#[trigger] out@[k]@) is Ok,
                decreases a.len() - i,
            {
                proof {
                    let items = values_model(a@);
                    assert(items[i as int] == value_model(a@[i as int]));
                    assert(decreases_to!(value_model(*v) => value_model(*v)->Array_0));
                    assert(decreases_to!(items => items[i as int]));
                }
                out.push(tree_of(&a[i]));
                i += 1;
            }
            proof {
                assert(items_view(out@) =~= values_model(a@));
                lemma_canonical_items_ok(items_view(out@));
            }
            Json::Array(out)
        },
        Shape::Object(m) => {
            let entries = entries_of(m);
            let mut out: Vec<(String, Json)> = Vec::new();
            let mut i: usize = 0;
            while i < entries.len()
                invariant
                    i <= entries.len(),
                    out@.len() == i,
                    value_model(*v) == JsonView::Object(map_model(*m)),
                    entries@.len() == map_model(*m).len(),
                    forall|k: int|
                        0 <= k < entries@.len() ==> (#[trigger] entries@[k]).0@ == map_model(
                            *m,
                        )[k].0 && value_model(*entries@[k].1) == map_model(*m)[k].1,
                    forall|k: int|
                        0 <= k < i ==> out@[k].0@ == map_model(*m)[k].0 && out@[k].1@
                            == map_model(*m)[k].1,
                    forall|k: int| 0 <= k < i ==> canonical((#[trigger] out@[k]).1@) is Ok,
                decreases entries.len() - i,
            {
                proof {
                    let members = map_model(*m);
                    assert(entries@[i as int].0@ == members[i as int].0);
                    assert(decreases_to!(value_model(*v) => value_model(*v)->Object_0));
                    assert(decreases_to!(members => members[i as int]));
                    assert(decreases_to!(members[i as int] => members[i as int].1));
                }
                let name = entries[i].0.clone();
                let value = tree_of(entries[i].1);
                out.push((name, value));
                i += 1;
            }
            proof {
                assert(members_view(out@) =~= map_model(*m));
                assert forall|k: int| 0 <= k < out@.len() implies canonical(
                    (#[trigger] members_view(out@)[k]).1,
                ) is Ok by {
                    assert(canonical(out@[k].1@) is Ok);
                }
                lemma_canonical_members_ok(members_view(out@));
            }
            Json::Object(out)
        },
    }
}

/// Whether a member before the `i`-th has the name of the `i`-th.
fn named_before(members: &Vec<(String, Json)>, i: usize) -> (r: bool)
    requires
        i < members.len(),
    ensures
        r == (lookup(members_view(members@).subrange(0, i as int), members@[i as int].0@) is Some),
{
    let ghost head = members_view(members@).subrange(0, i as int);
    let ghost name = members@[i as int].0@;
    let mut k: usize = 0;
    while k < i
        invariant
            k <= i,
            i < members.len(),
            head == members_view(members@).subrange(0, i as int),
            name == members@[i as int].0@,
            forall|q: int| 0 <= q < k ==> (#[trigger] head[q]).0 != name,
        decreases i - k,
    {
        if str_eq(members[k].0.as_str(), members[i].0.as_str()) {
            proof {
                assert(head[k as int].0 == name);
                lemma_lookup_some(head, name);
            }
            return true;
        }
        k += 1;
    }
    proof {
        lemma_lookup_some(head, name);
    }
    false
}

/// The `serde_json::Value` that a tree is written through.
fn value_of(j: &Json) -> (r: Result<serde_json::Value, EncodeError>)
    ensures
        match canonical(j@) {
            Ok(n) => r matches Ok(v) && value_model(v) == n,
            Err(e) => r matches Err(x) && x == e,
        },
    decreases j,
{
    match j {
        Json::Null => Ok(value_null()),
        Json::Bool(b) => Ok(value_bool(*b)),
        Json::Number(Number::Int(i)) => Ok(value_int(*i)),
        Json::Number(Number::UInt(u)) => Ok(value_uint(*u)),
        Json::Number(Number::Float(t)) => match parse_value(t.as_str()) {
            Some(v) => {
                let is_number = match shape_of(&v) {
                    Shape::Number => true,
                    _ => false,
                };
                if is_number {
                    Ok(v)
                } else {
                    Err(EncodeError::BadNumber)
                }
            },
            None => Err(EncodeError::BadNumber),
        },
        Json::Str(s) => Ok(value_str(s.clone())),
        Json::Array(items) => {
            let ghost trees = items_view(items@);
            let mut out: Vec<serde_json::Value> = Vec::new();
            let mut i: usize = 0;
            proof {
                assert(trees.subrange(0, 0) =~= Seq::empty());
                assert(values_model(out@) =~= Seq::empty());
            }
            while i < items.len()
                invariant
                    i <= items.len(),
                    trees == items_view(items@),
                    j@ == JsonView::Array(trees),
                    *j == Json::Array(*items),
                    canonical_items(trees.subrange(0, i as int)) == Ok::<
                        Seq<JsonView>,
                        EncodeError,
                    >(values_model(out@)),
                decreases items.len() - i,
            {
                let ghost before = values_model(out@);
                proof {
                    let next = trees.subrange(0, i + 1);
                    assert(next.drop_last() =~= trees.subrange(0, i as int));
                    assert(next.last() == items@[i as int]@);
                    assert(decreases_to!(j => items@[i as int]));
                }
                match value_of(&items[i]) {
                    Ok(x) => {
                        let ghost model = value_model(x);
                        out.push(x);
                        proof {
                            assert(values_model(out@) =~= before.push(model));
                        }
                    },
                    Err(e) => {
                        proof {
                            let next = trees.subrange(0, i + 1);
                            assert(canonical_items(next) == Err::<Seq<JsonView>, EncodeError>(e));
                            lemma_canonical_items_error(trees, i + 1);
                        }
                        return Err(e);
                    },
                }
                i += 1;
            }
            proof {
                assert(trees.subrange(0, i as int) =~= trees);
            }
            Ok(value_array(out))
        },
        Json::Object(members) => {
            let ghost trees = members_view(members@);
            let mut out: Vec<(String, serde_json::Value)> = Vec::new();
            let mut i: usize = 0;
            proof {
                assert(trees.subrange(0, 0) =~= Seq::empty());
                assert(entries_model(out@) =~= Seq::empty());
            }
            while i < members.len()
                invariant
                    i <= members.len(),
                    out@.len() == i,
                    trees == members_view(members@),
                    j@ == JsonView::Object(trees),
                    *j == Json::Object(*members),
                    canonical_members(trees.subrange(0, i as int)) == Ok::<Members, EncodeError>(
                        entries_model(out@),
                    ),
                    forall|k: int| 0 <= k < i ==> (#[trigger] out@[k]).0@ == trees[k].0,
                    forall|a: int, b: int|
                        0 <= a < b < i ==> (#[trigger] out@[a]).0@ != (#[trigger] out@[b]).0@,
                decreases members.len() - i,
            {
                let ghost before = entries_model(out@);
                let ghost head = trees.subrange(0, i as int);
                proof {
                                    let next = trees.subrange(0, i + 1);
                    assert(next.drop_last() =~= head);
                    assert(next.last() == (members@[i as int].0@, members@[i as int].1@));
                    assert(decreases_to!(j => members@[i as int].1));
                    lemma_lookup_some(head, members@[i as int].0@);
                }
                if named_before(members, i) {
                    proof {
                        let next = trees.subrange(0, i + 1);
                        assert(canonical_members(next) == Err::<Members, EncodeError>(
                            EncodeError::DuplicateName,
                        ));
                        lemma_canonical_members_error(trees, i + 1);
                    }
                    return Err(EncodeError::DuplicateName);
                }
                match value_of(&members[i].1) {
                    Ok(x) => {
                        let ghost model = value_model(x);
                        let name = members[i].0.clone();
                        out.push((name, x));
                        proof {
                            assert(entries_model(out@) =~= before.push(
                                (members@[i as int].0@, model),
                            ));
                            assert forall|a: int, b: int| 0 <= a < b < i + 1 implies (
                            #[trigger] out@[a]).0@ != (#[trigger] out@[b]).0@ by {
                                if b == i {
                                    assert(head[a].0 == out@[a].0@);
                                }
                            }
                        }
                    },
                    Err(e) => {
                        proof {
                            let next = trees.subrange(0, i + 1);
                            assert(canonical_members(next) == Err::<Members, EncodeError>(e));
                            lemma_canonical_members_error(trees, i + 1);
                        }
                        return Err(e);
                    },
                }
                i += 1;
            }
            proof {
                assert(trees.subrange(0, i as int) =~= trees);
            }
            Ok(value_object(out))
        },
    }
}

/// Reads a text as a JSON tree. What was read can be written.
pub fn parse(text: &str) -> (r: Result<Json, DecodeError>)
    ensures
        match parsed(text@) {
            Some(tree) => r matches Ok(j) && j@ == tree && writable(tree),
            None => r matches Err(e) && e == DecodeError::Syntax,
        },
{
    match parse_value(text) {
        Some(v) => Ok(tree_of(&v)),
        None => Err(DecodeError::Syntax),
    }
}

/// Writes a tree as compact JSON text.
pub fn render(j: &Json) -> (r: Result<String, EncodeError>)
    ensures
        match canonical(j@) {
            Ok(tree) => r matches Ok(s) && s@ == rendered(tree),
            Err(e) => r matches Err(x) && x == e,
        },
{
    match value_of(j) {
        Ok(v) => Ok(render_value(&v)),
        Err(e) => Err(e),
    }
}

/// The value that a text is read as: the text is read as a tree, and the
/// tree as a `T`.
pub open spec fn spec_decode_text<T: Wire>(text: Seq<char>) -> Result<T::V, DecodeError> {
    match parsed(text) {
        Some(tree) => T::spec_decode(tree),
        None => Err(DecodeError::Syntax),
    }
}

/// Reads a text as a `T`. What was read can be written.
pub fn decode_text<T: Wire>(text: &str) -> (r: Result<T, DecodeError>)
    ensures
        outcome(r) == spec_decode_text::<T>(text@),
        r matches Ok(x) ==> writable(T::spec_encode(x.deep_view())),
{
    match parse(text) {
        Ok(tree) => {
            let r = T::decode(&tree);
            proof {
                if r is Ok {
                    T::lemma_writable(tree@);
                }
            }
            r
        },
        Err(e) => Err(e),
    }
}

/// Writes a value as compact JSON text.
pub fn encode_text<T: Wire>(x: &T) -> (r: Result<String, EncodeError>)
    ensures
        match canonical(T::spec_encode(x.deep_view())) {
            Ok(tree) => r matches Ok(s) && s@ == rendered(tree),
            Err(e) => r matches Err(y) && y == e,
        },
{
    let tree = x.encode();
    render(&tree)
}

} // verus!
