//! The wire forms of optional values, lists and string-keyed maps.

use vstd::prelude::*;
use crate::json::{items_view, members_view, Json, JsonView};
use crate::text::{canonical, lemma_canonical_items_ok, lemma_canonical_members_ok, writable};
use crate::wire::{DecodeError, Members, Wire};

verus! {

/// The values that the items of an array are read as, in order; the error of
/// the first item that is read as none.
pub open spec fn spec_decode_items<T: Wire>(items: Seq<JsonView>) -> Result<Seq<T::V>, DecodeError>
    decreases items.len(),
{
    if items.len() == 0 {
        Ok(Seq::empty())
    } else {
        match spec_decode_items::<T>(items.drop_last()) {
            Err(e) => Err(e),
            Ok(xs) => match T::spec_decode(items.last()) {
                Err(e) => Err(e),
                Ok(x) => Ok(xs.push(x)),
            },
        }
    }
}

/// The trees that the values of a list are written as, in order.
pub open spec fn spec_encode_items<T: Wire>(xs: Seq<T::V>) -> Seq<JsonView> {
    Seq::new(xs.len(), |i: int| T::spec_encode(xs[i]))
}

/// The entries that the members of an object are read as, in order, each
/// under its member's name; the error of the first member whose value is
/// read as none.
pub open spec fn spec_decode_members<T: Wire>(m: Members) -> Result<
    Seq<(Seq<char>, T::V)>,
    DecodeError,
>
    decreases m.len(),
{
    if m.len() == 0 {
        Ok(Seq::empty())
    } else {
        match spec_decode_members::<T>(m.drop_last()) {
            Err(e) => Err(e),
            Ok(xs) => match T::spec_decode(m.last().1) {
                Err(e) => Err(e),
                Ok(x) => Ok(xs.push((m.last().0, x))),
            },
        }
    }
}

/// The members that the entries of a map are written as, in order.
pub open spec fn spec_encode_members<T: Wire>(xs: Seq<(Seq<char>, T::V)>) -> Members {
    Seq::new(xs.len(), |i: int| (xs[i].0, T::spec_encode(xs[i].1)))
}

/// An array whose beginning is not read is not read, for the same reason.
pub proof fn lemma_items_error<T: Wire>(items: Seq<JsonView>, k: int)
    requires
        0 <= k <= items.len(),
        spec_decode_items::<T>(items.subrange(0, k)) is Err,
    ensures
        spec_decode_items::<T>(items) == Err::<Seq<T::V>, DecodeError>(
            spec_decode_items::<T>(items.subrange(0, k))->Err_0,
        ),
    decreases items.len() - k,
{
    if k < items.len() {
        let next = items.subrange(0, k + 1);
        assert(next.drop_last() =~= items.subrange(0, k));
        lemma_items_error::<T>(items, k + 1);
    } else {
        assert(items.subrange(0, k) =~= items);
    }
}

/// An array is read item by item.
pub proof fn lemma_items_pointwise<T: Wire>(items: Seq<JsonView>, xs: Seq<T::V>)
    ensures
        spec_decode_items::<T>(items) == Ok::<Seq<T::V>, DecodeError>(xs) <==> (xs.len()
            == items.len() && forall|i: int|
            0 <= i < items.len() ==> #[trigger] T::spec_decode(items[i]) == Ok::<T::V, DecodeError>(
                xs[i],
            )),
    decreases items.len(),
{
    if items.len() == 0 {
        if xs.len() == 0 {
            assert(xs =~= Seq::empty());
        }
    } else {
        let head = items.drop_last();
        match spec_decode_items::<T>(head) {
            Err(e) => {
                if xs.len() == items.len() && forall|i: int|
                    0 <= i < items.len() ==> #[trigger] T::spec_decode(items[i]) == Ok::<
                        T::V,
                        DecodeError,
                    >(xs[i]) {
                    lemma_items_pointwise::<T>(head, xs.drop_last());
                    assert forall|i: int| 0 <= i < head.len() implies #[trigger] T::spec_decode(
                        head[i],
                    ) == Ok::<T::V, DecodeError>(xs.drop_last()[i]) by {
                        assert(head[i] == items[i]);
                    }
                }
            },
            Ok(ys) => {
                lemma_items_pointwise::<T>(head, ys);
                if spec_decode_items::<T>(items) == Ok::<Seq<T::V>, DecodeError>(xs) {
                    assert forall|i: int| 0 <= i < items.len() implies #[trigger] T::spec_decode(
                        items[i],
                    ) == Ok::<T::V, DecodeError>(xs[i]) by {
                        if i < head.len() {
                            assert(head[i] == items[i]);
                        }
                    }
                }
                if xs.len() == items.len() && forall|i: int|
                    0 <= i < items.len() ==> #[trigger] T::spec_decode(items[i]) == Ok::<
                        T::V,
                        DecodeError,
                    >(xs[i]) {
                    lemma_items_pointwise::<T>(head, xs.drop_last());
                    assert forall|i: int| 0 <= i < head.len() implies #[trigger] T::spec_decode(
                        head[i],
                    ) == Ok::<T::V, DecodeError>(xs.drop_last()[i]) by {
                        assert(head[i] == items[i]);
                    }
                    assert(ys == xs.drop_last());
                    assert(T::spec_decode(items.last()) == Ok::<T::V, DecodeError>(xs.last()));
                    assert(xs.drop_last().push(xs.last()) =~= xs);
                }
            },
        }
    }
}

/// An object whose beginning is not read is not read, for the same reason.
pub proof fn lemma_members_error<T: Wire>(m: Members, k: int)
    requires
        0 <= k <= m.len(),
        spec_decode_members::<T>(m.subrange(0, k)) is Err,
    ensures
        spec_decode_members::<T>(m) == Err::<Seq<(Seq<char>, T::V)>, DecodeError>(
            spec_decode_members::<T>(m.subrange(0, k))->Err_0,
        ),
    decreases m.len() - k,
{
    if k < m.len() {
        let next = m.subrange(0, k + 1);
        assert(next.drop_last() =~= m.subrange(0, k));
        lemma_members_error::<T>(m, k + 1);
    } else {
        assert(m.subrange(0, k) =~= m);
    }
}

/// An object is read member by member.
pub proof fn lemma_members_pointwise<T: Wire>(m: Members, xs: Seq<(Seq<char>, T::V)>)
    ensures
        spec_decode_members::<T>(m) == Ok::<Seq<(Seq<char>, T::V)>, DecodeError>(xs) <==> (xs.len()
            == m.len() && forall|i: int|
            0 <= i < m.len() ==> xs[i].0 == m[i].0 && #[trigger] T::spec_decode(m[i].1) == Ok::<
                T::V,
                DecodeError,
            >(xs[i].1)),
    decreases m.len(),
{
    if m.len() == 0 {
        if xs.len() == 0 {
            assert(xs =~= Seq::empty());
        }
    } else {
        let head = m.drop_last();
        let pointwise = xs.len() == m.len() && forall|i: int|
            0 <= i < m.len() ==> xs[i].0 == m[i].0 && #[trigger] T::spec_decode(m[i].1) == Ok::<
                T::V,
                DecodeError,
            >(xs[i].1);
        if pointwise {
            lemma_members_pointwise::<T>(head, xs.drop_last());
            assert forall|i: int| 0 <= i < head.len() implies xs.drop_last()[i].0 == head[i].0
                && #[trigger] T::spec_decode(head[i].1) == Ok::<T::V, DecodeError>(
                xs.drop_last()[i].1,
            ) by {
                assert(head[i] == m[i]);
            }
            assert(spec_decode_members::<T>(head) == Ok::<Seq<(Seq<char>, T::V)>, DecodeError>(
                xs.drop_last(),
            ));
            assert(T::spec_decode(m.last().1) == Ok::<T::V, DecodeError>(xs.last().1));
            assert(xs.drop_last().push((m.last().0, xs.last().1)) =~= xs);
        }
        if spec_decode_members::<T>(m) == Ok::<Seq<(Seq<char>, T::V)>, DecodeError>(xs) {
            let ys = spec_decode_members::<T>(head)->Ok_0;
            lemma_members_pointwise::<T>(head, ys);
            assert forall|i: int| 0 <= i < m.len() implies xs[i].0 == m[i].0
                && #[trigger] T::spec_decode(m[i].1) == Ok::<T::V, DecodeError>(xs[i].1) by {
                if i < head.len() {
                    assert(head[i] == m[i]);
                }
            }
        }
    }
}

impl<T: Wire> Wire for Option<T> {
    open spec fn spec_decode(v: JsonView) -> Result<Option<T::V>, DecodeError> {
        if v is Null {
            Ok(None)
        } else {
            match T::spec_decode(v) {
                Ok(x) => Ok(Some(x)),
                Err(e) => Err(e),
            }
        }
    }

    open spec fn spec_absent() -> Result<Option<T::V>, DecodeError> {
        Ok(None)
    }

    open spec fn spec_encode(x: Option<T::V>) -> JsonView {
        match x {
            Some(y) => T::spec_encode(y),
            None => JsonView::Null,
        }
    }

    fn decode(v: &Json) -> (r: Result<Option<T>, DecodeError>) {
        match v {
            Json::Null => Ok(None),
            _ => match T::decode(v) {
                Ok(x) => Ok(Some(x)),
                Err(e) => Err(e),
            },
        }
    }

    fn absent() -> (r: Result<Option<T>, DecodeError>) {
        Ok(None)
    }

    fn encode(&self) -> (r: Json) {
        match self {
            Some(y) => y.encode(),
            None => Json::Null,
        }
    }

    proof fn lemma_round_trip(v: JsonView) {
        if !(v is Null) {
            T::lemma_round_trip(v);
        }
    }

    proof fn lemma_absent_round_trip() {
    }

    proof fn lemma_writable(v: JsonView) {
        if !(v is Null) {
            T::lemma_writable(v);
        }
    }
}

impl<T: Wire> Wire for Vec<T> {
    open spec fn spec_decode(v: JsonView) -> Result<Seq<T::V>, DecodeError> {
        match v {
            JsonView::Array(items) => spec_decode_items::<T>(items),
            _ => Err(DecodeError::TypeMismatch),
        }
    }

    open spec fn spec_absent() -> Result<Seq<T::V>, DecodeError> {
        Err(DecodeError::MissingField)
    }

    open spec fn spec_encode(xs: Seq<T::V>) -> JsonView {
        JsonView::Array(spec_encode_items::<T>(xs))
    }

    fn decode(v: &Json) -> (r: Result<Vec<T>, DecodeError>) {
        match v {
            Json::Array(items) => {
                let ghost trees = items_view(items@);
                let mut out: Vec<T> = Vec::new();
                let mut i: usize = 0;
                proof {
                    assert(trees.subrange(0, 0) =~= Seq::empty());
                    assert(out.deep_view() =~= Seq::empty());
                }
                while i < items.len()
                    invariant
                        i <= items.len(),
                        trees == items_view(items@),
                        v@ == JsonView::Array(trees),
                        spec_decode_items::<T>(trees.subrange(0, i as int)) == Ok::<
                            Seq<T::V>,
                            DecodeError,
                        >(out.deep_view()),
                    decreases items.len() - i,
                {
                    let ghost before = out.deep_view();
                    proof {
                        let next = trees.subrange(0, i + 1);
                        assert(next.drop_last() =~= trees.subrange(0, i as int));
                        assert(next.last() == items@[i as int]@);
                    }
                    match T::decode(&items[i]) {
                        Ok(x) => {
                            out.push(x);
                            proof {
                                assert(out.deep_view() =~= before.push(x.deep_view()));
                            }
                        },
                        Err(e) => {
                            proof {
                                let next = trees.subrange(0, i + 1);
                                assert(spec_decode_items::<T>(next) == Err::<
                                    Seq<T::V>,
                                    DecodeError,
                                >(e));
                                lemma_items_error::<T>(trees, i + 1);
                            }
                            return Err(e);
                        },
                    }
                    i += 1;
                }
                proof {
                    assert(trees.subrange(0, i as int) =~= trees);
                }
                Ok(out)
            },
            _ => Err(DecodeError::TypeMismatch),
        }
    }

    fn absent() -> (r: Result<Vec<T>, DecodeError>) {
        Err(DecodeError::MissingField)
    }

    fn encode(&self) -> (r: Json) {
        let mut out: Vec<Json> = Vec::new();
        let mut i: usize = 0;
        while i < self.len()
            invariant
                i <= self.len(),
                out@.len() == i,
                forall|k: int| 0 <= k < i ==> out@[k]@ == T::spec_encode(self@[k].deep_view()),
            decreases self.len() - i,
        {
            out.push(self[i].encode());
            i += 1;
        }
        proof {
            assert(items_view(out@) =~= spec_encode_items::<T>(self.deep_view()));
        }
        Json::Array(out)
    }

    proof fn lemma_round_trip(v: JsonView) {
        let items = v->Array_0;
        let xs = spec_decode_items::<T>(items)->Ok_0;
        let back = spec_encode_items::<T>(xs);
        lemma_items_pointwise::<T>(items, xs);
        assert forall|i: int| 0 <= i < back.len() implies #[trigger] T::spec_decode(back[i])
            == Ok::<T::V, DecodeError>(xs[i]) by {
            assert(T::spec_decode(items[i]) == Ok::<T::V, DecodeError>(xs[i]));
            T::lemma_round_trip(items[i]);
        }
        lemma_items_pointwise::<T>(back, xs);
    }

    proof fn lemma_absent_round_trip() {
    }

    proof fn lemma_writable(v: JsonView) {
        let items = v->Array_0;
        let xs = spec_decode_items::<T>(items)->Ok_0;
        let back = spec_encode_items::<T>(xs);
        lemma_items_pointwise::<T>(items, xs);
        lemma_canonical_items_ok(items);
        assert forall|i: int| 0 <= i < back.len() implies canonical(#[trigger] back[i]) is Ok by {
            assert(T::spec_decode(items[i]) == Ok::<T::V, DecodeError>(xs[i]));
            assert(canonical(items[i]) is Ok);
            T::lemma_writable(items[i]);
        }
        lemma_canonical_items_ok(back);
    }
}

impl<T: Wire> Wire for Vec<(String, T)> {
    open spec fn spec_decode(v: JsonView) -> Result<Seq<(Seq<char>, T::V)>, DecodeError> {
        match v {
            JsonView::Object(m) => spec_decode_members::<T>(m),
            _ => Err(DecodeError::TypeMismatch),
        }
    }

    open spec fn spec_absent() -> Result<Seq<(Seq<char>, T::V)>, DecodeError> {
        Err(DecodeError::MissingField)
    }

    open spec fn spec_encode(xs: Seq<(Seq<char>, T::V)>) -> JsonView {
        JsonView::Object(spec_encode_members::<T>(xs))
    }

    fn decode(v: &Json) -> (r: Result<Vec<(String, T)>, DecodeError>) {
        match v {
            Json::Object(members) => {
                let ghost trees = members_view(members@);
                let mut out: Vec<(String, T)> = Vec::new();
                let mut i: usize = 0;
                proof {
                    assert(trees.subrange(0, 0) =~= Seq::empty());
                    assert(out.deep_view() =~= Seq::empty());
                }
                while i < members.len()
                    invariant
                        i <= members.len(),
                        trees == members_view(members@),
                        v@ == JsonView::Object(trees),
                        spec_decode_members::<T>(trees.subrange(0, i as int)) == Ok::<
                            Seq<(Seq<char>, T::V)>,
                            DecodeError,
                        >(out.deep_view()),
                    decreases members.len() - i,
                {
                    let ghost before = out.deep_view();
                    proof {
                        let next = trees.subrange(0, i + 1);
                        assert(next.drop_last() =~= trees.subrange(0, i as int));
                        assert(next.last() == (members@[i as int].0@, members@[i as int].1@));
                    }
                    match T::decode(&members[i].1) {
                        Ok(x) => {
                            let name = members[i].0.clone();
                            out.push((name, x));
                            proof {
                                assert(out.deep_view() =~= before.push(
                                    (members@[i as int].0@, x.deep_view()),
                                ));
                            }
                        },
                        Err(e) => {
                            proof {
                                let next = trees.subrange(0, i + 1);
                                assert(spec_decode_members::<T>(next) == Err::<
                                    Seq<(Seq<char>, T::V)>,
                                    DecodeError,
                                >(e));
                                lemma_members_error::<T>(trees, i + 1);
                            }
                            return Err(e);
                        },
                    }
                    i += 1;
                }
                proof {
                    assert(trees.subrange(0, i as int) =~= trees);
                }
                Ok(out)
            },
            _ => Err(DecodeError::TypeMismatch),
        }
    }

    fn absent() -> (r: Result<Vec<(String, T)>, DecodeError>) {
        Err(DecodeError::MissingField)
    }

    fn encode(&self) -> (r: Json) {
        let mut out: Vec<(String, Json)> = Vec::new();
        let mut i: usize = 0;
        while i < self.len()
            invariant
                i <= self.len(),
                out@.len() == i,
                forall|k: int|
                    0 <= k < i ==> out@[k].0@ == self@[k].0@ && out@[k].1@ == T::spec_encode(
                        self@[k].1.deep_view(),
                    ),
            decreases self.len() - i,
        {
            let name = self[i].0.clone();
            out.push((name, self[i].1.encode()));
            i += 1;
        }
        proof {
            assert(members_view(out@) =~= spec_encode_members::<T>(self.deep_view()));
        }
        Json::Object(out)
    }

    proof fn lemma_round_trip(v: JsonView) {
        let m = v->Object_0;
        let xs = spec_decode_members::<T>(m)->Ok_0;
        let back = spec_encode_members::<T>(xs);
        lemma_members_pointwise::<T>(m, xs);
        assert forall|i: int| 0 <= i < back.len() implies xs[i].0 == back[i].0
            && #[trigger] T::spec_decode(back[i].1) == Ok::<T::V, DecodeError>(xs[i].1) by {
            assert(T::spec_decode(m[i].1) == Ok::<T::V, DecodeError>(xs[i].1));
            T::lemma_round_trip(m[i].1);
        }
        lemma_members_pointwise::<T>(back, xs);
    }

    proof fn lemma_absent_round_trip() {
    }

    proof fn lemma_writable(v: JsonView) {
        let m = v->Object_0;
        let xs = spec_decode_members::<T>(m)->Ok_0;
        let back = spec_encode_members::<T>(xs);
        lemma_members_pointwise::<T>(m, xs);
        lemma_canonical_members_ok(m);
        assert forall|i: int| 0 <= i < back.len() implies canonical((#[trigger] back[i]).1) is Ok by {
            assert(T::spec_decode(m[i].1) == Ok::<T::V, DecodeError>(xs[i].1));
            assert(canonical(m[i].1) is Ok);
            T::lemma_writable(m[i].1);
        }
        assert forall|i: int, j: int| 0 <= i < j < back.len() implies (#[trigger] back[i]).0 != (
        #[trigger] back[j]).0 by {
            assert(m[i].0 != m[j].0);
            assert(T::spec_decode(m[i].1) == Ok::<T::V, DecodeError>(xs[i].1));
            assert(T::spec_decode(m[j].1) == Ok::<T::V, DecodeError>(xs[j].1));
        }
        lemma_canonical_members_ok(back);
    }
}

/// A list without items.
pub fn empty_list<T: DeepView>() -> (r: Vec<T>)
    ensures
        r.deep_view() == Seq::<T::V>::empty(),
{
    let r: Vec<T> = Vec::new();
    assert(r.deep_view() =~= Seq::<T::V>::empty());
    r
}

/// The empty list is read again from what it is written as.
pub proof fn lemma_empty_list_round_trip<T: Wire>()
    ensures
        <Vec<T>>::spec_decode(<Vec<T>>::spec_encode(Seq::empty())) == Ok::<
            Seq<T::V>,
            DecodeError,
        >(Seq::empty()),
{
}

/// The empty map is read again from what it is written as.
pub proof fn lemma_empty_map_round_trip<T: Wire>()
    ensures
        <Vec<(String, T)>>::spec_decode(<Vec<(String, T)>>::spec_encode(Seq::empty())) == Ok::<
            Seq<(Seq<char>, T::V)>,
            DecodeError,
        >(Seq::empty()),
{
}

/// The empty list is written as a tree that can be written as text.
pub proof fn lemma_empty_list_writable<T: Wire>()
    ensures
        writable(<Vec<T>>::spec_encode(Seq::empty())),
{
    lemma_canonical_items_ok(spec_encode_items::<T>(Seq::empty()));
}

/// The empty map is written as a tree that can be written as text.
pub proof fn lemma_empty_map_writable<T: Wire>()
    ensures
        writable(<Vec<(String, T)>>::spec_encode(Seq::empty())),
{
    lemma_canonical_members_ok(spec_encode_members::<T>(Seq::empty()));
}

} // verus!
