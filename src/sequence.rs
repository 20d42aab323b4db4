//! The codec for sequences: a `Vec<T>` is a JSON array of its elements, in order.

use vstd::prelude::*;
use crate::error::{Kind, MarshalError};
use crate::json::{round_trips, FromJsonnable, ToJsonnable};
use crate::value::{well_formed, Tree, Value};

verus! {

/// Decodes the trees of `s` in order; the first failure is the result.
pub open spec fn decoded_items<T: FromJsonnable>(s: Seq<Tree>) -> Result<Seq<T::V>, MarshalError>
    decreases s.len(),
{
    if s.len() == 0 {
        Ok(Seq::empty())
    } else {
        match decoded_items::<T>(s.drop_last()) {
            Err(e) => Err(e),
            Ok(init) => match T::decoded(s.last()) {
                Ok(x) => Ok(init.push(x)),
                Err(e) => Err(e),
            },
        }
    }
}

/// Once a prefix of `s` fails to decode, so does `s`, with the same error.
proof fn lemma_failed_prefix<T: FromJsonnable>(s: Seq<Tree>, k: int)
    requires
        0 <= k <= s.len(),
        decoded_items::<T>(s.take(k)) is Err,
    ensures
        decoded_items::<T>(s) == decoded_items::<T>(s.take(k)),
    decreases s.len() - k,
{
    if k < s.len() {
        assert(s.take(k + 1).drop_last() =~= s.take(k));
        lemma_failed_prefix::<T>(s, k + 1);
    } else {
        assert(s.take(k) =~= s);
    }
}

impl<T: ToJsonnable> ToJsonnable for Vec<T> {
    open spec fn encoded(m: Seq<T::V>) -> Tree {
        Tree::Array(m.map_values(|x: T::V| T::encoded(x)))
    }

    fn to_json(&self) -> (r: Value) {
        let mut items: Vec<Value> = Vec::new();
        for i in 0..self.len()
            invariant
                items@.len() == i,
                forall|j: int| 0 <= j < i ==> #[trigger] items@[j]@ == T::encoded(self@[j].deep_view()),
                forall|j: int| 0 <= j < i ==> well_formed(#[trigger] items@[j]@),
        {
            items.push(self[i].to_json());
        }
        let ghost elems = items@;
        let r = Value::Array(items);
        assert(r@->Array_0 =~= self.deep_view().map_values(|x: T::V| T::encoded(x))) by {
            assert(r@->Array_0.len() == elems.len());
            assert forall|j: int| 0 <= j < elems.len() implies #[trigger] r@->Array_0[j] == elems[j]@ by {}
        }
        assert forall|j: int| 0 <= j < r@->Array_0.len() implies well_formed(#[trigger] r@->Array_0[j]) by {
            assert(r@->Array_0[j] == elems[j]@);
        }
        r
    }
}

impl<T: FromJsonnable> FromJsonnable for Vec<T> {
    open spec fn decoded(t: Tree) -> Result<Seq<T::V>, MarshalError> {
        match t {
            Tree::Array(s) => decoded_items::<T>(s),
            _ => Err(MarshalError::TypeMismatch(Kind::Sequence)),
        }
    }

    fn from_json(json: Value) -> (r: Result<Vec<T>, MarshalError>) {
        let ghost tree = json@;
        match json {
            Value::Array(items) => {
                let ghost s = tree->Array_0;
                let mut out: Vec<T> = Vec::new();
                assert(s.take(0) =~= Seq::<Tree>::empty());
                assert(out.deep_view() =~= Seq::<T::V>::empty());
                for item in it: items.into_iter()
                    invariant
                        it.seq() == items@,
                        tree == Tree::Array(s),
                        tree == json@,
                        s.len() == items@.len(),
                        forall|j: int| 0 <= j < s.len() ==> s[j] == #[trigger] items@[j]@,
                        out@.len() == it.index(),
                        decoded_items::<T>(s.take(it.index() as int)) == Ok::<Seq<T::V>, MarshalError>(out.deep_view()),
                {
                    let ghost i = it.index() as int;
                    assert(s.take(i + 1).drop_last() =~= s.take(i));
                    assert(item == items@[i]);
                    match T::from_json(item) {
                        Ok(x) => {
                            let ghost before = out.deep_view();
                            out.push(x);
                            assert(out.deep_view() =~= before.push(x.deep_view()));
                        },
                        Err(e) => {
                            proof {
                                assert(s.take(i + 1).last() == s[i]);
                                assert(decoded_items::<T>(s.take(i + 1)) == Err::<Seq<T::V>, MarshalError>(e));
                                lemma_failed_prefix::<T>(s, i + 1);
                            }
                            return Err(e);
                        },
                    }
                }
                assert(s.take(s.len() as int) =~= s);
                Ok(out)
            },
            _ => Err(MarshalError::TypeMismatch(Kind::Sequence)),
        }
    }
}

/// Writing a sequence and reading it back gives the same sequence when each of its
/// elements comes back unchanged; and a value that is not an array is refused
/// with a `TypeMismatch`.
pub proof fn sequence_round_trip<T: ToJsonnable + FromJsonnable>(v: Seq<<T as DeepView>::V>)
    requires
        forall|i: int| 0 <= i < v.len() ==> round_trips::<T>(#[trigger] v[i]),
    ensures
        round_trips::<Vec<T>>(v),
        forall|t: Tree|
            !(t is Array) ==> #[trigger] <Vec<T> as FromJsonnable>::decoded(t) == Err::<
                Seq<<T as DeepView>::V>,
                MarshalError,
            >(MarshalError::TypeMismatch(Kind::Sequence)),
    decreases v.len(),
{
    let s = v.map_values(|x: <T as DeepView>::V| T::encoded(x));
    if v.len() > 0 {
        let init = v.drop_last();
        sequence_round_trip::<T>(init);
        assert(s.drop_last() =~= init.map_values(|x: <T as DeepView>::V| T::encoded(x)));
        assert(round_trips::<T>(v[v.len() - 1]));
        assert(init.push(v.last()) =~= v);
    } else {
        assert(v =~= Seq::empty());
    }
}

} // verus!
