//! The list resolution helper: sequential production of the aggregated
//! output value for an ordered sequence of bindable elements. Elements are
//! resolved strictly in their original order, and the first failure is
//! surfaced unchanged, with no element resolved after it.

use vstd::prelude::*;

use crate::resolve::ResolveValue;
use crate::resolve::seq_views;
use crate::value::FieldError;
use crate::value::OutputValue;
use crate::value::OutputValueView;

verus! {

broadcast use vstd::seq::group_seq_axioms, vstd::std_specs::vec::group_vec_axioms;

/// What resolving each element of `ms` in order produces: the ordered
/// sequence of their output values, or the message of the first failure.
pub open spec fn resolve_list_spec<T: ResolveValue>(ms: Seq<T::V>) -> Result<
    Seq<OutputValueView>,
    Seq<char>,
>
    decreases ms.len(),
{
    if ms.len() == 0 {
        Ok(Seq::empty())
    } else {
        match T::resolve_spec(ms[0]) {
            Err(msg) => Err(msg),
            Ok(out) => match resolve_list_spec::<T>(ms.subrange(1, ms.len() as int)) {
                Err(msg) => Err(msg),
                Ok(rest) => Ok(seq![out] + rest),
            },
        }
    }
}

/// Order preservation: when every element resolves successfully, the whole
/// sequence resolves to exactly the elements' output values, in order.
pub proof fn lemma_resolve_list_all_ok<T: ResolveValue>(ms: Seq<T::V>, outs: Seq<OutputValueView>)
    requires
        outs.len() == ms.len(),
        forall|i: int|
            0 <= i < ms.len() ==> #[trigger] T::resolve_spec(ms[i]) == Ok::<
                OutputValueView,
                Seq<char>,
            >(outs[i]),
    ensures
        resolve_list_spec::<T>(ms) == Ok::<Seq<OutputValueView>, Seq<char>>(outs),
    decreases ms.len(),
{
    if ms.len() == 0 {
        assert(outs =~= Seq::<OutputValueView>::empty());
    } else {
        let tail = ms.subrange(1, ms.len() as int);
        let touts = outs.subrange(1, outs.len() as int);
        assert forall|i: int| 0 <= i < tail.len() implies #[trigger] T::resolve_spec(tail[i])
            == Ok::<OutputValueView, Seq<char>>(touts[i]) by {
            assert(tail[i] == ms[i + 1]);
            assert(T::resolve_spec(ms[i + 1]) == Ok::<OutputValueView, Seq<char>>(outs[i + 1]));
        }
        lemma_resolve_list_all_ok::<T>(tail, touts);
        assert(outs =~= seq![outs[0]] + touts);
    }
}

/// Short circuit: when the element at index `k` is the first to fail, the
/// whole sequence fails with exactly that element's message.
pub proof fn lemma_resolve_list_first_err<T: ResolveValue>(ms: Seq<T::V>, k: int, msg: Seq<char>)
    requires
        0 <= k < ms.len(),
        forall|i: int| 0 <= i < k ==> (#[trigger] T::resolve_spec(ms[i])) is Ok,
        T::resolve_spec(ms[k]) == Err::<OutputValueView, Seq<char>>(msg),
    ensures
        resolve_list_spec::<T>(ms) == Err::<Seq<OutputValueView>, Seq<char>>(msg),
    decreases ms.len(),
{
    if k > 0 {
        let tail = ms.subrange(1, ms.len() as int);
        assert forall|i: int| 0 <= i < k - 1 implies (#[trigger] T::resolve_spec(tail[i]))
            is Ok by {
            assert(tail[i] == ms[i + 1]);
            assert(T::resolve_spec(ms[i + 1]) is Ok);
        }
        assert(tail[k - 1] == ms[k]);
        lemma_resolve_list_first_err::<T>(tail, k - 1, msg);
    }
}

/// Resolves the elements in order, aggregating their output values into a
/// single list value, or returns the first element's failure unchanged.
pub fn resolve_list<T: ResolveValue>(elems: &Vec<T>) -> (r: Result<OutputValue, FieldError>)
    requires
        forall|i: int| 0 <= i < elems@.len() ==> T::wf(#[trigger] elems@[i]@),
    ensures
        r matches Ok(out) ==> out@ matches OutputValueView::List(vs) && resolve_list_spec::<T>(
            seq_views(elems@),
        ) == Ok::<Seq<OutputValueView>, Seq<char>>(vs),
        r matches Err(e) ==> resolve_list_spec::<T>(seq_views(elems@)) == Err::<
            Seq<OutputValueView>,
            Seq<char>,
        >(e@),
{
    let mut outs: Vec<OutputValue> = Vec::new();
    let mut idx: usize = 0;
    while idx < elems.len()
        invariant
            idx <= elems@.len(),
            outs@.len() == idx,
            forall|i: int| 0 <= i < elems@.len() ==> T::wf(#[trigger] elems@[i]@),
            forall|j: int|
                0 <= j < idx ==> #[trigger] T::resolve_spec(elems@[j]@) == Ok::<
                    OutputValueView,
                    Seq<char>,
                >(outs@[j]@),
        decreases elems@.len() - idx,
    {
        let elem: &T = &elems[idx];
        match elem.resolve_value() {
            Ok(out) => outs.push(out),
            Err(e) => {
                proof {
                    let ms = seq_views(elems@);
                    assert forall|i: int| 0 <= i < idx implies (#[trigger] T::resolve_spec(
                        ms[i],
                    )) is Ok by {
                        assert(ms[i] == elems@[i]@);
                        assert(T::resolve_spec(elems@[i]@) is Ok);
                    }
                    assert(ms[idx as int] == elems@[idx as int]@);
                    lemma_resolve_list_first_err::<T>(ms, idx as int, e@);
                }
                return Err(e);
            },
        }
        idx += 1;
    }
    let ghost produced = seq_views(outs@);
    proof {
        let ms = seq_views(elems@);
        assert forall|i: int| 0 <= i < ms.len() implies #[trigger] T::resolve_spec(ms[i]) == Ok::<
            OutputValueView,
            Seq<char>,
        >(produced[i]) by {
            assert(ms[i] == elems@[i]@);
            assert(produced[i] == outs@[i]@);
        }
        lemma_resolve_list_all_ok::<T>(ms, produced);
    }
    let r = OutputValue::List(outs);
    proof {
        assert(r@ matches OutputValueView::List(s) && s =~= produced);
    }
    Ok(r)
}

} // verus!
