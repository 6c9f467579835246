//! The exact-length sequence adapter: decoding a dynamically sized input
//! list into a container whose element count `N` is fixed at the type level,
//! and encoding such a container back into the dynamic representations.
//!
//! Decoding validates cardinality before any element conversion, converts
//! the items strictly in order through the element type's own converter, and
//! stops at the first element failure: the partially filled staging buffer
//! (a growable vector whose length is the live count) is simply abandoned,
//! and ownership of the elements moves into the finished container only once
//! all `N` conversions have succeeded.

use vstd::prelude::*;
use vstd::string::StringExecFns;

use crate::ast::InputValue;
use crate::ast::InputValueView;
use crate::ast::Spanning;
use crate::ast::SpanningView;
use crate::decimal::dec_of;
use crate::decimal::dec_string;
use crate::iter;
use crate::iter::resolve_list_spec;
use crate::meta::MetaType;
use crate::resolve::Bindable;
use crate::resolve::FromInputValue;
use crate::resolve::ResolveValue;
use crate::resolve::ToInputValue;
use crate::resolve::seq_views;
use crate::value::FieldError;
use crate::value::IntoFieldError;
use crate::value::OutputValue;
use crate::value::OutputValueView;

verus! {

broadcast use vstd::seq::group_seq_axioms, vstd::std_specs::vec::group_vec_axioms;

/// Possible errors of converting an input value into an exact-size array.
#[derive(Clone, Debug, Eq, PartialEq)]
pub enum TryFromInputValueError<E> {
    /// The input value may not be null: a null cannot satisfy a list-shaped
    /// target.
    IsNull,
    /// Wrong count of items.
    WrongCount {
        /// Actual count of items.
        actual: usize,
        /// Expected count of items (the array size).
        expected: usize,
    },
    /// Error of converting an item of the input list.
    Item(E),
}

impl<E: IntoFieldError> IntoFieldError for TryFromInputValueError<E> {
    open spec fn message_spec(self) -> Seq<char> {
        match self {
            TryFromInputValueError::IsNull => {
                "Failed to convert into exact-size array: Value cannot be null"@
            },
            TryFromInputValueError::WrongCount { actual, expected } => {
                "Failed to convert into exact-size array: wrong elements count: "@ + dec_of(
                    actual as nat,
                ) + " instead of "@ + dec_of(expected as nat)
            },
            TryFromInputValueError::Item(e) => e.message_spec(),
        }
    }

    fn into_field_error(self) -> (e: FieldError) {
        match self {
            TryFromInputValueError::IsNull => FieldError {
                message: String::from_str(
                    "Failed to convert into exact-size array: Value cannot be null",
                ),
            },
            TryFromInputValueError::WrongCount { actual, expected } => {
                let mut m = String::from_str(
                    "Failed to convert into exact-size array: wrong elements count: ",
                );
                let a = dec_string(actual);
                m.append(a.as_str());
                m.append(" instead of ");
                let x = dec_string(expected);
                m.append(x.as_str());
                proof {
                    assert(m@ =~= "Failed to convert into exact-size array: wrong elements count: "@
                        + dec_of(actual as nat) + " instead of "@ + dec_of(expected as nat));
                }
                FieldError { message: m }
            },
            TryFromInputValueError::Item(e) => e.into_field_error(),
        }
    }
}

/// What decoding each of `items` through the element binding `T` yields: the
/// ordered sequence of element models, or the error of the first item that
/// fails to convert (no later item is consulted).
pub open spec fn decode_items<T: FromInputValue>(items: Seq<InputValueView>) -> Result<
    Seq<T::V>,
    T::Error,
>
    decreases items.len(),
{
    if items.len() == 0 {
        Ok(Seq::empty())
    } else {
        match T::from_input_spec(items[0]) {
            Err(e) => Err(e),
            Ok(m) => match decode_items::<T>(items.subrange(1, items.len() as int)) {
                Err(e) => Err(e),
                Ok(rest) => Ok(seq![m] + rest),
            },
        }
    }
}

/// When every item converts successfully, the items decode to exactly their
/// converted forms, in order.
pub proof fn lemma_decode_items_all_ok<T: FromInputValue>(
    items: Seq<InputValueView>,
    ms: Seq<T::V>,
)
    requires
        ms.len() == items.len(),
        forall|i: int|
            0 <= i < items.len() ==> #[trigger] T::from_input_spec(items[i]) == Ok::<
                T::V,
                T::Error,
            >(ms[i]),
    ensures
        decode_items::<T>(items) == Ok::<Seq<T::V>, T::Error>(ms),
    decreases items.len(),
{
    if items.len() == 0 {
        assert(ms =~= Seq::<T::V>::empty());
    } else {
        let tail = items.subrange(1, items.len() as int);
        let tms = ms.subrange(1, ms.len() as int);
        assert forall|i: int| 0 <= i < tail.len() implies #[trigger] T::from_input_spec(tail[i])
            == Ok::<T::V, T::Error>(tms[i]) by {
            assert(tail[i] == items[i + 1]);
            assert(T::from_input_spec(items[i + 1]) == Ok::<T::V, T::Error>(ms[i + 1]));
        }
        lemma_decode_items_all_ok::<T>(tail, tms);
        assert(ms =~= seq![ms[0]] + tms);
    }
}

/// When the item at index `k` is the first to fail, the items decode to
/// exactly that item's error.
pub proof fn lemma_decode_items_first_err<T: FromInputValue>(
    items: Seq<InputValueView>,
    k: int,
    e: T::Error,
)
    requires
        0 <= k < items.len(),
        forall|i: int| 0 <= i < k ==> (#[trigger] T::from_input_spec(items[i])) is Ok,
        T::from_input_spec(items[k]) == Err::<T::V, T::Error>(e),
    ensures
        decode_items::<T>(items) == Err::<Seq<T::V>, T::Error>(e),
    decreases items.len(),
{
    if k > 0 {
        let tail = items.subrange(1, items.len() as int);
        assert forall|i: int| 0 <= i < k - 1 implies (#[trigger] T::from_input_spec(tail[i]))
            is Ok by {
            assert(tail[i] == items[i + 1]);
            assert(T::from_input_spec(items[i + 1]) is Ok);
        }
        assert(tail[k - 1] == items[k]);
        lemma_decode_items_first_err::<T>(tail, k - 1, e);
    }
}

/// A successful decode converts every item: the result has one model per
/// item, each the successful conversion of the item at the same index.
pub proof fn lemma_decode_items_ok_inv<T: FromInputValue>(items: Seq<InputValueView>)
    ensures
        decode_items::<T>(items) matches Ok(ms) ==> ms.len() == items.len() && (forall|i: int|
            0 <= i < items.len() ==> #[trigger] T::from_input_spec(items[i]) == Ok::<
                T::V,
                T::Error,
            >(ms[i])),
    decreases items.len(),
{
    if items.len() > 0 {
        let tail = items.subrange(1, items.len() as int);
        lemma_decode_items_ok_inv::<T>(tail);
        if decode_items::<T>(items) is Ok {
            let ms = decode_items::<T>(items)->Ok_0;
            let rest = decode_items::<T>(tail)->Ok_0;
            assert forall|i: int| 0 <= i < items.len() implies #[trigger] T::from_input_spec(
                items[i],
            ) == Ok::<T::V, T::Error>(ms[i]) by {
                if i > 0 {
                    assert(tail[i - 1] == items[i]);
                    assert(ms[i] == rest[i - 1]);
                }
            }
        }
    }
}

/// A container whose element count is fixed at the type level: a fully
/// constructed instance always holds exactly `N` live elements, in order.
#[derive(Debug)]
pub struct ExactSizeArray<T, const N: usize> {
    elems: Vec<T>,
}

impl<T, const N: usize> ExactSizeArray<T, N> {
    /// A fully constructed instance always holds exactly `N` live elements.
    #[verifier::type_invariant]
    spec fn exact_len(self) -> bool {
        self.elems@.len() == N
    }
}

impl<T: View, const N: usize> View for ExactSizeArray<T, N> {
    type V = Seq<T::V>;

    closed spec fn view(&self) -> Seq<T::V> {
        seq_views(self.elems@)
    }
}

impl<T: View, const N: usize> ExactSizeArray<T, N> {
    /// Takes ownership of exactly `N` elements; rejects any other count.
    pub fn from_vec(elems: Vec<T>) -> (r: Option<Self>)
        ensures
            elems@.len() == N ==> (r matches Some(a) && a@ == seq_views(elems@)),
            elems@.len() != N ==> r is None,
    {
        if elems.len() == N {
            Some(ExactSizeArray { elems })
        } else {
            None
        }
    }

    /// The fixed element count.
    pub fn len(&self) -> (n: usize)
        ensures
            n == N,
            self@.len() == N,
    {
        proof {
            use_type_invariant(self);
        }
        self.elems.len()
    }

    /// Borrows the element at index `i`.
    pub fn get(&self, i: usize) -> (t: &T)
        requires
            i < N,
        ensures
            t@ == self@[i as int],
    {
        proof {
            use_type_invariant(self);
        }
        &self.elems[i]
    }

    /// Releases the container, yielding its `N` elements in order.
    pub fn into_vec(self) -> (v: Vec<T>)
        ensures
            v@.len() == N,
            seq_views(v@) == self@,
    {
        proof {
            use_type_invariant(&self);
        }
        let ExactSizeArray { elems } = self;
        elems
    }
}

impl<T: Bindable, const N: usize> Bindable for ExactSizeArray<T, N> {
    /// Fully formed: exactly `N` elements, each itself fully formed.
    open spec fn wf(m: Seq<T::V>) -> bool {
        m.len() == N && (forall|i: int| 0 <= i < m.len() ==> T::wf(#[trigger] m[i]))
    }

    open spec fn meta_spec() -> MetaType {
        MetaType::List(Box::new(T::meta_spec()))
    }

    fn meta() -> (m: MetaType) {
        MetaType::List(Box::new(T::meta()))
    }
}

impl<T: ToInputValue, const N: usize> ToInputValue for ExactSizeArray<T, N> {
    /// A list of the elements' serialized forms, in order, each entry
    /// carrying no source location.
    open spec fn to_input_spec(m: Seq<T::V>) -> InputValueView {
        InputValueView::List(
            Seq::new(
                m.len(),
                |i: int| SpanningView { item: T::to_input_spec(m[i]), span: None },
            ),
        )
    }

    fn to_input_value(&self) -> (v: InputValue) {
        proof {
            use_type_invariant(self);
        }
        let mut entries: Vec<Spanning> = Vec::new();
        let mut idx: usize = 0;
        while idx < self.elems.len()
            invariant
                self.elems@.len() == N,
                Self::wf(self@),
                idx <= N,
                entries@.len() == idx,
                forall|j: int|
                    0 <= j < idx ==> #[trigger] entries@[j]@ == (SpanningView {
                        item: T::to_input_spec(self@[j]),
                        span: None,
                    }),
            decreases N - idx,
        {
            let elem: &T = &self.elems[idx];
            proof {
                assert(elem@ == self@[idx as int]);
            }
            let item = elem.to_input_value();
            entries.push(Spanning { item, span: None });
            idx += 1;
        }
        let ghost built = entries@;
        let v = InputValue::List(entries);
        proof {
            let target = Seq::new(
                self@.len(),
                |i: int| SpanningView { item: T::to_input_spec(self@[i]), span: None },
            );
            let s = v@->List_0;
            assert forall|i: int| 0 <= i < N implies s[i] == target[i] by {
                assert(s[i] == crate::ast::spanning_view(built[i]));
                assert(built[i]@ == (SpanningView {
                    item: T::to_input_spec(self@[i]),
                    span: None,
                }));
            }
            assert(s =~= target);
            assert(v@ == InputValueView::List(target));
        }
        v
    }
}

impl<T: FromInputValue, const N: usize> FromInputValue for ExactSizeArray<T, N> {
    type Error = TryFromInputValueError<T::Error>;

    /// The decode function. A null never satisfies the list-shaped target;
    /// a list must have exactly `N` items, which are then converted in
    /// order up to the first failure; a bare non-list value stands for the
    /// sole element of a length-1 list when `N == 1` and is otherwise a
    /// cardinality mismatch of one item against `N`.
    open spec fn from_input_spec(v: InputValueView) -> Result<
        Seq<T::V>,
        TryFromInputValueError<T::Error>,
    > {
        match v {
            InputValueView::Null => Err(TryFromInputValueError::IsNull),
            InputValueView::List(entries) => if entries.len() != N {
                Err(
                    TryFromInputValueError::WrongCount {
                        actual: entries.len() as usize,
                        expected: N,
                    },
                )
            } else {
                match decode_items::<T>(entries.map_values(|s: SpanningView| s.item)) {
                    Ok(ms) => Ok(ms),
                    Err(e) => Err(TryFromInputValueError::Item(e)),
                }
            },
            other => if N == 1 {
                match T::from_input_spec(other) {
                    Ok(m) => Ok(seq![m]),
                    Err(e) => Err(TryFromInputValueError::Item(e)),
                }
            } else {
                Err(TryFromInputValueError::WrongCount { actual: 1, expected: N })
            },
        }
    }

    #[verifier::loop_isolation(false)]
    fn try_from_input_value(v: &InputValue) -> (r: Result<Self, TryFromInputValueError<T::Error>>) {
        match v {
            InputValue::Null => Err(TryFromInputValueError::IsNull),
            InputValue::List(ls) => {
                let ghost entries_view: Seq<SpanningView> = v@->List_0;
                let ghost items: Seq<InputValueView> = entries_view.map_values(
                    |s: SpanningView| s.item,
                );
                proof {
                    assert(entries_view.len() == ls@.len());
                    assert forall|i: int| 0 <= i < ls@.len() implies items[i] == ls@[i].item@ by {
                        assert(entries_view[i] == crate::ast::spanning_view(ls@[i]));
                    }
                }
                if ls.len() != N {
                    return Err(
                        TryFromInputValueError::WrongCount { actual: ls.len(), expected: N },
                    );
                }
                let mut elems: Vec<T> = Vec::new();
                let mut idx: usize = 0;
                while idx < ls.len()
                    invariant
                        ls@.len() == N,
                        idx <= N,
                        elems@.len() == idx,
                        items.len() == N,
                        forall|i: int| 0 <= i < N ==> items[i] == #[trigger] ls@[i].item@,
                        forall|j: int|
                            0 <= j < idx ==> #[trigger] T::from_input_spec(items[j]) == Ok::<
                                T::V,
                                T::Error,
                            >(elems@[j]@),
                        forall|j: int| 0 <= j < idx ==> T::wf(#[trigger] elems@[j]@),
                    decreases N - idx,
                {
                    let entry: &Spanning = &ls[idx];
                    match T::try_from_input_value(&entry.item) {
                        Ok(t) => {
                            elems.push(t);
                        },
                        Err(e) => {
                            proof {
                                assert forall|i: int| 0 <= i < idx implies (
                                #[trigger] T::from_input_spec(items[i])) is Ok by {}
                                assert(items[idx as int] == ls@[idx as int].item@);
                                lemma_decode_items_first_err::<T>(items, idx as int, e);
                            }
                            return Err(TryFromInputValueError::Item(e));
                        },
                    }
                    idx += 1;
                }
                let ghost ms = seq_views(elems@);
                proof {
                    assert forall|i: int| 0 <= i < N implies #[trigger] T::from_input_spec(
                        items[i],
                    ) == Ok::<T::V, T::Error>(ms[i]) by {
                        assert(ms[i] == elems@[i]@);
                    }
                    lemma_decode_items_all_ok::<T>(items, ms);
                    assert(forall|i: int| 0 <= i < N ==> T::wf(#[trigger] ms[i]));
                }
                Ok(ExactSizeArray { elems })
            },
            other => {
                proof {
                    assert(!(v@ matches InputValueView::Null));
                    assert(!(v@ matches InputValueView::List(_)));
                }
                if N != 1 {
                    return Err(TryFromInputValueError::WrongCount { actual: 1, expected: N });
                }
                match T::try_from_input_value(other) {
                    Ok(t) => {
                        let mut elems: Vec<T> = Vec::new();
                        elems.push(t);
                        proof {
                            assert(seq_views(elems@) =~= seq![elems@[0]@]);
                        }
                        Ok(ExactSizeArray { elems })
                    },
                    Err(e) => Err(TryFromInputValueError::Item(e)),
                }
            },
        }
    }

    fn try_from_implicit_null() -> (r: Result<Self, TryFromInputValueError<T::Error>>) {
        Self::try_from_input_value(&InputValue::Null)
    }

    proof fn lemma_from_input_wf(v: InputValueView) {
        match v {
            InputValueView::Null => {},
            InputValueView::List(entries) => {
                if entries.len() == N {
                    let items = entries.map_values(|s: SpanningView| s.item);
                    lemma_decode_items_ok_inv::<T>(items);
                    if decode_items::<T>(items) is Ok {
                        let ms = decode_items::<T>(items)->Ok_0;
                        assert forall|i: int| 0 <= i < ms.len() implies T::wf(
                            #[trigger] ms[i],
                        ) by {
                            T::lemma_from_input_wf(items[i]);
                        }
                    }
                }
            },
            other => {
                if N == 1 {
                    T::lemma_from_input_wf(other);
                    if T::from_input_spec(other) is Ok {
                        let m = T::from_input_spec(other)->Ok_0;
                        assert(forall|i: int| 0 <= i < 1 ==> #[trigger] seq![m][i] == m);
                    }
                }
            },
        }
    }

    proof fn lemma_round_trip(m: Seq<T::V>) {
        let entries = Seq::new(
            m.len(),
            |i: int| SpanningView { item: T::to_input_spec(m[i]), span: None },
        );
        let items = entries.map_values(|s: SpanningView| s.item);
        assert forall|i: int| 0 <= i < items.len() implies #[trigger] T::from_input_spec(
            items[i],
        ) == Ok::<T::V, T::Error>(m[i]) by {
            T::lemma_round_trip(m[i]);
        }
        lemma_decode_items_all_ok::<T>(items, m);
    }
}

impl<T: FromInputValue, const N: usize> ExactSizeArray<T, N> {
    /// Decoding a list of length exactly `N` whose items all convert
    /// successfully succeeds, and the `i`-th element of the result is the
    /// converted form of the `i`-th input item, for every `i` below `N`.
    pub proof fn lemma_decode_exact_list(entries: Seq<SpanningView>, ms: Seq<T::V>)
        requires
            entries.len() == N,
            ms.len() == N,
            forall|i: int|
                0 <= i < N ==> #[trigger] T::from_input_spec(entries[i].item) == Ok::<
                    T::V,
                    T::Error,
                >(ms[i]),
        ensures
            Self::from_input_spec(InputValueView::List(entries)) == Ok::<
                Seq<T::V>,
                TryFromInputValueError<T::Error>,
            >(ms),
    {
        let items = entries.map_values(|s: SpanningView| s.item);
        assert forall|i: int| 0 <= i < N implies #[trigger] T::from_input_spec(items[i]) == Ok::<
            T::V,
            T::Error,
        >(ms[i]) by {
            assert(items[i] == entries[i].item);
        }
        lemma_decode_items_all_ok::<T>(items, ms);
    }

    /// Decoding a list whose length differs from `N` fails with the
    /// cardinality mismatch carrying both counts; the result does not
    /// depend on the items, so no item conversion is consulted.
    pub proof fn lemma_decode_wrong_count(entries: Seq<SpanningView>)
        requires
            entries.len() != N,
        ensures
            Self::from_input_spec(InputValueView::List(entries)) == Err::<
                Seq<T::V>,
                TryFromInputValueError<T::Error>,
            >(
                (TryFromInputValueError::WrongCount {
                    actual: entries.len() as usize,
                    expected: N,
                }),
            ),
    {
    }

    /// Decoding a null fails with the null rejection, for every `N`
    /// including `N == 0`.
    pub proof fn lemma_decode_null()
        ensures
            Self::from_input_spec(InputValueView::Null) == Err::<
                Seq<T::V>,
                TryFromInputValueError<T::Error>,
            >(TryFromInputValueError::IsNull),
    {
    }

    /// For `N == 0`, decoding an empty list succeeds with the empty
    /// container, without consulting any item conversion.
    pub proof fn lemma_decode_empty_list()
        requires
            N == 0,
        ensures
            Self::from_input_spec(InputValueView::List(Seq::empty())) == Ok::<
                Seq<T::V>,
                TryFromInputValueError<T::Error>,
            >(Seq::empty()),
    {
    }

    /// A bare value (neither null nor a list) decodes as the sole element
    /// of a length-1 list when `N == 1`, and fails as a cardinality
    /// mismatch of one item against `N` otherwise.
    pub proof fn lemma_decode_bare_value(v: InputValueView)
        requires
            !(v matches InputValueView::Null),
            !(v matches InputValueView::List(_)),
        ensures
            N == 1 ==> Self::from_input_spec(v) == (match T::from_input_spec(v) {
                Ok(m) => Ok::<Seq<T::V>, TryFromInputValueError<T::Error>>(seq![m]),
                Err(e) => Err::<Seq<T::V>, TryFromInputValueError<T::Error>>(
                    TryFromInputValueError::Item(e),
                ),
            }),
            N != 1 ==> Self::from_input_spec(v) == Err::<
                Seq<T::V>,
                TryFromInputValueError<T::Error>,
            >((TryFromInputValueError::WrongCount { actual: 1, expected: N })),
    {
    }

    /// If the item at index `k` of an `N`-length list is the first that
    /// fails to convert, decoding fails with exactly that item's error; no
    /// item after `k` is consulted.
    pub proof fn lemma_decode_item_error(entries: Seq<SpanningView>, k: int, e: T::Error)
        requires
            entries.len() == N,
            0 <= k < N,
            forall|i: int| 0 <= i < k ==> (#[trigger] T::from_input_spec(entries[i].item)) is Ok,
            T::from_input_spec(entries[k].item) == Err::<T::V, T::Error>(e),
        ensures
            Self::from_input_spec(InputValueView::List(entries)) == Err::<
                Seq<T::V>,
                TryFromInputValueError<T::Error>,
            >(TryFromInputValueError::Item(e)),
    {
        let items = entries.map_values(|s: SpanningView| s.item);
        assert forall|i: int| 0 <= i < k implies (#[trigger] T::from_input_spec(items[i]))
            is Ok by {
            assert(items[i] == entries[i].item);
        }
        assert(items[k] == entries[k].item);
        lemma_decode_items_first_err::<T>(items, k, e);
    }
}

impl<T: ResolveValue, const N: usize> ResolveValue for ExactSizeArray<T, N> {
    /// The ordered list of the elements' output values, or the first
    /// element failure, exactly as the list resolution helper produces it.
    open spec fn resolve_spec(m: Seq<T::V>) -> Result<OutputValueView, Seq<char>> {
        match resolve_list_spec::<T>(m) {
            Ok(vs) => Ok(OutputValueView::List(vs)),
            Err(msg) => Err(msg),
        }
    }

    fn resolve_value(&self) -> (r: Result<OutputValue, FieldError>) {
        proof {
            use_type_invariant(self);
            assert forall|i: int| 0 <= i < self.elems@.len() implies T::wf(
                #[trigger] self.elems@[i]@,
            ) by {
                assert(self.elems@[i]@ == self@[i]);
            }
        }
        iter::resolve_list(&self.elems)
    }
}

} // verus!
