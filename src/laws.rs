//! Properties that hold of every extraction.
use vstd::prelude::*;

use crate::collect::{
    first_failure, fixed_outcome, list_outcome, non_empty_outcome, optional_outcome, values,
    TryCollectFrom,
};
use crate::error::{message_of, ExtractError};
use crate::field::Field;
use nonempty::NonEmpty;
use scraper::ElementRef;

verus! {

/// Every item succeeded.
pub open spec fn all_ok<T>(items: Seq<Result<T, ExtractError>>) -> bool {
    forall|i: int| 0 <= i < items.len() ==> (#[trigger] items[i]) is Ok
}

proof fn lemma_all_ok_no_failure<T>(items: Seq<Result<T, ExtractError>>)
    requires
        all_ok(items),
    ensures
        first_failure(items) is None,
    decreases items.len(),
{
    if items.len() > 0 {
        assert(all_ok(items.drop_last()));
        lemma_all_ok_no_failure(items.drop_last());
        assert(items[items.len() - 1] is Ok);
    }
}

proof fn lemma_some_failure<T>(items: Seq<Result<T, ExtractError>>, k: int)
    requires
        0 <= k < items.len(),
        items[k] is Err,
    ensures
        first_failure(items) is Some,
    decreases items.len(),
{
    if k < items.len() - 1 {
        lemma_some_failure(items.drop_last(), k);
    }
}

/// Arity: with every element mapped successfully, a fixed count of `n` accepts
/// exactly `n` elements, an optional field accepts none or one (yielding what
/// there is), a non-empty list accepts one or more, and a list accepts any number.
pub proof fn arity_correctness<T>(n: nat, items: Seq<Result<T, ExtractError>>)
    requires
        all_ok(items),
    ensures
        fixed_outcome(n, items) is Ok <==> items.len() == n,
        items.len() <= 1 ==> optional_outcome(items) == Ok::<Seq<T>, ExtractError>(values(items)),
        non_empty_outcome(items) is Ok <==> items.len() >= 1,
        list_outcome(items) == Ok::<Seq<T>, ExtractError>(values(items)),
{
    lemma_all_ok_no_failure(items);
    if items.len() >= n {
        assert(all_ok(items.take(n as int)));
        lemma_all_ok_no_failure(items.take(n as int));
    }
    if items.len() == 1 {
        assert(values(items) =~= seq![items[0]->Ok_0]);
    }
    if items.len() == 0 {
        assert(values(items) =~= Seq::<T>::empty());
    }
}

/// Order: a list, a non-empty list or a fixed count that succeeds holds the
/// value of each item, in the order of the items.
pub proof fn order_preservation<T>(n: nat, items: Seq<Result<T, ExtractError>>)
    ensures
        list_outcome(items) matches Ok(s) ==> s.len() == items.len() && forall|i: int|
            0 <= i < items.len() ==> items[i] == Ok::<T, ExtractError>(#[trigger] s[i]),
        non_empty_outcome(items) matches Ok(s) ==> s.len() == items.len() && forall|i: int|
            0 <= i < items.len() ==> items[i] == Ok::<T, ExtractError>(#[trigger] s[i]),
        fixed_outcome(n, items) matches Ok(s) ==> s.len() == items.len() && forall|i: int|
            0 <= i < items.len() ==> items[i] == Ok::<T, ExtractError>(#[trigger] s[i]),
{
    assert forall|i: int| 0 <= i < items.len() && first_failure(items) is None implies (
    #[trigger] items[i]) is Ok by {
        if items[i] is Err {
            lemma_some_failure(items, i);
        }
    }
    if items.len() >= n {
        let t = items.take(n as int);
        assert forall|i: int| 0 <= i < t.len() && first_failure(t) is None implies (
        #[trigger] t[i]) is Ok by {
            if t[i] is Err {
                lemma_some_failure(t, i);
            }
        }
        if items.len() == n {
            assert(t =~= items);
        }
    }
}

/// Short-circuit: one failed item makes a list, a non-empty list and a fixed
/// count fail as a whole, with no partial result.
pub proof fn failure_short_circuit<T>(n: nat, items: Seq<Result<T, ExtractError>>, k: int)
    requires
        0 <= k < items.len(),
        items[k] is Err,
    ensures
        list_outcome(items) is Err,
        non_empty_outcome(items) is Err,
        fixed_outcome(n, items) is Err,
{
    lemma_some_failure(items, k);
    if items.len() == n {
        assert(items.take(n as int) =~= items);
    }
}

/// Arity of a field: when every candidate maps successfully, a field of fixed
/// count `N` succeeds exactly when `N` candidates matched.
pub proof fn field_fixed_count<'a, T, F, const N: usize>(
    field: Field,
    node: ElementRef<'a>,
    mapper: F,
    candidates: Seq<ElementRef<'a>>,
    mapped: Seq<Result<T, ExtractError>>,
    r: Result<[T; N], ExtractError>,
)
    where
        F: Fn(ElementRef<'a>) -> Result<T, ExtractError>,
    requires
        field.run(node, mapper, candidates, mapped, r),
        all_ok(mapped),
    ensures
        r is Ok <==> candidates.len() == N,
{
    arity_correctness(N as nat, mapped);
}

/// Order of a field: a list read by a field holds, at each position, what the
/// mapper made of the candidate at that position in document order.
pub proof fn field_list_order<'a, T, F>(
    field: Field,
    node: ElementRef<'a>,
    mapper: F,
    candidates: Seq<ElementRef<'a>>,
    mapped: Seq<Result<T, ExtractError>>,
    r: Result<Vec<T>, ExtractError>,
)
    where
        F: Fn(ElementRef<'a>) -> Result<T, ExtractError>,
    requires
        field.run(node, mapper, candidates, mapped, r),
    ensures
        r matches Ok(v) ==> v@.len() == candidates.len() && forall|i: int|
            0 <= i < candidates.len() ==> mapper.ensures((candidates[i],), Ok::<T, ExtractError>(#[trigger] v@[i])),
{
    order_preservation(0, mapped);
    if let Ok(v) = r {
        assert forall|i: int| 0 <= i < candidates.len() implies mapper.ensures(
            (candidates[i],),
            Ok::<T, ExtractError>(#[trigger] v@[i]),
        ) by {
            assert(mapper.ensures((candidates[i],), mapped[i]));
        }
    }
}

/// Order of a field: a non-empty list read by a field holds, at each position, what
/// the mapper made of the candidate at that position in document order.
pub proof fn field_non_empty_order<'a, T, F>(
    field: Field,
    node: ElementRef<'a>,
    mapper: F,
    candidates: Seq<ElementRef<'a>>,
    mapped: Seq<Result<T, ExtractError>>,
    r: Result<NonEmpty<T>, ExtractError>,
)
    where
        F: Fn(ElementRef<'a>) -> Result<T, ExtractError>,
    requires
        field.run(node, mapper, candidates, mapped, r),
    ensures
        r matches Ok(c) ==> c.elements().len() == candidates.len() && forall|i: int|
            0 <= i < candidates.len() ==> mapper.ensures(
                (candidates[i],),
                Ok::<T, ExtractError>(#[trigger] c.elements()[i]),
            ),
{
    order_preservation(0, mapped);
    if let Ok(c) = r {
        assert forall|i: int| 0 <= i < candidates.len() implies mapper.ensures(
            (candidates[i],),
            Ok::<T, ExtractError>(#[trigger] c.elements()[i]),
        ) by {
            assert(mapper.ensures((candidates[i],), mapped[i]));
        }
    }
}

/// Order of a field: a fixed-count array read by a field holds, at each position, what
/// the mapper made of the candidate at that position in document order.
pub proof fn field_fixed_order<'a, T, F, const N: usize>(
    field: Field,
    node: ElementRef<'a>,
    mapper: F,
    candidates: Seq<ElementRef<'a>>,
    mapped: Seq<Result<T, ExtractError>>,
    r: Result<[T; N], ExtractError>,
)
    where
        F: Fn(ElementRef<'a>) -> Result<T, ExtractError>,
    requires
        field.run(node, mapper, candidates, mapped, r),
    ensures
        r matches Ok(c) ==> c.elements().len() == candidates.len() && forall|i: int|
            0 <= i < candidates.len() ==> mapper.ensures(
                (candidates[i],),
                Ok::<T, ExtractError>(#[trigger] c.elements()[i]),
            ),
{
    order_preservation(N as nat, mapped);
    if let Ok(c) = r {
        assert forall|i: int| 0 <= i < candidates.len() implies mapper.ensures(
            (candidates[i],),
            Ok::<T, ExtractError>(#[trigger] c.elements()[i]),
        ) by {
            assert(mapper.ensures((candidates[i],), mapped[i]));
        }
    }
}

/// No selector: a field without one maps the current element, and only it.
pub proof fn no_selector_default<'a, T, C, F>(
    field: Field,
    node: ElementRef<'a>,
    mapper: F,
    candidates: Seq<ElementRef<'a>>,
    mapped: Seq<Result<T, ExtractError>>,
    r: Result<C, ExtractError>,
)
    where
        C: TryCollectFrom<T>,
        F: Fn(ElementRef<'a>) -> Result<T, ExtractError>,
    requires
        field.selector_view() is None,
        field.run(node, mapper, candidates, mapped, r),
    ensures
        candidates == seq![node],
        mapped.len() == 1,
        mapper.ensures((node,), mapped[0]),
{
}

/// Context: every failure of a field names the owning type and the field, and
/// the selector when there is one, both in its parts and in its message.
pub proof fn context_completeness<'a, T, C, F>(
    field: Field,
    node: ElementRef<'a>,
    mapper: F,
    candidates: Seq<ElementRef<'a>>,
    mapped: Seq<Result<T, ExtractError>>,
    r: Result<C, ExtractError>,
)
    where
        C: TryCollectFrom<T>,
        F: Fn(ElementRef<'a>) -> Result<T, ExtractError>,
    requires
        field.run(node, mapper, candidates, mapped, r),
    ensures
        r matches Err(e) ==> {
            &&& e matches ExtractError::Field { owner, field: name, selector, .. }
            &&& owner@ == field.owner_view()
            &&& name@ == field.name_view()
            &&& field.selector_view() matches Some(s) ==> selector@ == s
            &&& ("reading "@ + field.owner_view() + "::"@ + field.name_view() + " (selector: "@
                + field.selector_label()).is_prefix_of(message_of(e))
        },
{
    if let Err(e) = r {
        if let ExtractError::Field { owner, field: name, selector, html, cause } = e {
            let p = "reading "@ + owner@ + "::"@ + name@ + " (selector: "@ + selector@;
            let rest = ") from:\n"@ + html@ + "\ncaused by: "@ + message_of(*cause);
            assert(message_of(e) =~= p + rest);
            assert(p.is_prefix_of(p + rest)) by {
                assert((p + rest).take(p.len() as int) =~= p);
            }
        }
    }
}

} // verus!
