//! Container shapes and how many elements each accepts.
use vstd::prelude::*;

use crate::error::ExtractError;
use nonempty::NonEmpty;
use std::collections::VecDeque;

verus! {

/// The list type of the `nonempty` crate: a head and a possibly empty tail.
#[verifier::external_type_specification]
#[verifier::reject_recursive_types(T)]
pub struct ExNonEmpty<T>(NonEmpty<T>);

/// Relies on `NonEmpty::from_vec`: `None` for an empty vector, otherwise the
/// first element as head and the rest, in order, as tail.
pub assume_specification<T>[ NonEmpty::<T>::from_vec ](vec: Vec<T>) -> (r: Option<NonEmpty<T>>)
    ensures
        r is None <==> vec@.len() == 0,
        r matches Some(ne) ==> ne.head == vec@[0] && ne.tail@ == vec@.drop_first(),
;

/// Relies on `<[T; N] as TryFrom<Vec<T>>>::try_from`, which succeeds when the
/// length is exactly `N` and keeps the elements in order.
#[verifier::external_body]
fn array_from_vec<T, const N: usize>(v: Vec<T>) -> (r: [T; N])
    requires
        v@.len() == N,
    ensures
        r@ == v@,
{
    <[T; N]>::try_from(v).ok().unwrap()
}

/// Exactly one element.
pub type Single<T> = [T; 1];

/// The error of the first failed item, in order, if any item failed.
pub open spec fn first_failure<T>(items: Seq<Result<T, ExtractError>>) -> Option<ExtractError>
    decreases items.len(),
{
    if items.len() == 0 {
        None
    } else {
        match first_failure(items.drop_last()) {
            Some(e) => Some(e),
            None => match items.last() {
                Err(e) => Some(e),
                Ok(_) => None,
            },
        }
    }
}

/// The values of the items, in order (meaningful when none failed).
pub open spec fn values<T>(items: Seq<Result<T, ExtractError>>) -> Seq<T> {
    items.map_values(|r: Result<T, ExtractError>| r->Ok_0)
}

/// Every item, in order, or the first failure.
pub open spec fn list_outcome<T>(items: Seq<Result<T, ExtractError>>) -> Result<Seq<T>, ExtractError> {
    match first_failure(items) {
        Some(e) => Err(e),
        None => Ok(values(items)),
    }
}

/// A failure in a prefix is the first failure of the whole sequence.
proof fn lemma_prefix_failure<T>(s: Seq<Result<T, ExtractError>>, k: int)
    requires
        0 <= k <= s.len(),
        first_failure(s.take(k)) is Some,
    ensures
        first_failure(s) == first_failure(s.take(k)),
    decreases s.len() - k,
{
    if k < s.len() {
        assert(s.take(k + 1).drop_last() =~= s.take(k));
        lemma_prefix_failure(s, k + 1);
    } else {
        assert(s.take(k) =~= s);
    }
}

/// The first element, if any; a failure of that first element is surfaced.
/// Later elements are not looked at: a second match is deliberately not an
/// error for an optional field.
pub open spec fn optional_outcome<T>(items: Seq<Result<T, ExtractError>>) -> Result<Seq<T>, ExtractError> {
    if items.len() == 0 {
        Ok(Seq::empty())
    } else {
        match items[0] {
            Ok(x) => Ok(seq![x]),
            Err(e) => Err(e),
        }
    }
}

/// Every item, in order, or the first failure; no item at all is a failure too.
pub open spec fn non_empty_outcome<T>(items: Seq<Result<T, ExtractError>>) -> Result<Seq<T>, ExtractError> {
    match list_outcome(items) {
        Err(e) => Err(e),
        Ok(s) => if s.len() == 0 {
            Err(ExtractError::EmptyCollection)
        } else {
            Ok(s)
        },
    }
}

/// Exactly `n` items: too few names the first missing position, a failure among
/// the first `n` comes next, and one item too many is refused last.
pub open spec fn fixed_outcome<T>(n: nat, items: Seq<Result<T, ExtractError>>) -> Result<Seq<T>, ExtractError> {
    if items.len() < n {
        Err(ExtractError::MissingElement { index: items.len() as usize })
    } else {
        match list_outcome(items.take(n as int)) {
            Err(e) => Err(e),
            Ok(s) => if items.len() > n {
                Err(ExtractError::ExtraElement)
            } else {
                Ok(s)
            },
        }
    }
}

/// A container shape filled from per-element results in document order. The
/// shape is the arity: how many elements it accepts and what it does with them.
pub trait TryCollectFrom<T>: Sized {
    /// The elements held, in order.
    spec fn elements(&self) -> Seq<T>;

    /// What this shape makes of a sequence of results.
    spec fn outcome(items: Seq<Result<T, ExtractError>>) -> Result<Seq<T>, ExtractError>;

    fn try_collect(items: Vec<Result<T, ExtractError>>) -> (r: Result<Self, ExtractError>)
        ensures
            Self::outcome(items@) == match r {
                Ok(c) => Ok(c.elements()),
                Err(e) => Err(e),
            },
    ;
}

impl<T> TryCollectFrom<T> for Vec<T> {
    open spec fn elements(&self) -> Seq<T> {
        self@
    }

    open spec fn outcome(items: Seq<Result<T, ExtractError>>) -> Result<Seq<T>, ExtractError> {
        list_outcome(items)
    }

    fn try_collect(items: Vec<Result<T, ExtractError>>) -> (r: Result<Self, ExtractError>) {
        collect_all(items)
    }
}

impl<T> TryCollectFrom<T> for VecDeque<T> {
    open spec fn elements(&self) -> Seq<T> {
        self@
    }

    open spec fn outcome(items: Seq<Result<T, ExtractError>>) -> Result<Seq<T>, ExtractError> {
        list_outcome(items)
    }

    fn try_collect(items: Vec<Result<T, ExtractError>>) -> (r: Result<Self, ExtractError>) {
        match collect_all(items) {
            Err(e) => Err(e),
            Ok(v) => {
                let ghost s = v@;
                let mut out: VecDeque<T> = VecDeque::new();
                for x in it: v
                    invariant
                        it.seq() == s,
                        out@ == s.take(it.index() as int),
                {
                    out.push_back(x);
                    assert(out@ =~= s.take(it.index() + 1));
                }
                assert(s.take(s.len() as int) =~= s);
                Ok(out)
            },
        }
    }
}

impl<T> TryCollectFrom<T> for Option<T> {
    open spec fn elements(&self) -> Seq<T> {
        match self {
            None => Seq::empty(),
            Some(x) => seq![*x],
        }
    }

    open spec fn outcome(items: Seq<Result<T, ExtractError>>) -> Result<Seq<T>, ExtractError> {
        optional_outcome(items)
    }

    fn try_collect(items: Vec<Result<T, ExtractError>>) -> (r: Result<Self, ExtractError>) {
        let mut items = items;
        if items.len() == 0 {
            Ok(None)
        } else {
            match items.remove(0) {
                Ok(x) => Ok(Some(x)),
                Err(e) => Err(e),
            }
        }
    }
}

impl<T> TryCollectFrom<T> for NonEmpty<T> {
    open spec fn elements(&self) -> Seq<T> {
        seq![self.head] + self.tail@
    }

    open spec fn outcome(items: Seq<Result<T, ExtractError>>) -> Result<Seq<T>, ExtractError> {
        non_empty_outcome(items)
    }

    fn try_collect(items: Vec<Result<T, ExtractError>>) -> (r: Result<Self, ExtractError>) {
        match collect_all(items) {
            Err(e) => Err(e),
            Ok(v) => {
                let ghost s = v@;
                match NonEmpty::from_vec(v) {
                    None => Err(ExtractError::EmptyCollection),
                    Some(ne) => {
                        assert(seq![ne.head] + ne.tail@ =~= s);
                        Ok(ne)
                    },
                }
            },
        }
    }
}

impl<T, const N: usize> TryCollectFrom<T> for [T; N] {
    open spec fn elements(&self) -> Seq<T> {
        self@
    }

    open spec fn outcome(items: Seq<Result<T, ExtractError>>) -> Result<Seq<T>, ExtractError> {
        fixed_outcome(N as nat, items)
    }

    fn try_collect(items: Vec<Result<T, ExtractError>>) -> (r: Result<Self, ExtractError>) {
        let len = items.len();
        if len < N {
            return Err(ExtractError::MissingElement { index: len });
        }
        let mut items = items;
        items.truncate(N);
        match collect_all(items) {
            Err(e) => Err(e),
            Ok(v) => if len > N {
                Err(ExtractError::ExtraElement)
            } else {
                Ok(array_from_vec(v))
            },
        }
    }
}

fn collect_all<T>(items: Vec<Result<T, ExtractError>>) -> (r: Result<Vec<T>, ExtractError>)
    ensures
        match (r, list_outcome(items@)) {
            (Ok(v), Ok(s)) => v@ == s,
            (Err(e), Err(f)) => e == f,
            _ => false,
        },
{
    let ghost all = items@;
    let mut out: Vec<T> = Vec::new();
    for item in it: items
        invariant
            it.seq() == all,
            first_failure(all.take(it.index() as int)) is None,
            out@ == values(all.take(it.index() as int)),
    {
        proof {
            assert(all.take(it.index() + 1).drop_last() =~= all.take(it.index() as int));
        }
        match item {
            Ok(v) => {
                out.push(v);
                assert(out@ =~= values(all.take(it.index() + 1)));
            },
            Err(e) => {
                proof {
                    lemma_prefix_failure(all, it.index() + 1);
                }
                return Err(e);
            },
        }
    }
    assert(all.take(all.len() as int) =~= all);
    Ok(out)
}

} // verus!
