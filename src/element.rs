//! Values built from a single element.
use vstd::prelude::*;

use crate::dom::text_of;
use crate::error::ExtractError;
use scraper::ElementRef;

verus! {

/// A type whose values can be built from one element of a document.
pub trait TryFromElement<'a>: Sized {
    /// What holds of `r` when it was built from `element`; a type that states
    /// nothing keeps this default.
    open spec fn extracted(element: ElementRef<'a>, r: Result<Self, ExtractError>) -> bool {
        true
    }

    fn try_from_element(element: ElementRef<'a>) -> (r: Result<Self, ExtractError>)
        ensures
            Self::extracted(element, r),
    ;
}

/// Builds a `T` from `element`: the default mapper of a field, which behaves
/// as `T`'s own conversion.
pub fn try_from_element<'a, T: TryFromElement<'a>>(element: ElementRef<'a>) -> (r: Result<T, ExtractError>)
    ensures
        T::extracted(element, r),
{
    T::try_from_element(element)
}

/// The element itself, for processing downstream.
impl<'a> TryFromElement<'a> for ElementRef<'a> {
    open spec fn extracted(element: ElementRef<'a>, r: Result<Self, ExtractError>) -> bool {
        r == Ok::<ElementRef<'a>, ExtractError>(element)
    }

    fn try_from_element(element: ElementRef<'a>) -> (r: Result<Self, ExtractError>) {
        Ok(element)
    }
}

/// The text of the element: every descendant text node, joined in document
/// order, neither trimmed nor normalized.
impl<'a> TryFromElement<'a> for String {
    open spec fn extracted(element: ElementRef<'a>, r: Result<Self, ExtractError>) -> bool {
        r is Ok
    }

    fn try_from_element(element: ElementRef<'a>) -> (r: Result<Self, ExtractError>) {
        Ok(text_of(element))
    }
}

} // verus!
