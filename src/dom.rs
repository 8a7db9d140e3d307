//! The document collaborator: `scraper`'s element handles and selectors.
use vstd::prelude::*;

use scraper::error::SelectorErrorKind;
use scraper::{ElementRef, Selector};

verus! {

/// A handle on an element of a parsed document.
#[verifier::external_type_specification]
#[verifier::external_body]
pub struct ExElementRef<'a>(ElementRef<'a>);

/// A compiled CSS selector group.
#[verifier::external_type_specification]
#[verifier::external_body]
pub struct ExSelector(Selector);

/// Why a selector string was refused.
#[verifier::external_type_specification]
#[verifier::external_body]
pub struct ExSelectorErrorKind<'a>(SelectorErrorKind<'a>);

/// Whether `scraper` accepts the text as a CSS selector group.
pub uninterp spec fn selector_accepted(text: Seq<char>) -> bool;

/// Relies on `Selector::parse`: whether it succeeds depends on the text alone.
pub assume_specification<'a>[ Selector::parse ](selectors: &'a str) -> (r: Result<
    Selector,
    SelectorErrorKind<'a>,
>)
    ensures
        r is Ok <==> selector_accepted(selectors@),
;

/// Relies on `ElementRef::select`: the descendants of `scope` that match, in
/// document order.
#[verifier::external_body]
pub(crate) fn select_in<'a>(scope: ElementRef<'a>, selector: &Selector) -> Vec<ElementRef<'a>> {
    scope.select(selector).collect()
}

/// Relies on `ElementRef::text`: the descendant text nodes, joined in document order.
#[verifier::external_body]
pub(crate) fn text_of<'a>(element: ElementRef<'a>) -> String {
    element.text().collect()
}

/// Relies on `ElementRef::html`: the serialized HTML of the element.
#[verifier::external_body]
pub(crate) fn html_of<'a>(element: ElementRef<'a>) -> String {
    element.html()
}

/// Relies on `ElementRef::attr`: the value of the named attribute, if present.
#[verifier::external_body]
pub(crate) fn attr_of<'a>(element: ElementRef<'a>, name: &str) -> Option<String> {
    element.attr(name).map(String::from)
}

} // verus!
