//! Mappers that read attributes.
use vstd::prelude::*;

use crate::dom::attr_of;
use crate::error::ExtractError;
use scraper::ElementRef;

verus! {

/// The value of the attribute `name`, or none when the element lacks it.
pub fn attr_opt<'a>(element: ElementRef<'a>, name: &str) -> (r: Result<Option<String>, ExtractError>)
    ensures
        r is Ok,
{
    Ok(attr_of(element, name))
}

/// The value of the `id` attribute, or none when the element lacks it.
pub fn id_opt<'a>(element: ElementRef<'a>) -> (r: Result<Option<String>, ExtractError>)
    ensures
        r is Ok,
{
    attr_opt(element, "id")
}

} // verus!
