//! Field descriptors and field resolution.
use vstd::prelude::*;

use crate::collect::TryCollectFrom;
use crate::dom::{html_of, select_in, selector_accepted};
use crate::error::ExtractError;
use scraper::{ElementRef, Selector};

verus! {

/// Applies `mapper` to each node, in order.
pub fn map_nodes<'a, T, F>(nodes: Vec<ElementRef<'a>>, mapper: &F) -> (r: Vec<Result<T, ExtractError>>)
    where
        F: Fn(ElementRef<'a>) -> Result<T, ExtractError>,
    requires
        forall|e: ElementRef<'a>| mapper.requires((e,)),
    ensures
        r@.len() == nodes@.len(),
        forall|i: int| 0 <= i < nodes@.len() ==> mapper.ensures((nodes@[i],), #[trigger] r@[i]),
{
    let mut out: Vec<Result<T, ExtractError>> = Vec::new();
    let mut i: usize = 0;
    while i < nodes.len()
        invariant
            i <= nodes@.len(),
            out@.len() == i,
            forall|e: ElementRef<'a>| mapper.requires((e,)),
            forall|j: int| 0 <= j < i ==> mapper.ensures((nodes@[j],), #[trigger] out@[j]),
        decreases nodes@.len() - i,
    {
        let m = mapper(nodes[i]);
        out.push(m);
        i = i + 1;
    }
    out
}

/// One field of a composite type: where its value is found in the current
/// element, and under which names failures are reported.
pub struct Field {
    owner: String,
    name: String,
    selector: Option<(String, Selector)>,
}

impl Field {
    /// The name of the type that owns the field.
    pub closed spec fn owner_view(&self) -> Seq<char> {
        self.owner@
    }

    /// The name of the field.
    pub closed spec fn name_view(&self) -> Seq<char> {
        self.name@
    }

    /// The selector text; none means the current element itself.
    pub closed spec fn selector_view(&self) -> Option<Seq<char>> {
        match self.selector {
            Some((text, _)) => Some(text@),
            None => None,
        }
    }

    /// The selector as failures report it.
    pub open spec fn selector_label(&self) -> Seq<char> {
        match self.selector_view() {
            Some(text) => text,
            None => "<no-selector>"@,
        }
    }

    /// `e` reports `cause` in the context of this field.
    pub open spec fn frames(&self, e: ExtractError, cause: ExtractError) -> bool {
        &&& e matches ExtractError::Field { owner, field, selector, cause: c, .. }
        &&& owner@ == self.owner_view()
        &&& field@ == self.name_view()
        &&& selector@ == self.selector_label()
        &&& *c == cause
    }

    /// `r` is what the shape `C` makes of `mapped`, a failure put in the context
    /// of this field.
    pub open spec fn resolves<T, C: TryCollectFrom<T>>(
        &self,
        mapped: Seq<Result<T, ExtractError>>,
        r: Result<C, ExtractError>,
    ) -> bool {
        match (r, C::outcome(mapped)) {
            (Ok(c), Ok(s)) => c.elements() == s,
            (Err(e), Err(cause)) => self.frames(e, cause),
            _ => false,
        }
    }

    /// A field read from the current element itself.
    pub fn on_self(owner: &str, name: &str) -> (r: Field)
        ensures
            r.owner_view() == owner@,
            r.name_view() == name@,
            r.selector_view() is None,
    {
        Field { owner: String::from_str(owner), name: String::from_str(name), selector: None }
    }

    /// A field read from the descendants that match `selector`. The selector is
    /// checked here, once, not on each extraction.
    pub fn new(owner: &str, name: &str, selector: &str) -> (r: Result<Field, ExtractError>)
        ensures
            r is Ok <==> selector_accepted(selector@),
            r matches Ok(f) ==> f.owner_view() == owner@ && f.name_view() == name@ && f.selector_view()
                == Some(selector@),
            r matches Err(e) ==> (e matches ExtractError::SelectorSyntax { selector: s } && s@
                == selector@),
    {
        match Selector::parse(selector) {
            Ok(compiled) => Ok(
                Field {
                    owner: String::from_str(owner),
                    name: String::from_str(name),
                    selector: Some((String::from_str(selector), compiled)),
                },
            ),
            Err(_) => Err(ExtractError::SelectorSyntax { selector: String::from_str(selector) }),
        }
    }

    /// Puts `cause` in the context of this field, read from `node`.
    pub fn in_context<'a>(&self, node: ElementRef<'a>, cause: ExtractError) -> (r: ExtractError)
        ensures
            self.frames(r, cause),
    {
        let selector = match &self.selector {
            Some((text, _)) => text.clone(),
            None => String::from_str("<no-selector>"),
        };
        ExtractError::Field {
            owner: self.owner.clone(),
            field: self.name.clone(),
            selector,
            html: html_of(node),
            cause: Box::new(cause),
        }
    }

    /// Shapes the mapped candidates of `node` into `C`.
    pub fn resolve<'a, T, C: TryCollectFrom<T>>(
        &self,
        node: ElementRef<'a>,
        mapped: Vec<Result<T, ExtractError>>,
    ) -> (r: Result<C, ExtractError>)
        ensures
            self.resolves(mapped@, r),
    {
        match C::try_collect(mapped) {
            Ok(c) => Ok(c),
            Err(cause) => Err(self.in_context(node, cause)),
        }
    }

    /// The candidate elements: the matches of the selector below `node`, or
    /// `node` alone when there is no selector.
    pub fn candidates<'a>(&self, node: ElementRef<'a>) -> (r: Vec<ElementRef<'a>>)
        ensures
            self.selector_view() is None ==> r@ == seq![node],
    {
        match &self.selector {
            Some((_, compiled)) => select_in(node, compiled),
            None => vec![node],
        }
    }

    /// One run of this field on `node`: the candidates, each mapped on its own,
    /// in order, and shaped into `r`.
    pub open spec fn run<'a, T, C: TryCollectFrom<T>, F: Fn(ElementRef<'a>) -> Result<T, ExtractError>>(
        &self,
        node: ElementRef<'a>,
        mapper: F,
        candidates: Seq<ElementRef<'a>>,
        mapped: Seq<Result<T, ExtractError>>,
        r: Result<C, ExtractError>,
    ) -> bool {
        &&& self.selector_view() is None ==> candidates == seq![node]
        &&& mapped.len() == candidates.len()
        &&& forall|i: int| 0 <= i < candidates.len() ==> mapper.ensures((candidates[i],), #[trigger] mapped[i])
        &&& self.resolves(mapped, r)
    }

    /// Reads this field from `node`: each candidate goes through `mapper`, and the
    /// shape `C` decides how many candidates are accepted.
    pub fn extract<'a, T, C, F>(&self, node: ElementRef<'a>, mapper: F) -> (r: Result<C, ExtractError>)
        where
            C: TryCollectFrom<T>,
            F: Fn(ElementRef<'a>) -> Result<T, ExtractError>,
        requires
            forall|e: ElementRef<'a>| mapper.requires((e,)),
        ensures
            exists|candidates: Seq<ElementRef<'a>>, mapped: Seq<Result<T, ExtractError>>|
                #[trigger] self.run(node, mapper, candidates, mapped, r),
    {
        let candidates = self.candidates(node);
        let ghost cands = candidates@;
        let mapped = map_nodes(candidates, &mapper);
        let ghost ms = mapped@;
        let r = self.resolve(node, mapped);
        assert(self.run(node, mapper, cands, ms, r));
        r
    }
}

} // verus!
