//! Declarative extraction of typed values from an HTML document.
//!
//! A composite type is read field by field. Each [`field::Field`] names the
//! elements its value comes from (a CSS selector, or the current element), maps
//! each of them to a value, and hands the results to a container shape
//! ([`collect::TryCollectFrom`]) that enforces how many are expected. Failures
//! carry the owning type, the field, the selector and the element's HTML.
use vstd::prelude::*;

pub mod attribute;
pub mod collect;
pub mod dom;
pub mod element;
pub mod error;
pub mod field;
pub mod laws;
pub mod scalar;

pub use collect::{Single, TryCollectFrom};
pub use element::{try_from_element, TryFromElement};
pub use error::ExtractError;
pub use field::Field;
pub use nonempty::NonEmpty;
pub use scalar::{Hardcoded, Parsed};
pub use scraper;
