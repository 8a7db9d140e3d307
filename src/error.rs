//! Extraction failures and their messages.
use vstd::prelude::*;

verus! {

/// What went wrong while extracting a value from a document.
#[derive(Debug, PartialEq)]
pub enum ExtractError {
    /// A selector string is not a valid CSS selector.
    SelectorSyntax { selector: String },
    /// Fewer elements matched than the field's fixed count: the first missing position.
    MissingElement { index: usize },
    /// More elements matched than the field's fixed count.
    ExtraElement,
    /// A field that needs at least one element matched none.
    EmptyCollection,
    /// The text of an element is not a value of the target type.
    Parse { target: String, text: String },
    /// The trimmed text of an element is not the expected literal.
    Mismatch { expected: String, found: String },
    /// A failure while reading one field: the owning type, the field, its selector
    /// (or `<no-selector>`), the HTML of the element being read, and the cause.
    Field { owner: String, field: String, selector: String, html: String, cause: Box<ExtractError> },
}

/// The character of a decimal digit.
pub open spec fn digit_char(d: nat) -> char {
    if d == 0 {
        '0'
    } else if d == 1 {
        '1'
    } else if d == 2 {
        '2'
    } else if d == 3 {
        '3'
    } else if d == 4 {
        '4'
    } else if d == 5 {
        '5'
    } else if d == 6 {
        '6'
    } else if d == 7 {
        '7'
    } else if d == 8 {
        '8'
    } else {
        '9'
    }
}

/// The decimal notation of `n`, without leading zeros.
pub open spec fn decimal(n: nat) -> Seq<char>
    decreases n,
{
    if n < 10 {
        seq![digit_char(n)]
    } else {
        decimal(n / 10) + seq![digit_char(n % 10)]
    }
}

/// The human-readable message of an error, causes included.
pub open spec fn message_of(e: ExtractError) -> Seq<char>
    decreases e,
{
    match e {
        ExtractError::SelectorSyntax { selector } => "invalid selector: "@ + selector@,
        ExtractError::MissingElement { index } => "missing element at index "@ + decimal(index as nat),
        ExtractError::ExtraElement => "found extra element"@,
        ExtractError::EmptyCollection => "expected at least one element"@,
        ExtractError::Parse { target, text } => "could not parse "@ + text@ + " into ["@ + target@ + "]"@,
        ExtractError::Mismatch { expected, found } => "expected "@ + expected@ + ", found "@ + found@,
        ExtractError::Field { owner, field, selector, html, cause } => "reading "@ + owner@ + "::"@
            + field@ + " (selector: "@ + selector@ + ") from:\n"@ + html@ + "\ncaused by: "@
            + message_of(*cause),
    }
}

fn digit_text(d: usize) -> (r: &'static str)
    requires
        d < 10,
    ensures
        r@ == seq![digit_char(d as nat)],
{
    proof {
        reveal_strlit("0");
        reveal_strlit("1");
        reveal_strlit("2");
        reveal_strlit("3");
        reveal_strlit("4");
        reveal_strlit("5");
        reveal_strlit("6");
        reveal_strlit("7");
        reveal_strlit("8");
        reveal_strlit("9");
    }
    if d == 0 {
        "0"
    } else if d == 1 {
        "1"
    } else if d == 2 {
        "2"
    } else if d == 3 {
        "3"
    } else if d == 4 {
        "4"
    } else if d == 5 {
        "5"
    } else if d == 6 {
        "6"
    } else if d == 7 {
        "7"
    } else if d == 8 {
        "8"
    } else {
        "9"
    }
}

/// Decimal notation of a position.
pub fn decimal_text(n: usize) -> (r: String)
    ensures
        r@ == decimal(n as nat),
    decreases n,
{
    if n < 10 {
        String::from_str(digit_text(n))
    } else {
        let mut s = decimal_text(n / 10);
        s.append(digit_text(n % 10));
        s
    }
}

impl ExtractError {
    /// The message, with each layer of context followed by its cause.
    pub fn message(&self) -> (r: String)
        ensures
            r@ == message_of(*self),
        decreases self,
    {
        match self {
            ExtractError::SelectorSyntax { selector } => {
                let mut s = String::from_str("invalid selector: ");
                s.append(selector.as_str());
                s
            },
            ExtractError::MissingElement { index } => {
                let mut s = String::from_str("missing element at index ");
                let d = decimal_text(*index);
                s.append(d.as_str());
                s
            },
            ExtractError::ExtraElement => String::from_str("found extra element"),
            ExtractError::EmptyCollection => String::from_str("expected at least one element"),
            ExtractError::Parse { target, text } => {
                let mut s = String::from_str("could not parse ");
                s.append(text.as_str());
                s.append(" into [");
                s.append(target.as_str());
                s.append("]");
                s
            },
            ExtractError::Mismatch { expected, found } => {
                let mut s = String::from_str("expected ");
                s.append(expected.as_str());
                s.append(", found ");
                s.append(found.as_str());
                s
            },
            ExtractError::Field { owner, field, selector, html, cause } => {
                let mut s = String::from_str("reading ");
                s.append(owner.as_str());
                s.append("::");
                s.append(field.as_str());
                s.append(" (selector: ");
                s.append(selector.as_str());
                s.append(") from:\n");
                s.append(html.as_str());
                s.append("\ncaused by: ");
                let c = cause.message();
                s.append(c.as_str());
                s
            },
        }
    }
}

} // verus!
