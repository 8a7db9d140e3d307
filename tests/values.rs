use scraper::Html;
use scraper_component::attribute::{attr_opt, id_opt};
use scraper_component::collect::TryCollectFrom;
use scraper_component::error::decimal_text;
use scraper_component::{ExtractError, Hardcoded, NonEmpty, Parsed, Single, TryFromElement};

fn mismatch(expected: &str, found: &str) -> ExtractError {
    ExtractError::Mismatch { expected: expected.to_string(), found: found.to_string() }
}

#[test]
fn hardcoded_compares_trimmed_text() {
    assert_eq!(Hardcoded::from_text("N/A", "  N/A\n"), Ok(Hardcoded { expected: "N/A".to_string() }));
    assert_eq!(Hardcoded::from_text("N/A", "NA"), Err(mismatch("N/A", "NA")));
    assert_eq!(Hardcoded::from_text("N/A", " n/a "), Err(mismatch("N/A", " n/a ")));
    assert_eq!(mismatch("N/A", "NA").message(), "expected N/A, found NA");
}

#[test]
fn hardcoded_from_element() {
    let html = Html::parse_fragment("<td> N/A </td>");
    let root = html.root_element();
    assert!(Hardcoded::try_from_element("N/A", root).is_ok());
    assert!(Hardcoded::try_from_element("-", root).is_err());
}

#[test]
fn parsed_integers() {
    assert_eq!(Parsed::<u64>::from_text("42"), Ok(Parsed(42)));
    assert_eq!(Parsed::<u64>::from_text("+7"), Ok(Parsed(7)));
    assert_eq!(Parsed::<u32>::from_text("4294967295"), Ok(Parsed(u32::MAX)));
    assert!(Parsed::<u32>::from_text("4294967296").is_err());
    assert_eq!(Parsed::<i32>::from_text("-12"), Ok(Parsed(-12)));
    assert_eq!(Parsed::<i64>::from_text("-9223372036854775808"), Ok(Parsed(i64::MIN)));
    assert_eq!(
        Parsed::<u64>::from_text("-1"),
        Err(ExtractError::Parse { target: "u64".to_string(), text: "-1".to_string() })
    );
    assert!(Parsed::<i64>::from_text(" 5").is_err());
    assert!(Parsed::<i32>::from_text("").is_err());
    assert_eq!(
        ExtractError::Parse { target: "u64".to_string(), text: "x".to_string() }.message(),
        "could not parse x into [u64]"
    );
}

#[test]
fn parsed_from_element_uses_full_text() {
    let html = Html::parse_fragment("<b>1</b><b>2</b>");
    let r = Parsed::<u64>::try_from_element(html.root_element());
    assert_eq!(r, Ok(Parsed(12)));
}

#[test]
fn attributes_present_or_absent() {
    let html = Html::parse_fragment(r#"<a href="/x">y</a>"#);
    let a = html.select(&scraper::Selector::parse("a").unwrap()).next().unwrap();
    assert_eq!(attr_opt(a, "href"), Ok(Some("/x".to_string())));
    assert_eq!(attr_opt(a, "title"), Ok(None));
    assert_eq!(id_opt(a), Ok(None));
}

#[test]
fn collectors_on_results() {
    let ok = |s: &str| Ok::<String, ExtractError>(s.to_string());
    assert_eq!(Vec::<String>::try_collect(vec![ok("a"), ok("b")]), Ok(vec!["a".to_string(), "b".to_string()]));
    assert_eq!(
        Vec::<String>::try_collect(vec![ok("a"), Err(ExtractError::ExtraElement), Err(ExtractError::EmptyCollection)]),
        Err(ExtractError::ExtraElement)
    );
    assert_eq!(Option::<String>::try_collect(vec![]), Ok(None));
    assert_eq!(Option::<String>::try_collect(vec![Err(ExtractError::ExtraElement), ok("b")]), Err(ExtractError::ExtraElement));
    assert_eq!(Option::<String>::try_collect(vec![ok("a"), Err(ExtractError::ExtraElement)]), Ok(Some("a".to_string())));
    assert_eq!(NonEmpty::<String>::try_collect(vec![]), Err(ExtractError::EmptyCollection));
    assert_eq!(
        NonEmpty::<String>::try_collect(vec![Err(ExtractError::ExtraElement)]),
        Err(ExtractError::ExtraElement)
    );
    assert_eq!(Single::<String>::try_collect(vec![ok("a")]), Ok(["a".to_string()]));
    assert_eq!(Single::<String>::try_collect(vec![]), Err(ExtractError::MissingElement { index: 0 }));
    // a missing position is reported before a failed element
    assert_eq!(
        <[String; 3]>::try_collect(vec![Err(ExtractError::ExtraElement), ok("b")]),
        Err(ExtractError::MissingElement { index: 2 })
    );
    // a failed element among the first ones is reported before an extra one
    assert_eq!(
        <[String; 2]>::try_collect(vec![ok("a"), Err(ExtractError::EmptyCollection), ok("c")]),
        Err(ExtractError::EmptyCollection)
    );
    assert_eq!(
        <[String; 2]>::try_collect(vec![ok("a"), ok("b"), Err(ExtractError::EmptyCollection)]),
        Err(ExtractError::ExtraElement)
    );
}

#[test]
fn messages() {
    assert_eq!(ExtractError::MissingElement { index: 3 }.message(), "missing element at index 3");
    assert_eq!(ExtractError::MissingElement { index: 120 }.message(), "missing element at index 120");
    assert_eq!(ExtractError::ExtraElement.message(), "found extra element");
    assert_eq!(ExtractError::EmptyCollection.message(), "expected at least one element");
    let e = ExtractError::Field {
        owner: "T".to_string(),
        field: "f".to_string(),
        selector: "p".to_string(),
        html: "<p></p>".to_string(),
        cause: Box::new(ExtractError::ExtraElement),
    };
    assert_eq!(e.message(), "reading T::f (selector: p) from:\n<p></p>\ncaused by: found extra element");
}

#[test]
fn decimal_notation() {
    assert_eq!(decimal_text(0), "0");
    assert_eq!(decimal_text(7), "7");
    assert_eq!(decimal_text(10), "10");
    assert_eq!(decimal_text(1234567890), "1234567890");
}

#[test]
fn parsed_other_scalars() {
    assert_eq!(Parsed::<u8>::from_text("255"), Ok(Parsed(255u8)));
    assert!(Parsed::<u8>::from_text("256").is_err());
    assert_eq!(Parsed::<u16>::from_text("+65535"), Ok(Parsed(u16::MAX)));
    assert_eq!(Parsed::<usize>::from_text("007"), Ok(Parsed(7usize)));
    assert_eq!(Parsed::<i8>::from_text("-128"), Ok(Parsed(i8::MIN)));
    assert!(Parsed::<i8>::from_text("128").is_err());
    assert_eq!(Parsed::<i16>::from_text("-0"), Ok(Parsed(0i16)));
    assert_eq!(Parsed::<isize>::from_text("-5"), Ok(Parsed(-5isize)));
    assert_eq!(Parsed::<bool>::from_text("true"), Ok(Parsed(true)));
    assert_eq!(Parsed::<bool>::from_text("false"), Ok(Parsed(false)));
    assert_eq!(
        Parsed::<bool>::from_text("True"),
        Err(ExtractError::Parse { target: "bool".to_string(), text: "True".to_string() })
    );
    assert_eq!(Parsed::<char>::from_text("é"), Ok(Parsed('é')));
    assert!(Parsed::<char>::from_text("ab").is_err());
    assert!(Parsed::<char>::from_text("").is_err());
}

#[test]
fn hardcoded_trims_unicode_white_space() {
    assert!(Hardcoded::from_text("N/A", "\u{3000}N/A\u{a0}\t").is_ok());
    assert!(Hardcoded::from_text("N/A", "\u{200b}N/A").is_err());
}
