use scraper::{ElementRef, Html};
use scraper_component::attribute::id_opt;
use scraper_component::collect::TryCollectFrom;
use scraper_component::{try_from_element, ExtractError, Field, NonEmpty, Single, TryFromElement};
use std::collections::VecDeque;

const HTML: &str = r#"
<!DOCTYPE html>
<body>
    <div class="item">Hello</div>
    <div class="item">Hi</div>
    <div class="item" id="cat">Meow</div>
</body>
"#;

#[derive(Debug, Clone, PartialEq)]
struct OptionalIdChild {
    text: String,
    id: Option<String>,
}

impl<'a> TryFromElement<'a> for OptionalIdChild {
    fn try_from_element(element: ElementRef<'a>) -> Result<Self, ExtractError> {
        let [text]: Single<String> =
            Field::on_self("OptionalIdChild", "text").extract(element, try_from_element::<String>)?;
        let [id]: Single<Option<String>> = Field::on_self("OptionalIdChild", "id").extract(element, id_opt)?;
        Ok(OptionalIdChild { text, id })
    }
}

#[derive(Clone, PartialEq)]
struct ExampleStruct {
    children_simple: [String; 3],
    children_via_struct: [OptionalIdChild; 3],
}

impl<'a> TryFromElement<'a> for ExampleStruct {
    fn try_from_element(element: ElementRef<'a>) -> Result<Self, ExtractError> {
        let children_simple = Field::new("ExampleStruct", "children_simple", "div.item")?
            .extract(element, try_from_element::<String>)?;
        let children_via_struct = Field::new("ExampleStruct", "children_via_struct", "div.item")?
            .extract(element, try_from_element::<OptionalIdChild>)?;
        Ok(ExampleStruct { children_simple, children_via_struct })
    }
}

fn items<C: TryCollectFrom<String>>(html: &Html, selector: &str) -> Result<C, ExtractError> {
    Field::new("Items", "items", selector)
        .unwrap()
        .extract(html.root_element(), try_from_element::<String>)
}

fn cause(e: &ExtractError) -> &ExtractError {
    match e {
        ExtractError::Field { cause, .. } => cause,
        other => panic!("not a field error: {other:?}"),
    }
}

#[test]
fn test_parses() {
    let html = Html::parse_fragment(HTML);
    let element: ExampleStruct = try_from_element(html.root_element()).unwrap();
    assert!(element.children_simple.eq(&["Hello", "Hi", "Meow"].map(ToOwned::to_owned)));
    assert!(element.children_via_struct.clone().eq(&[
        OptionalIdChild { text: "Hello".into(), id: None },
        OptionalIdChild { text: "Hi".into(), id: None },
        OptionalIdChild { text: "Meow".into(), id: Some("cat".into()) },
    ]));
}

#[test]
fn fixed_count_of_three_reads_texts_in_order() {
    let html = Html::parse_fragment(HTML);
    let r: [String; 3] = items(&html, "div.item").unwrap();
    assert_eq!(r, ["Hello", "Hi", "Meow"].map(String::from));
}

#[test]
fn fixed_count_of_four_is_missing_index_three() {
    let html = Html::parse_fragment(HTML);
    let e = items::<[String; 4]>(&html, "div.item").unwrap_err();
    assert_eq!(cause(&e), &ExtractError::MissingElement { index: 3 });
    assert!(e.message().contains("missing element at index 3"));
}

#[test]
fn fixed_count_of_two_finds_extra_element() {
    let html = Html::parse_fragment(HTML);
    let e = items::<[String; 2]>(&html, "div.item").unwrap_err();
    assert_eq!(cause(&e), &ExtractError::ExtraElement);
    assert!(e.message().contains("found extra element"));
}

#[test]
fn optional_attribute_present_and_absent() {
    let html = Html::parse_fragment(HTML);
    let field = Field::new("Ids", "ids", "div.item").unwrap();
    let ids: Vec<OptionalIdChild> = field.extract(html.root_element(), try_from_element::<OptionalIdChild>).unwrap();
    let ids: Vec<Option<String>> = ids.into_iter().map(|c| c.id).collect();
    assert_eq!(ids, vec![None, None, Some("cat".to_string())]);
}

#[test]
fn non_empty_list_of_nothing_fails() {
    let html = Html::parse_fragment(HTML);
    let e = items::<NonEmpty<String>>(&html, "span").unwrap_err();
    assert_eq!(cause(&e), &ExtractError::EmptyCollection);
    assert!(e.message().contains("expected at least one element"));
}

#[test]
fn non_empty_list_keeps_order() {
    let html = Html::parse_fragment(HTML);
    let r: NonEmpty<String> = items(&html, "div.item").unwrap();
    assert_eq!(r.head, "Hello");
    assert_eq!(r.tail, vec!["Hi".to_string(), "Meow".to_string()]);
}

#[test]
fn list_of_nothing_is_empty() {
    let html = Html::parse_fragment(HTML);
    let r: Vec<String> = items(&html, "span").unwrap();
    assert!(r.is_empty());
    let d: VecDeque<String> = items(&html, "div.item").unwrap();
    assert_eq!(d, VecDeque::from(vec!["Hello".to_string(), "Hi".to_string(), "Meow".to_string()]));
}

#[test]
fn optional_takes_first_match_or_none() {
    let html = Html::parse_fragment(HTML);
    let none: Option<String> = items(&html, "span").unwrap();
    assert_eq!(none, None);
    let first: Option<String> = items(&html, "div.item").unwrap();
    assert_eq!(first, Some("Hello".to_string()));
    let one: Option<String> = items(&html, "#cat").unwrap();
    assert_eq!(one, Some("Meow".to_string()));
}

#[test]
fn no_selector_reads_the_current_element() {
    let html = Html::parse_fragment("<p>a<b>b</b> c</p>");
    let [text]: Single<String> =
        Field::on_self("Para", "text").extract(html.root_element(), try_from_element::<String>).unwrap();
    assert_eq!(text, "ab c");
}

#[test]
fn failure_names_type_field_selector_and_html() {
    let html = Html::parse_fragment(HTML);
    let e = items::<[String; 2]>(&html, "div.item").unwrap_err();
    match &e {
        ExtractError::Field { owner, field, selector, html, .. } => {
            assert_eq!(owner, "Items");
            assert_eq!(field, "items");
            assert_eq!(selector, "div.item");
            assert!(html.contains(r#"<div class="item">Hello</div>"#));
        }
        other => panic!("unexpected {other:?}"),
    }
    assert!(e.message().starts_with("reading Items::items (selector: div.item) from:\n"));
}

#[test]
fn failure_without_selector_says_so() {
    let html = Html::parse_fragment("<p>x</p>");
    let e = Field::on_self("Para", "count")
        .extract::<_, Single<scraper_component::Parsed<u64>>, _>(html.root_element(), try_from_element)
        .unwrap_err();
    assert!(e.message().starts_with("reading Para::count (selector: <no-selector>) from:\n"));
    assert_eq!(
        cause(&e),
        &ExtractError::Parse { target: "u64".to_string(), text: "x".to_string() }
    );
}

#[test]
fn one_failed_mapping_fails_the_list() {
    let html = Html::parse_fragment("<i>1</i><i>x</i><i>3</i>");
    let field = Field::new("Numbers", "numbers", "i").unwrap();
    let e = field
        .extract::<_, Vec<scraper_component::Parsed<u64>>, _>(html.root_element(), try_from_element)
        .unwrap_err();
    assert_eq!(cause(&e), &ExtractError::Parse { target: "u64".to_string(), text: "x".to_string() });
    let ok: Vec<scraper_component::Parsed<u64>> = Field::new("Numbers", "numbers", "i:not(:nth-child(2))")
        .unwrap()
        .extract(html.root_element(), try_from_element)
        .unwrap();
    assert_eq!(ok, vec![scraper_component::Parsed(1), scraper_component::Parsed(3)]);
}

#[test]
fn invalid_selector_is_refused_at_construction() {
    match Field::new("T", "f", "div[") {
        Err(e) => {
            assert_eq!(e, ExtractError::SelectorSyntax { selector: "div[".to_string() });
            assert_eq!(e.message(), "invalid selector: div[");
        }
        Ok(_) => panic!("selector accepted"),
    }
}
