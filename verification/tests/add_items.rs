use zot::add::{
    csl_date_string, doi_item, html_title, isbn_item, looks_like_inline_json, normalize_add_json_input,
    resolve_add_json_source, url_item, url_page_title, AddJsonSource,
};
use zot::add_metadata::apply_add_metadata;
use zot::date::{civil_from_days, utc_date_from_unix_seconds};
use zot::json::JsonValue;
use zot::update::{build_update_patch, UpdatePatchInput};

fn s(v: &str) -> JsonValue {
    JsonValue::Str(v.to_owned())
}

fn obj(members: Vec<(&str, JsonValue)>) -> JsonValue {
    JsonValue::Object(members.into_iter().map(|(k, v)| (k.to_owned(), v)).collect())
}

fn field<'a>(v: &'a JsonValue, key: &str) -> &'a JsonValue {
    v.get(key).expect("field")
}

#[test]
fn extracts_html_title() {
    let html = "<html><head><title> Example Title </title></head></html>";
    assert_eq!(html_title(html).as_deref(), Some("Example Title"));
}

#[test]
fn formats_csl_date_parts() {
    let value = obj(vec![(
        "date-parts",
        JsonValue::Array(vec![JsonValue::Array(vec![JsonValue::Int(2024), JsonValue::Int(4), JsonValue::Int(5)])]),
    )]);
    assert_eq!(csl_date_string(&value).as_deref(), Some("2024-04-05"));
}

#[test]
fn converts_unix_days_to_date() {
    assert_eq!(civil_from_days(0), (1970, 1, 1));
}

#[test]
fn applies_add_collections_and_tags() {
    let mut item = obj(vec![("itemType", s("webpage")), ("title", s("Example"))]);

    apply_add_metadata(&mut item, &["COLL1234".to_owned()], &["neuroscience".to_owned()]);

    assert!(field(&item, "collections").equals(&JsonValue::Array(vec![s("COLL1234")])));
    assert!(field(&item, "tags").equals(&JsonValue::Array(vec![obj(vec![("tag", s("neuroscience"))])])));
}

#[test]
fn merges_add_metadata_with_existing_json_fields() {
    let mut item = obj(vec![
        ("itemType", s("webpage")),
        ("collections", JsonValue::Array(vec![s("EXISTING")])),
        ("tags", JsonValue::Array(vec![obj(vec![("tag", s("existing"))])])),
    ]);

    apply_add_metadata(
        &mut item,
        &["EXISTING".to_owned(), "NEW".to_owned()],
        &["existing".to_owned(), "new".to_owned()],
    );

    assert!(field(&item, "collections").equals(&JsonValue::Array(vec![s("EXISTING"), s("NEW")])));
    assert!(field(&item, "tags").equals(&JsonValue::Array(vec![
        obj(vec![("tag", s("existing"))]),
        obj(vec![("tag", s("new"))]),
    ])));
}

#[test]
fn builds_update_patch_from_fields() {
    let patch = build_update_patch(UpdatePatchInput {
        title: Some("New title"),
        url: Some("https://example.com/new"),
        tags: &["zot-live-test".to_owned()],
        clear_tags: false,
        collections: &[],
        clear_collections: true,
    })
    .expect("patch");

    assert_eq!(field(&patch, "title").as_str(), Some("New title"));
    assert_eq!(field(&patch, "url").as_str(), Some("https://example.com/new"));
    assert!(field(&patch, "tags").equals(&JsonValue::Array(vec![obj(vec![("tag", s("zot-live-test"))])])));
    assert!(field(&patch, "collections").equals(&JsonValue::Array(vec![])));
}

#[test]
fn rejects_empty_update_patch() {
    let err = build_update_patch(UpdatePatchInput {
        title: None,
        url: None,
        tags: &[],
        clear_tags: false,
        collections: &[],
        clear_collections: false,
    })
    .expect_err("empty patch");

    assert!(err.message().contains("no update fields"));
}

#[test]
fn normalizes_single_item_json_array() {
    let item = normalize_add_json_input(JsonValue::Array(vec![obj(vec![("itemType", s("webpage"))])])).expect("item");
    assert_eq!(field(&item, "itemType").as_str(), Some("webpage"));
}

#[test]
fn rejects_multi_item_json_array() {
    let err = normalize_add_json_input(JsonValue::Array(vec![
        obj(vec![("itemType", s("webpage"))]),
        obj(vec![("itemType", s("book"))]),
    ]))
    .expect_err("should reject multi-item arrays");
    assert!(err.message().contains("exactly one object"));
}

#[test]
fn detects_inline_json() {
    assert!(looks_like_inline_json("{\"itemType\":\"webpage\"}"));
    assert!(looks_like_inline_json("[{\"itemType\":\"webpage\"}]"));
    assert!(!looks_like_inline_json("item.json"));
}

#[test]
fn json_input_follows_the_resolution_order() {
    let inline = "{\"itemType\":\"webpage\",\"title\":\"Inline\"}";
    assert_eq!(resolve_add_json_source(Some(inline), "item.json", true), AddJsonSource::Inline(inline));
    assert_eq!(resolve_add_json_source(None, "-", true), AddJsonSource::Stdin);
    assert_eq!(resolve_add_json_source(None, "[draft].json", true), AddJsonSource::File("[draft].json"));
    assert_eq!(resolve_add_json_source(None, "  [{}]", false), AddJsonSource::Inline("  [{}]"));
    assert_eq!(resolve_add_json_source(None, "item.json", false), AddJsonSource::File("item.json"));
}

#[test]
fn rejects_json_that_is_not_an_item() {
    let err = normalize_add_json_input(JsonValue::Str("x".to_owned())).expect_err("not an item");
    assert_eq!(err.message(), "JSON input must be a Zotero item object or a single-item array");
    let err = normalize_add_json_input(JsonValue::Array(vec![s("x")])).expect_err("not an object");
    assert!(err.message().contains("exactly one object"));
}

#[test]
fn formats_dates_with_padding() {
    assert_eq!(civil_from_days(19_818), (2024, 4, 5));
    assert_eq!(civil_from_days(-1), (1969, 12, 31));
    assert_eq!(civil_from_days(11_016), (2000, 2, 29));
    assert_eq!(utc_date_from_unix_seconds(0), "1970-01-01");
    assert_eq!(utc_date_from_unix_seconds(1_712_300_000), "2024-04-05");
    assert_eq!(utc_date_from_unix_seconds(-1), "1969-12-31");
    let month_only = obj(vec![(
        "date-parts",
        JsonValue::Array(vec![JsonValue::Array(vec![JsonValue::Int(1999), JsonValue::Int(12)])]),
    )]);
    assert_eq!(csl_date_string(&month_only).as_deref(), Some("1999-12"));
    assert_eq!(csl_date_string(&obj(vec![])), None);
}

#[test]
fn builds_doi_isbn_and_web_page_items() {
    let template = obj(vec![("itemType", s("journalArticle")), ("title", s(""))]);
    let item = doi_item(template, " 10.1/xyz ", None);
    assert_eq!(field(&item, "DOI").as_str(), Some("10.1/xyz"));
    assert_eq!(field(&item, "url").as_str(), Some("https://doi.org/10.1/xyz"));
    assert_eq!(field(&item, "title").as_str(), Some("DOI 10.1/xyz"));
    assert!(field(&item, "creators").equals(&JsonValue::Array(vec![])));

    let metadata = obj(vec![
        ("title", s("A Paper")),
        ("container-title", JsonValue::Array(vec![s("Journal")])),
        ("author", JsonValue::Array(vec![obj(vec![("given", s("Ada")), ("family", s("Lovelace"))])])),
    ]);
    let item = doi_item(obj(vec![("itemType", s("journalArticle"))]), "10.1/xyz", Some(&metadata));
    assert_eq!(field(&item, "title").as_str(), Some("A Paper"));
    assert_eq!(field(&item, "publicationTitle").as_str(), Some("Journal"));
    assert!(field(&item, "creators").equals(&JsonValue::Array(vec![obj(vec![
        ("creatorType", s("author")),
        ("firstName", s("Ada")),
        ("lastName", s("Lovelace")),
    ])])));

    let item = isbn_item(obj(vec![("itemType", s("book"))]), " 978-3 ");
    assert_eq!(field(&item, "ISBN").as_str(), Some("978-3"));
    assert_eq!(field(&item, "title").as_str(), Some("ISBN 978-3"));

    let item = url_item(obj(vec![("itemType", s("webpage"))]), "https://example.com/a", "Example", "2024-04-05");
    assert_eq!(field(&item, "websiteTitle").as_str(), Some("example.com"));
    assert_eq!(field(&item, "accessDate").as_str(), Some("2024-04-05"));
    assert_eq!(field(&item, "title").as_str(), Some("Example"));
}

#[test]
fn picks_a_web_page_title() {
    assert_eq!(url_page_title(Some("Given"), Some("<title>Page</title>"), "https://e.com"), "Given");
    assert_eq!(url_page_title(None, Some("<TITLE>\n Page\nTitle \n</TITLE>"), "https://e.com"), "Page Title");
    assert_eq!(url_page_title(None, Some("<title>   </title>"), "https://e.com"), "https://e.com");
    assert_eq!(url_page_title(None, None, "https://e.com"), "https://e.com");
}

#[test]
fn applying_metadata_twice_changes_nothing() {
    let mut once = obj(vec![
        ("itemType", s("webpage")),
        ("tags", JsonValue::Array(vec![s("plain"), obj(vec![("tag", s("old"))])])),
    ]);
    let collections = ["A".to_owned(), "B".to_owned(), "A".to_owned()];
    let tags = ["old".to_owned(), "plain".to_owned(), "fresh".to_owned()];
    apply_add_metadata(&mut once, &collections, &tags);
    let mut twice = once.clone();
    apply_add_metadata(&mut twice, &collections, &tags);
    assert!(twice.equals(&once));
    assert!(field(&once, "collections").equals(&JsonValue::Array(vec![s("A"), s("B")])));
    assert!(field(&once, "tags").equals(&JsonValue::Array(vec![
        s("plain"),
        obj(vec![("tag", s("old"))]),
        obj(vec![("tag", s("fresh"))]),
    ])));
}

fn days_from_civil(y: i64, m: i64, d: i64) -> i64 {
    let leaps = |y: i64| (y - 1).div_euclid(4) - (y - 1).div_euclid(100) + (y - 1).div_euclid(400);
    let before = [0, 31, 59, 90, 120, 151, 181, 212, 243, 273, 304, 334][(m - 1) as usize];
    let leap = (y % 4 == 0 && y % 100 != 0) || y % 400 == 0;
    365 * (y - 1970) + leaps(y) - leaps(1970) + before + if m > 2 && leap { 1 } else { 0 } + d - 1
}

#[test]
fn day_numbers_and_dates_agree() {
    let mut day: i64 = -800_000;
    while day < 800_000 {
        let (y, m, d) = civil_from_days(day);
        assert!((1..=12).contains(&m) && (1..=31).contains(&d));
        assert_eq!(days_from_civil(y as i64, m as i64, d as i64), day);
        day += 97;
    }
}

#[test]
fn consecutive_days_have_consecutive_dates() {
    let mut day: i64 = -400_000;
    while day < 400_000 {
        let (y, m, d) = civil_from_days(day);
        let next = civil_from_days(day + 1);
        let dim = match m {
            2 => if (y % 4 == 0 && y % 100 != 0) || y % 400 == 0 { 29 } else { 28 },
            4 | 6 | 9 | 11 => 30,
            _ => 31,
        };
        let expected = if d < dim { (y, m, d + 1) } else if m < 12 { (y, m + 1, 1) } else { (y + 1, 1, 1) };
        assert_eq!(next, expected);
        day += 13;
    }
}
