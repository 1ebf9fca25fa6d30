use derpibooru_search::error::SearchError;
use derpibooru_search::models::{Image, SearchImages};

fn malformed(path: &str) -> Result<SearchImages, SearchError> {
    Err(SearchError::MalformedResponse(path.to_string()))
}

#[test]
fn a_page_is_read_in_order() {
    let page = SearchImages::from_json(
        r#"{"total": 3, "images": [
            {"representations": {"full": "https://a/1.png"}},
            {"representations": {"full": "https://a/2.png"}}
        ]}"#,
    )
    .unwrap();
    assert_eq!(page.total, 3);
    assert_eq!(
        page.images,
        vec![
            Image::new("https://a/1.png".to_string()),
            Image::new("https://a/2.png".to_string())
        ]
    );
}

#[test]
fn unknown_fields_are_of_no_account() {
    let page = SearchImages::from_json(
        r#"{"interactions": [], "total": 1, "extra": {"total": "x"}, "images": [
            {"id": 5, "score": -3, "aspect_ratio": 1.5, "tags": ["safe"],
             "representations": {"thumb": "https://a/t.png", "full": "https://a/f.png", "large": null},
             "uploader": null}
        ]}"#,
    )
    .unwrap();
    assert_eq!(page.total, 1);
    assert_eq!(page.images, vec![Image::new("https://a/f.png".to_string())]);
}

#[test]
fn an_empty_page_is_a_page() {
    let page = SearchImages::from_json(r#"{"images":[],"interactions":[],"total":0}"#).unwrap();
    assert_eq!(page.total, 0);
    assert_eq!(page.images, vec![]);
}

#[test]
fn total_must_be_there_and_be_a_count() {
    assert_eq!(SearchImages::from_json(r#"{"images": []}"#), malformed("total"));
    assert_eq!(SearchImages::from_json(r#"{"total": "3", "images": []}"#), malformed("total"));
    assert_eq!(SearchImages::from_json(r#"{"total": -1, "images": []}"#), malformed("total"));
    assert_eq!(SearchImages::from_json(r#"{"total": 1.5, "images": []}"#), malformed("total"));
    assert_eq!(SearchImages::from_json(r#"{"total": null, "images": []}"#), malformed("total"));
    assert_eq!(SearchImages::from_json(r#"[3, []]"#), malformed("total"));
    assert_eq!(SearchImages::from_json(r#"3"#), malformed("total"));
}

#[test]
fn the_largest_total_is_read() {
    let page =
        SearchImages::from_json(r#"{"total": 18446744073709551615, "images": []}"#).unwrap();
    assert_eq!(page.total as u64, u64::MAX);
    assert_eq!(
        SearchImages::from_json(r#"{"total": 18446744073709551616, "images": []}"#),
        malformed("total")
    );
}

#[test]
fn images_must_be_there_and_be_an_array() {
    assert_eq!(SearchImages::from_json(r#"{"total": 0}"#), malformed("images"));
    assert_eq!(SearchImages::from_json(r#"{"total": 0, "images": {}}"#), malformed("images"));
    assert_eq!(SearchImages::from_json(r#"{"total": 0, "images": null}"#), malformed("images"));
    assert_eq!(SearchImages::from_json(r#"{"total": 0, "images": "[]"}"#), malformed("images"));
}

#[test]
fn total_is_read_before_images() {
    assert_eq!(SearchImages::from_json(r#"{"images": 1, "total": true}"#), malformed("total"));
}

#[test]
fn each_image_must_hold_its_address() {
    assert_eq!(
        SearchImages::from_json(r#"{"total": 1, "images": [{}]}"#),
        malformed("images[0].representations")
    );
    assert_eq!(
        SearchImages::from_json(r#"{"total": 1, "images": [7]}"#),
        malformed("images[0].representations")
    );
    assert_eq!(
        SearchImages::from_json(r#"{"total": 1, "images": [{"representations": {}}]}"#),
        malformed("images[0].representations.full")
    );
    assert_eq!(
        SearchImages::from_json(r#"{"total": 1, "images": [{"representations": "x"}]}"#),
        malformed("images[0].representations.full")
    );
    assert_eq!(
        SearchImages::from_json(r#"{"total": 1, "images": [{"representations": {"full": 1}}]}"#),
        malformed("images[0].representations.full")
    );
}

#[test]
fn the_first_image_that_fails_is_reported() {
    let good = r#"{"representations": {"full": "https://a/1.png"}}"#;
    let items: Vec<String> = (0..12)
        .map(|n| {
            if n == 10 {
                r#"{"representations": {"full": null}}"#.to_string()
            } else if n == 11 {
                "{}".to_string()
            } else {
                good.to_string()
            }
        })
        .collect();
    let text = format!(r#"{{"total": 12, "images": [{}]}}"#, items.join(","));
    assert_eq!(SearchImages::from_json(&text), malformed("images[10].representations.full"));
}

#[test]
fn text_that_is_not_json_is_malformed() {
    assert_eq!(SearchImages::from_json(""), malformed("."));
    assert_eq!(SearchImages::from_json("<html></html>"), malformed("."));
    assert_eq!(SearchImages::from_json(r#"{"total": 1, "images": ["#), malformed("images"));
    assert_eq!(
        SearchImages::from_json(r#"{"total": 1, "images": [{"representations": {"full": tru}}]}"#),
        malformed("images[0].representations.full")
    );
}

#[test]
fn what_follows_the_document_is_not_read() {
    let page = SearchImages::from_json(r#"{"total": 0, "images": []} and more"#).unwrap();
    assert_eq!(page.total, 0);
    assert_eq!(page.images, vec![]);
}

#[test]
fn a_document_is_read_without_its_text() {
    let document: serde_json::Value =
        serde_json::from_str(r#"{"total": 2, "images": [{"representations": {"full": "u"}}]}"#)
            .unwrap();
    let page = SearchImages::from_document(&document).unwrap();
    assert_eq!(page.total, 2);
    assert_eq!(page.images, vec![Image::new("u".to_string())]);
    let item = &document["images"][0];
    assert_eq!(Image::from_document(item, 0), Ok(Image::new("u".to_string())));
    assert_eq!(
        Image::from_document(&serde_json::Value::Null, 41),
        Err(SearchError::MalformedResponse("images[41].representations".to_string()))
    );
}

#[test]
fn errors_read_as_sentences() {
    assert_eq!(SearchError::InvalidPageSize.message(), "page size must lie between 1 and 50");
    assert_eq!(
        SearchError::TransportFailure("timed out".to_string()).message(),
        "transport failure: timed out"
    );
    assert_eq!(SearchError::UnexpectedStatus(503).message(), "unexpected status: 503");
    assert_eq!(
        SearchError::MalformedResponse("images[2].representations.full".to_string()).message(),
        "malformed response at images[2].representations.full"
    );
}
