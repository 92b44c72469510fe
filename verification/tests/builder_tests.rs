use hentry::post::{PostBuilder, PostError};

fn missing_field_name(e: PostError) -> String {
    match e {
        PostError::MissingField(name) => name,
    }
}

#[test]
fn build_with_all_fields_succeeds() {
    let mut b = PostBuilder::new();
    b.set_name("A title".to_string());
    b.set_slug("a-title".to_string());
    b.set_published("2021-05-06".to_string());
    b.set_content("body".to_string());
    let p = b.build().unwrap();
    assert_eq!(p.post_type, vec!["h-entry".to_string()]);
    assert_eq!(p.properties.name, vec!["A title".to_string()]);
    assert_eq!(p.properties.slug, vec!["a-title".to_string()]);
    assert_eq!(p.properties.published, vec!["2021-05-06".to_string()]);
    assert_eq!(p.properties.content.len(), 1);
    assert_eq!(p.properties.content[0].markdown, "body".to_string());
    assert_eq!(p.properties.category, Vec::<String>::new());
}

#[test]
fn build_without_title_fails_first() {
    let mut b = PostBuilder::new();
    b.set_slug("s".to_string());
    b.set_published("d".to_string());
    b.set_content("c".to_string());
    let e = b.build().unwrap_err();
    assert_eq!(missing_field_name(e), "Title".to_string());
}

#[test]
fn build_without_slug_fails_second() {
    let mut b = PostBuilder::new();
    b.set_name("t".to_string());
    b.set_published("d".to_string());
    b.set_content("c".to_string());
    let e = b.build().unwrap_err();
    assert_eq!(missing_field_name(e), "Slug".to_string());
}

#[test]
fn build_without_content_fails_third() {
    let mut b = PostBuilder::new();
    b.set_name("t".to_string());
    b.set_slug("s".to_string());
    b.set_published("d".to_string());
    let e = b.build().unwrap_err();
    assert_eq!(missing_field_name(e), "Content".to_string());
}

#[test]
fn build_without_date_fails_fourth() {
    let mut b = PostBuilder::new();
    b.set_name("t".to_string());
    b.set_slug("s".to_string());
    b.set_content("c".to_string());
    let e = b.build().unwrap_err();
    assert_eq!(missing_field_name(e), "Date".to_string());
}

#[test]
fn build_reports_only_the_first_missing_field() {
    let b = PostBuilder::new();
    let e = b.build().unwrap_err();
    assert_eq!(missing_field_name(e), "Title".to_string());
}

#[test]
fn build_lowercases_categories_in_order_without_dedup() {
    let mut b = PostBuilder::new();
    b.set_name("t".to_string());
    b.set_slug("s".to_string());
    b.set_published("d".to_string());
    b.set_content("c".to_string());
    b.set_categories(vec![
        "Rust".to_string(),
        "RUST".to_string(),
        "misc".to_string(),
        "".to_string(),
    ]);
    let p = b.build().unwrap();
    assert_eq!(
        p.properties.category,
        vec![
            "rust".to_string(),
            "rust".to_string(),
            "misc".to_string(),
            "".to_string(),
        ]
    );
}

#[test]
fn set_categories_replaces_earlier_list() {
    let mut b = PostBuilder::new();
    b.set_name("t".to_string());
    b.set_slug("s".to_string());
    b.set_published("d".to_string());
    b.set_content("c".to_string());
    b.set_categories(vec!["one".to_string(), "two".to_string()]);
    b.set_categories(vec!["Three".to_string()]);
    let p = b.build().unwrap();
    assert_eq!(p.properties.category, vec!["three".to_string()]);
}

#[test]
fn error_message_names_the_field() {
    let e = PostBuilder::new().build().unwrap_err();
    assert_eq!(
        e.message(),
        "Field 'Title' is missing. It is a required field to build a Post.".to_string()
    );
}
