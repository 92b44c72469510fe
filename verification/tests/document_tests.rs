use hentry::json::render_post;
use hentry::parser::{handle_header_line, parse_post};
use hentry::post::{PostBuilder, PostError};

fn err_field(r: Result<impl Sized, PostError>) -> String {
    match r {
        Ok(_) => panic!("expected an error"),
        Err(PostError::MissingField(name)) => name,
    }
}

#[test]
fn well_formed_document_fills_every_property() {
    let doc = "Title: Hello World\nSlug: hello-world\nDate: 2020-01-02\nTags: A, b, C\n\nBody text.\n";
    let p = parse_post(doc).unwrap();
    assert_eq!(p.properties.name, vec!["Hello World".to_string()]);
    assert_eq!(p.properties.slug, vec!["hello-world".to_string()]);
    assert_eq!(p.properties.published, vec!["2020-01-02".to_string()]);
    assert_eq!(p.properties.content[0].markdown, "Body text.\n".to_string());
    assert_eq!(
        p.properties.category,
        vec!["a".to_string(), "b".to_string(), "c".to_string()]
    );
}

#[test]
fn rendered_json_has_the_exact_compact_layout() {
    let doc = "Title: Hello World\nSlug: hello-world\nDate: 2020-01-02\nTags: A, b, C\n\nBody text.\n";
    let s = render_post(doc).unwrap();
    assert_eq!(
        s,
        "{\"type\":[\"h-entry\"],\"properties\":{\"name\":[\"Hello World\"],\"mp-slug\":[\"hello-world\"],\"content\":[{\"markdown\":\"Body text.\\n\"}],\"published\":[\"2020-01-02\"],\"category\":[\"a\",\"b\",\"c\"]}}".to_string()
    );
}

#[test]
fn tags_are_trimmed_lowercased_and_kept_in_order() {
    let doc = "Title: t\nSlug: s\nDate: d\nTags: A, b, C\n\nx";
    let p = parse_post(doc).unwrap();
    assert_eq!(
        p.properties.category,
        vec!["a".to_string(), "b".to_string(), "c".to_string()]
    );
}

#[test]
fn second_tags_line_overwrites_the_first() {
    let doc = "Title: t\nSlug: s\nDate: d\nTags: one, two\nTags: Three\n\nx";
    let p = parse_post(doc).unwrap();
    assert_eq!(p.properties.category, vec!["three".to_string()]);
}

#[test]
fn unrecognized_header_line_has_no_effect() {
    let with = "Title: t\nSlug: s\nDate: d\nAuthor: Jane\n\nx";
    let without = "Title: t\nSlug: s\nDate: d\n\nx";
    assert_eq!(render_post(with).unwrap(), render_post(without).unwrap());
}

#[test]
fn header_line_without_colon_is_ignored_without_error() {
    let doc = "Title: t\njust some words\nSlug: s\nDate: d\n\nx";
    let p = parse_post(doc).unwrap();
    assert_eq!(p.properties.name, vec!["t".to_string()]);
    assert_eq!(p.properties.slug, vec!["s".to_string()]);
}

#[test]
fn absent_tags_line_yields_empty_category_list() {
    let doc = "Title: t\nSlug: s\nDate: d\n\nx";
    let s = render_post(doc).unwrap();
    assert!(s.contains("\"category\":[]"));
}

#[test]
fn missing_title_is_reported_first() {
    assert_eq!(err_field(parse_post("Slug: s\nDate: d\n\nx")), "Title".to_string());
}

#[test]
fn missing_slug_is_reported_second() {
    assert_eq!(err_field(parse_post("Title: t\nDate: d\n\nx")), "Slug".to_string());
}

#[test]
fn missing_date_is_reported_after_content() {
    // the body — even an empty one — always sets the content, so the date is
    // the next field checked
    assert_eq!(err_field(parse_post("Title: t\nSlug: s\n\nx")), "Date".to_string());
}

#[test]
fn empty_document_misses_the_title_first() {
    assert_eq!(err_field(parse_post("")), "Title".to_string());
}

#[test]
fn document_without_blank_line_has_empty_body() {
    let doc = "Title: t\nSlug: s\nDate: d\nTags: x";
    let p = parse_post(doc).unwrap();
    assert_eq!(p.properties.content[0].markdown, "".to_string());
    assert_eq!(p.properties.category, vec!["x".to_string()]);
}

#[test]
fn document_starting_with_blank_line_is_all_body() {
    let r = parse_post("\nTitle: t\n");
    assert_eq!(err_field(r), "Title".to_string());
}

#[test]
fn body_is_carried_verbatim() {
    let doc = "Title: t\nSlug: s\nDate: d\n\nline one\n\nline two\n";
    let p = parse_post(doc).unwrap();
    assert_eq!(p.properties.content[0].markdown, "line one\n\nline two\n".to_string());
}

#[test]
fn header_keys_are_matched_exactly_and_case_sensitively() {
    // a key with trailing space, and a lowercased key, are both unrecognized
    let r = parse_post("Title : t\ntitle: t\nSlug: s\nDate: d\n\nx");
    assert_eq!(err_field(r), "Title".to_string());
}

#[test]
fn value_may_contain_colons() {
    let doc = "Title: a:b\nSlug: s\nDate: 2020-01-02T10:11:12\n\nx";
    let p = parse_post(doc).unwrap();
    assert_eq!(p.properties.name, vec!["a:b".to_string()]);
    assert_eq!(p.properties.published, vec!["2020-01-02T10:11:12".to_string()]);
}

#[test]
fn repeated_scalar_key_keeps_the_last_value() {
    let doc = "Title: first\nTitle: second\nSlug: s\nDate: d\n\nx";
    let p = parse_post(doc).unwrap();
    assert_eq!(p.properties.name, vec!["second".to_string()]);
}

#[test]
fn empty_tags_value_keeps_one_empty_category() {
    let doc = "Title: t\nSlug: s\nDate: d\nTags:\n\nx";
    let p = parse_post(doc).unwrap();
    assert_eq!(p.properties.category, vec!["".to_string()]);
}

#[test]
fn trailing_comma_passes_an_empty_category_through() {
    let doc = "Title: t\nSlug: s\nDate: d\nTags: a,,b,\n\nx";
    let p = parse_post(doc).unwrap();
    assert_eq!(
        p.properties.category,
        vec!["a".to_string(), "".to_string(), "b".to_string(), "".to_string()]
    );
}

#[test]
fn empty_header_value_is_accepted_as_empty_string() {
    let doc = "Title:\nSlug: s\nDate: d\n\nx";
    let p = parse_post(doc).unwrap();
    assert_eq!(p.properties.name, vec!["".to_string()]);
}

#[test]
fn space_only_line_is_not_blank_and_is_ignored() {
    let doc = "Title: t\n \nSlug: s\nDate: d\n\nbody";
    let p = parse_post(doc).unwrap();
    assert_eq!(p.properties.slug, vec!["s".to_string()]);
    assert_eq!(p.properties.content[0].markdown, "body".to_string());
}

#[test]
fn values_are_trimmed_of_unicode_white_space() {
    let doc = "Title: \u{a0}X\u{3000} \nSlug: s\nDate: d\n\nx";
    let p = parse_post(doc).unwrap();
    assert_eq!(p.properties.name, vec!["X".to_string()]);
}

#[test]
fn tags_are_lowercased_beyond_ascii() {
    let doc = "Title: t\nSlug: s\nDate: d\nTags: \u{c4}rger\n\nx";
    let p = parse_post(doc).unwrap();
    assert_eq!(p.properties.category, vec!["\u{e4}rger".to_string()]);
}

#[test]
fn json_escapes_match_the_target_format() {
    let doc = "Title: say \"hi\"\nSlug: s\nDate: d\n\na\\b\ntab\there\u{1}!";
    let s = render_post(doc).unwrap();
    assert_eq!(
        s,
        "{\"type\":[\"h-entry\"],\"properties\":{\"name\":[\"say \\\"hi\\\"\"],\"mp-slug\":[\"s\"],\"content\":[{\"markdown\":\"a\\\\b\\ntab\\there\\u0001!\"}],\"published\":[\"d\"],\"category\":[]}}".to_string()
    );
}

#[test]
fn feeding_lines_one_at_a_time_matches_document_parsing() {
    let mut b = PostBuilder::new();
    handle_header_line(&mut b, "Title: t\n");
    handle_header_line(&mut b, "Tags: One, two\n");
    handle_header_line(&mut b, "Slug: s\n");
    handle_header_line(&mut b, "Date: d\n");
    b.set_content("x".to_string());
    let fed = b.build().unwrap();
    let parsed = parse_post("Title: t\nTags: One, two\nSlug: s\nDate: d\n\nx").unwrap();
    assert_eq!(fed.to_json(), parsed.to_json());
}

#[test]
fn produced_json_round_trips_byte_identically() {
    let docs = [
        "Title: Hello World\nSlug: hello-world\nDate: 2020-01-02\nTags: A, b, C\n\nBody text.\n",
        "Title: say \"hi\"\nSlug: s/t\nDate: d\nTags: x,\u{e9},\n\na\\b\u{8}\u{c}\r\n\u{1f}end",
        "Title: t\nSlug: s\nDate: d\n\n",
    ];
    for doc in docs {
        let s = render_post(doc).unwrap();
        let v: serde_json::Value = serde_json::from_str(&s).unwrap();
        let again = serde_json::to_string(&v).unwrap();
        assert_eq!(again, s);
    }
}
