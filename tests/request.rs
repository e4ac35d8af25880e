use maera::request::{ChainableRequestBuilder, Method};

#[test]
fn url_is_appended_to_base() {
    let r = ChainableRequestBuilder::from_base_url("https://tls.peet.ws".to_string())
        .url("/api/all")
        .build();
    assert_eq!(r.url, "https://tls.peet.ws/api/all");
}

#[test]
fn url_without_base_stands_alone() {
    let r = ChainableRequestBuilder::new().url("/x").build();
    assert_eq!(r.url, "/x");
}

#[test]
fn defaults_are_get_and_no_delay() {
    let r = ChainableRequestBuilder::new().url("/x").build();
    assert_eq!(r.method, Method::Get);
    assert_eq!(r.delay_ms, 0);
    assert!(r.body.is_none());
    assert!(r.headers.is_empty());
}

#[test]
fn builder_keeps_all_settings_and_duplicate_headers() {
    let r = ChainableRequestBuilder::from_base_url("http://h".to_string())
        .url("/p")
        .method(Method::Post)
        .header("a".to_string(), "1".to_string())
        .header("a".to_string(), "2".to_string())
        .body("payload".to_string())
        .delay(60000)
        .build();
    assert_eq!(r.url, "http://h/p");
    assert_eq!(r.method, Method::Post);
    assert_eq!(
        r.headers,
        vec![("a".to_string(), "1".to_string()), ("a".to_string(), "2".to_string())]
    );
    assert_eq!(r.body.as_deref(), Some("payload"));
    assert_eq!(r.delay_ms, 60000);
}
