use list_models_request::BaseUrl;
use list_models_request::HttpMethod;
use list_models_request::IntoRequestError;
use list_models_request::QueryParams;
use list_models_request::Request;

#[test]
fn hierarchical_base_gets_the_models_segment() {
    let base = BaseUrl::parse("https://example.com/api").unwrap();
    let params = QueryParams::new(None, None).unwrap();
    let out = Request::new(base, params).into_http_request().unwrap();
    assert_eq!(out.method(), HttpMethod::Get);
    assert_eq!(out.url(), "https://example.com/api/models");
}

#[test]
fn page_size_appears_in_the_assembled_url() {
    let base = BaseUrl::parse("https://example.com/api").unwrap();
    let params = QueryParams::new(Some(10), None).unwrap();
    let out = Request::new(base, params).into_http_request().unwrap();
    assert_eq!(out.url(), "https://example.com/api/models?pageSize=10");
}

#[test]
fn both_params_appear_in_the_assembled_url() {
    let base = BaseUrl::parse("https://example.com/api").unwrap();
    let params = QueryParams::new(Some(50), Some("next-page".to_string())).unwrap();
    let out = Request::new(base, params).into_http_request().unwrap();
    assert_eq!(
        out.url(),
        "https://example.com/api/models?pageSize=50&pageToken=next-page"
    );
}

#[test]
fn opaque_base_fails_with_cannot_be_a_base_carrying_it() {
    let base = BaseUrl::parse("mailto:foo@example.com").unwrap();
    assert!(!base.can_be_a_base());
    let params = QueryParams::new(None, None).unwrap();
    let err = Request::new(base, params).into_http_request().unwrap_err();
    let IntoRequestError::CannotBeABase { url } = err;
    assert_eq!(url.as_str(), "mailto:foo@example.com");
}

#[test]
fn repeated_assembly_yields_byte_identical_urls() {
    let base = BaseUrl::parse("https://example.com/api").unwrap();
    let params = QueryParams::new(Some(25), Some("abc".to_string())).unwrap();
    let first = Request::new(base.clone(), params.clone())
        .into_http_request()
        .unwrap();
    let second = Request::new(base, params).into_http_request().unwrap();
    assert_eq!(first.url(), second.url());
    assert_eq!(first.method(), second.method());
}

#[test]
fn parse_normalizes_the_base() {
    let base = BaseUrl::parse("HTTPS://EXAMPLE.com/api").unwrap();
    assert_eq!(base.as_str(), "https://example.com/api");
    assert!(base.can_be_a_base());
}

#[test]
fn parse_drops_query_and_fragment_of_the_base() {
    let base = BaseUrl::parse("https://example.com/api?x=1#frag").unwrap();
    assert_eq!(base.as_str(), "https://example.com/api");
}

#[test]
fn parse_rejects_what_is_not_an_absolute_url() {
    assert!(BaseUrl::parse("not a url").is_none());
    assert!(BaseUrl::parse("/relative/path").is_none());
}

#[test]
fn data_urls_are_opaque_too() {
    let base = BaseUrl::parse("data:text/plain,stuff").unwrap();
    assert!(!base.can_be_a_base());
}

#[test]
fn a_root_path_gains_no_second_slash() {
    let base = BaseUrl::parse("https://example.com").unwrap();
    assert_eq!(base.as_str(), "https://example.com/");
    assert_eq!(base.path(), "/");
    let params = QueryParams::new(None, None).unwrap();
    let out = Request::new(base, params).into_http_request().unwrap();
    assert_eq!(out.url(), "https://example.com/models");
}

#[test]
fn a_trailing_slash_keeps_its_empty_segment() {
    let base = BaseUrl::parse("https://example.com/api/").unwrap();
    assert_eq!(base.path(), "/api/");
    let params = QueryParams::new(None, None).unwrap();
    let out = Request::new(base, params).into_http_request().unwrap();
    assert_eq!(out.url(), "https://example.com/api//models");
}

#[test]
fn an_empty_path_gains_the_separator() {
    let base = BaseUrl::parse("foo://example.com").unwrap();
    assert_eq!(base.path(), "");
    assert!(base.can_be_a_base());
    let params = QueryParams::new(None, None).unwrap();
    let out = Request::new(base, params).into_http_request().unwrap();
    assert_eq!(out.url(), "foo://example.com/models");
}

#[test]
fn an_encoded_token_survives_in_the_assembled_url() {
    let base = BaseUrl::parse("https://example.com/api").unwrap();
    let params = QueryParams::new(Some(10), Some("a&b c".to_string())).unwrap();
    let out = Request::new(base, params).into_http_request().unwrap();
    assert_eq!(
        out.url(),
        "https://example.com/api/models?pageSize=10&pageToken=a%26b+c"
    );
}

#[test]
fn the_assembled_url_reparses_unchanged() {
    for token in [None, Some("abc"), Some("a&b c"), Some("a%41"), Some("caf\u{e9}")] {
        let base = BaseUrl::parse("https://example.com/api").unwrap();
        let params = QueryParams::new(Some(10), token.map(str::to_string)).unwrap();
        let expected_query = params.to_query_string();
        let out = Request::new(base, params).into_http_request().unwrap();
        let reparsed = url::Url::parse(out.url()).unwrap();
        assert_eq!(reparsed.as_str(), out.url());
        assert_eq!(reparsed.query(), Some(expected_query.as_str()));
    }
}

#[test]
fn existing_path_segments_are_preserved() {
    let base = BaseUrl::parse("https://example.com/v1beta/nested/deep").unwrap();
    let params = QueryParams::new(None, None).unwrap();
    let out = Request::new(base, params).into_http_request().unwrap();
    assert_eq!(out.url(), "https://example.com/v1beta/nested/deep/models");
}
