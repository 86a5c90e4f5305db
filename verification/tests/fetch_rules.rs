use llrt_fetch::headers::{is_cors_non_wildcard_request_header_name, is_request_body_header_name};
use llrt_fetch::method::{parse_method, should_change_method, HttpMethod};
use llrt_fetch::uri::{is_same_host, is_same_origin, is_same_port, is_same_scheme, parse_uri, ParsedUri};

fn uri(text: &str) -> ParsedUri {
    parse_uri(text).unwrap()
}

#[test]
fn test_should_change_method() {
    // Test cases for prev_status being 301 or 302
    assert!(should_change_method(301, &HttpMethod::Post));

    assert!(should_change_method(302, &HttpMethod::Post));

    assert!(!should_change_method(301, &HttpMethod::Get));

    assert!(!should_change_method(302, &HttpMethod::Get));

    assert!(!should_change_method(301, &HttpMethod::Head));

    assert!(!should_change_method(302, &HttpMethod::Head));

    // Test cases for prev_status being 303
    assert!(should_change_method(303, &HttpMethod::Post));

    assert!(!should_change_method(303, &HttpMethod::Get));

    assert!(!should_change_method(303, &HttpMethod::Head));

    // Test case for other prev_status values
    assert!(!should_change_method(200, &HttpMethod::Post));

    assert!(!should_change_method(404, &HttpMethod::Get));
}

#[test]
fn test_is_request_body_header_name() {
    assert!(is_request_body_header_name("content-encoding"));

    assert!(is_request_body_header_name("content-language"));

    assert!(is_request_body_header_name("content-location"));

    assert!(is_request_body_header_name("content-type"));

    assert!(!is_request_body_header_name("content-length"));

    assert!(!is_request_body_header_name("accept"));
}

#[test]
fn test_is_same_origin() {
    let uri1 = uri("https://example.com:8080/path");

    let uri2 = uri("https://example.com:8080/path");

    assert!(is_same_origin(&uri1, &uri2));

    let uri3 = uri("http://example.com/path");

    let uri4 = uri("https://example.com/path");

    assert!(!is_same_origin(&uri3, &uri4));

    let uri5 = uri("https://example.com:8080/path");

    let uri6 = uri("https://example.org:8080/path");

    assert!(!is_same_origin(&uri5, &uri6));

    let uri7 = uri("https://example.com:8080/path");

    let uri8 = uri("https://example.com:8081/path");

    assert!(!is_same_origin(&uri7, &uri8));
}

#[test]
fn test_is_same_scheme() {
    let uri1 = uri("https://example.com");

    let uri2 = uri("https://example.com");

    assert!(is_same_scheme(&uri1, &uri2));

    let uri3 = uri("http://example.com");

    let uri4 = uri("https://example.com");

    assert!(!is_same_scheme(&uri3, &uri4));
}

#[test]
fn test_is_same_host() {
    let uri1 = uri("https://example.com");

    let uri2 = uri("https://example.com");

    assert!(is_same_host(&uri1, &uri2));

    let uri3 = uri("https://example.com");

    let uri4 = uri("https://example.org");

    assert!(!is_same_host(&uri3, &uri4));
}

#[test]
fn test_is_same_port() {
    let uri1 = uri("https://example.com:8080");

    let uri2 = uri("https://example.com:8080");

    assert!(is_same_port(&uri1, &uri2));

    let uri3 = uri("https://example.com:8080");

    let uri4 = uri("https://example.com:9090");

    assert!(!is_same_port(&uri3, &uri4));

    let uri5 = uri("https://example.com");

    let uri6 = uri("https://example.com");

    assert!(is_same_port(&uri5, &uri6));

    let uri7 = uri("https://example.com:8080");

    let uri8 = uri("https://example.com");

    assert!(!is_same_port(&uri7, &uri8));
}

#[test]
fn cors_header_is_only_authorization() {
    assert!(is_cors_non_wildcard_request_header_name("authorization"));
    assert!(!is_cors_non_wildcard_request_header_name("Authorization"));
    assert!(!is_cors_non_wildcard_request_header_name("content-type"));
}

#[test]
fn should_change_method_for_other_methods() {
    assert!(should_change_method(303, &HttpMethod::Put));
    assert!(should_change_method(303, &HttpMethod::Delete));
    assert!(should_change_method(303, &HttpMethod::Patch));
    assert!(should_change_method(303, &HttpMethod::Connect));
    assert!(!should_change_method(301, &HttpMethod::Put));
    assert!(!should_change_method(302, &HttpMethod::Delete));
    assert!(!should_change_method(307, &HttpMethod::Post));
    assert!(!should_change_method(0, &HttpMethod::Post));
}

#[test]
fn method_names_round_trip() {
    let all = [
        HttpMethod::Get,
        HttpMethod::Post,
        HttpMethod::Put,
        HttpMethod::Connect,
        HttpMethod::Head,
        HttpMethod::Patch,
        HttpMethod::Delete,
    ];
    for m in all {
        assert_eq!(parse_method(m.name()).unwrap(), m);
    }
    assert_eq!(HttpMethod::Delete.name(), "DELETE");
}

#[test]
fn invalid_method_is_a_type_error() {
    let err = parse_method("get").unwrap_err();
    assert_eq!(err.message(), "Invalid HTTP method: get");
    assert_eq!(err.class(), llrt_fetch::error::ErrorClass::TypeError);
    assert!(parse_method("OPTIONS").is_err());
}

#[test]
fn scheme_comparison_ignores_case() {
    let a = uri("HTTPS://example.com/");
    let b = uri("https://example.com/");
    assert!(is_same_scheme(&a, &b));
    assert!(is_same_origin(&a, &b));
    let c = uri("/relative/path");
    assert!(!is_same_scheme(&c, &b));
    assert!(is_same_scheme(&c, &c));
}

#[test]
fn host_comparison_is_exact() {
    let a = uri("https://Example.com/");
    let b = uri("https://example.com/");
    assert!(!is_same_host(&a, &b));
}

#[test]
fn parse_uri_reads_the_parts() {
    let u = uri("https://example.com:8080/path?q=1");
    assert_eq!(u.scheme.as_deref(), Some("https"));
    assert_eq!(u.host.as_deref(), Some("example.com"));
    assert_eq!(u.port, Some(8080));
    assert_eq!(u.text, "https://example.com:8080/path?q=1");
    let v = uri("http://example.com");
    assert_eq!(v.port, None);
    assert_eq!(v.text, "http://example.com/");
}

#[test]
fn parse_uri_refuses_invalid_text() {
    let err = parse_uri("http://exa mple.com/").unwrap_err();
    assert!(matches!(err, llrt_fetch::error::FetchError::InvalidUri(_)));
    assert!(!err.message().is_empty());
    assert_eq!(err.class(), llrt_fetch::error::ErrorClass::Error);
}

#[test]
fn same_origin_is_reflexive_and_symmetric() {
    let texts = [
        "https://example.com:8080/path",
        "HTTPS://example.com:8080/other",
        "http://example.com/",
        "/relative",
    ];
    for a in texts {
        let ua = uri(a);
        assert!(is_same_origin(&ua, &ua));
        for b in texts {
            let ub = uri(b);
            assert_eq!(is_same_origin(&ua, &ub), is_same_origin(&ub, &ua));
        }
    }
    assert!(is_same_origin(&uri(texts[0]), &uri(texts[1])));
}

#[test]
fn get_and_head_are_never_changed() {
    for status in [0u16, 200, 301, 302, 303, 304, 307, 308, 404] {
        assert!(!should_change_method(status, &HttpMethod::Get));
        assert!(!should_change_method(status, &HttpMethod::Head));
    }
}
