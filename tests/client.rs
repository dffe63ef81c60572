use serp_sdk::client::{
    check_default_header, header_verdict,
    base_url_or_default, classify_status, failure_error, has_api_key, is_blank, mask_api_key,
    parse_u64, resolve_api_key, search_url,
};
use serp_sdk::response::{RelatedSearch, RelatedSearchItem};
use serp_sdk::{SerpError, StatusClass};

#[test]
fn client_test_client_builder() {
    let key = resolve_api_key(Some("test-key-longer".to_string()), None).unwrap();
    assert!(has_api_key(&key));
    assert_eq!(mask_api_key(&key), "test***nger");
}

#[test]
fn client_test_missing_api_key() {
    let result = resolve_api_key(None, None);
    assert!(matches!(result, Err(SerpError::MissingApiKey)));
}

#[test]
fn test_invalid_api_key() {
    let result = resolve_api_key(Some(String::new()), None);
    assert!(matches!(result, Err(SerpError::InvalidParameter(_))));
}

#[test]
fn test_empty_api_key() {
    let result = resolve_api_key(Some("".to_string()), Some("env-key".to_string()));
    assert!(matches!(result, Err(SerpError::InvalidParameter(_))));
}

#[test]
fn api_key_falls_back_to_environment() {
    assert_eq!(resolve_api_key(None, Some("from-env".to_string())).unwrap(), "from-env");
    assert_eq!(resolve_api_key(Some("mine".to_string()), Some("env".to_string())).unwrap(), "mine");
}

#[test]
fn whitespace_only_key_is_rejected() {
    assert!(matches!(
        resolve_api_key(Some(" \t\n".to_string()), None),
        Err(SerpError::InvalidParameter(_))
    ));
    assert!(matches!(
        resolve_api_key(Some("\u{3000}\u{a0}".to_string()), None),
        Err(SerpError::InvalidParameter(_))
    ));
    assert_eq!(resolve_api_key(Some(" k ".to_string()), None).unwrap(), " k ");
}

#[test]
fn blank_detection() {
    assert!(is_blank(""));
    assert!(is_blank(" \r\n\t"));
    assert!(!is_blank(" x "));
    assert!(!is_blank("\u{200b}"));
}

#[test]
fn short_keys_are_fully_masked() {
    assert_eq!(mask_api_key("12345678"), "***");
    assert_eq!(mask_api_key(""), "***");
    assert_eq!(mask_api_key("123456789"), "1234***6789");
    assert!(!has_api_key(""));
}

#[test]
fn default_base_url_and_search_url() {
    assert_eq!(base_url_or_default(None), "https://serpapi.com");
    assert_eq!(base_url_or_default(Some("http://x".to_string())), "http://x");
    assert_eq!(search_url("https://serpapi.com", "q=a&api_key=k"), "https://serpapi.com/search?q=a&api_key=k");
}

#[test]
fn parse_unsigned_numbers() {
    assert_eq!(parse_u64("60"), Some(60));
    assert_eq!(parse_u64("+7"), Some(7));
    assert_eq!(parse_u64("0007"), Some(7));
    assert_eq!(parse_u64("18446744073709551615"), Some(u64::MAX));
    assert_eq!(parse_u64("18446744073709551616"), None);
    assert_eq!(parse_u64(""), None);
    assert_eq!(parse_u64("+"), None);
    assert_eq!(parse_u64("-1"), None);
    assert_eq!(parse_u64(" 5"), None);
    assert_eq!(parse_u64("5s"), None);
}

#[test]
fn status_classification() {
    assert_eq!(classify_status(200, None), StatusClass::Success);
    assert_eq!(classify_status(204, Some("3")), StatusClass::Success);
    assert_eq!(classify_status(429, Some("120")), StatusClass::RateLimited { retry_after: 120 });
    assert_eq!(classify_status(429, None), StatusClass::RateLimited { retry_after: 60 });
    assert_eq!(classify_status(429, Some("soon")), StatusClass::RateLimited { retry_after: 60 });
    assert_eq!(classify_status(404, None), StatusClass::Failure { code: 404 });
    assert_eq!(classify_status(503, None), StatusClass::Failure { code: 503 });
    assert_eq!(classify_status(301, None), StatusClass::Failure { code: 301 });
}

#[test]
fn failure_becomes_api_error() {
    match failure_error(401, "Invalid API key".to_string()) {
        SerpError::ApiError { code, message } => {
            assert_eq!(code, 401);
            assert_eq!(message, "Invalid API key");
        }
        other => panic!("unexpected {:?}", other),
    }
}

#[test]
fn related_search_suggestions_of_both_shapes() {
    let simple = RelatedSearch::Simple {
        query: "rust book".to_string(),
        link: None,
        serpapi_link: None,
    };
    assert_eq!(simple.queries(), vec!["rust book".to_string()]);

    let item = |q: Option<&str>| RelatedSearchItem {
        name: Some("n".to_string()),
        query: q.map(|s| s.to_string()),
        link: None,
        serpapi_link: None,
        image: None,
        stick: None,
    };
    let block = RelatedSearch::Block {
        block_position: Some(1),
        items: vec![item(Some("a")), item(None), item(Some("b"))],
    };
    assert_eq!(block.queries(), vec!["a".to_string(), "b".to_string()]);
}

#[test]
fn integration_test_client_builder() {
    let key = resolve_api_key(Some("test-key-longer".to_string()), None).unwrap();
    assert!(has_api_key(&key));
    assert_eq!(mask_api_key(&key), "test***nger");
}

#[test]
fn integration_test_missing_api_key() {
    let result = resolve_api_key(None, None);
    assert!(matches!(result, Err(SerpError::MissingApiKey)));
}

#[test]
fn default_header_checks() {
    assert!(check_default_header("X-Test", "1").is_ok());
    match check_default_header("bad name", "v") {
        Err(SerpError::InvalidParameter(m)) => assert_eq!(m, "Invalid header name: bad name"),
        other => panic!("unexpected {:?}", other),
    }
    match check_default_header("X-Test", "a\nb") {
        Err(SerpError::InvalidParameter(m)) => assert_eq!(m, "Invalid header value: a\nb"),
        other => panic!("unexpected {:?}", other),
    }
}

#[test]
fn header_verdict_reports_name_first() {
    assert!(header_verdict("n", "v", true, true).is_ok());
    assert!(matches!(header_verdict("n", "v", false, false), Err(SerpError::InvalidParameter(m)) if m == "Invalid header name: n"));
    assert!(matches!(header_verdict("n", "v", true, false), Err(SerpError::InvalidParameter(m)) if m == "Invalid header value: v"));
}
