use planchet::ClientBuilder;
use planchet::Error;
use planchet::Method;

#[test]
fn client_build_client_test() {
    let client = ClientBuilder::new().api_key("test_key".to_string()).build();
    assert!(client.is_ok());
}

#[test]
fn client_build_client_missing_api_key_test() {
    let client = ClientBuilder::new().build();
    assert!(client.is_err());
    match client.err().unwrap() {
        Error::ApiKeyMissing => (),
        _ => panic!("Expected ApiKeyMissing error"),
    }
}

#[test]
fn lib_build_client_test() {
    let client = ClientBuilder::new().api_key("test_key".to_string()).build();
    assert!(client.is_ok());
}

#[test]
fn lib_build_client_missing_api_key_test() {
    let client = ClientBuilder::new().build();
    assert!(client.is_err());
    match client.err().unwrap() {
        Error::ApiKeyMissing => (),
        _ => panic!("Expected ApiKeyMissing error"),
    }
}

#[test]
fn build_client_empty_api_key_test() {
    let client = ClientBuilder::new().api_key(String::new()).build();
    match client {
        Err(Error::ApiKeyMissing) => (),
        _ => panic!("Expected ApiKeyMissing error for an empty credential"),
    }
}

#[test]
fn request_headers_credential_only_test() {
    let client = ClientBuilder::new()
        .api_key("test_key".to_string())
        .build()
        .unwrap();
    let headers = client.request_headers();
    let expected: Vec<(String, String)> =
        vec![("Numista-API-Key".to_string(), "test_key".to_string())];
    assert_eq!(headers, expected);
}

#[test]
fn request_headers_bearer_test() {
    let client = ClientBuilder::new()
        .api_key("test_key".to_string())
        .bearer_token("tok123".to_string())
        .build()
        .unwrap();
    let headers = client.request_headers();
    let expected: Vec<(String, String)> = vec![
        ("Numista-API-Key".to_string(), "test_key".to_string()),
        ("Authorization".to_string(), "Bearer tok123".to_string()),
    ];
    assert_eq!(headers, expected);
}

#[test]
fn language_merge_test() {
    let client = ClientBuilder::new()
        .api_key("test_key".to_string())
        .lang(isolang::Language::from_639_1("de").unwrap())
        .build()
        .unwrap();
    let base: Vec<(String, String)> = vec![
        ("q".to_string(), "victoria".to_string()),
        ("page".to_string(), "1".to_string()),
    ];
    let merged = client.merge_query_params(base);
    let expected: Vec<(String, String)> = vec![
        ("lang".to_string(), "de".to_string()),
        ("q".to_string(), "victoria".to_string()),
        ("page".to_string(), "1".to_string()),
    ];
    assert_eq!(merged, expected);
}

#[test]
fn language_code_merge_test() {
    let client = ClientBuilder::new()
        .api_key("test_key".to_string())
        .lang_code("ES".to_string())
        .build()
        .unwrap();
    let merged = client.merge_query_params(vec![("q".to_string(), "real".to_string())]);
    let expected: Vec<(String, String)> = vec![
        ("lang".to_string(), "es".to_string()),
        ("q".to_string(), "real".to_string()),
    ];
    assert_eq!(merged, expected);
}

#[test]
fn language_code_invalid_test() {
    let client = ClientBuilder::new()
        .api_key("test_key".to_string())
        .lang_code("not-a-language".to_string())
        .build()
        .unwrap();
    let merged = client.merge_query_params(vec![("q".to_string(), "real".to_string())]);
    let expected: Vec<(String, String)> = vec![("q".to_string(), "real".to_string())];
    assert_eq!(merged, expected);
}

#[test]
fn no_language_no_param_test() {
    let client = ClientBuilder::new()
        .api_key("test_key".to_string())
        .build()
        .unwrap();
    let merged = client.merge_query_params(vec![("q".to_string(), "victoria".to_string())]);
    let expected: Vec<(String, String)> = vec![("q".to_string(), "victoria".to_string())];
    assert_eq!(merged, expected);
}

#[test]
fn prepare_request_test() {
    let client = ClientBuilder::new()
        .api_key("test_key".to_string())
        .base_url("http://localhost:8080".to_string())
        .build()
        .unwrap();
    let spec = client.prepare_request(
        Method::Get,
        "/types/420",
        Vec::new(),
        None,
    );
    assert_eq!(spec.method, Method::Get);
    assert_eq!(spec.url, "http://localhost:8080/types/420");
    assert_eq!(
        spec.headers,
        vec![("Numista-API-Key".to_string(), "test_key".to_string())]
    );
    assert!(spec.query.is_empty());
    assert!(spec.body.is_none());
}

#[test]
fn prepare_request_default_base_url_test() {
    let client = ClientBuilder::new()
        .api_key("test_key".to_string())
        .build()
        .unwrap();
    let spec = client.prepare_request(Method::Delete, "/users/1/collected_items/2", Vec::new(), None);
    assert_eq!(spec.url, "https://api.numista.com/v3/users/1/collected_items/2");
    assert_eq!(spec.method, Method::Delete);
}

#[test]
fn prepare_request_body_test() {
    let client = ClientBuilder::new()
        .api_key("test_key".to_string())
        .build()
        .unwrap();
    let spec = client.prepare_request(
        Method::Post,
        "/search_by_image",
        Vec::new(),
        Some("{}".to_string()),
    );
    assert_eq!(spec.method, Method::Post);
    assert_eq!(spec.body.as_deref(), Some("{}"));
}
