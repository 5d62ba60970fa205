use openrouter::{find_model, ApiKeyAuth, AuthStrategy, Client, ClientBuilder, Model, ModelList, ModelPricing, OpenRouterError};
use reqwest::header::HeaderMap;

fn model(id: &str, name: &str) -> Model {
    Model {
        id: id.to_string(),
        name: name.to_string(),
        description: None,
        context_length: 8192,
        pricing: ModelPricing {
            prompt: "0.000001".to_string(),
            completion: "0.000002".to_string(),
            image: None,
            request: None,
        },
        top_provider: None,
        architecture: None,
    }
}

fn header<'a>(h: &'a HeaderMap, name: &str) -> Option<&'a str> {
    h.get(name).map(|v| v.to_str().unwrap())
}

#[test]
fn test_builder() {
    let client = Client::builder()
        .auth(ApiKeyAuth::new("test-key"))
        .base_url("https://custom.api.com")
        .build();

    assert_eq!(client.base_url(), "https://custom.api.com");
}

#[test]
fn test_auth_with_site_info() {
    let auth = ApiKeyAuth::new("sk-or-test")
        .with_site_url("https://myapp.com")
        .with_site_name("My App");

    let _client = Client::builder().auth(auth).build();
}

#[test]
fn builder_defaults_to_production_root() {
    let client = Client::builder().auth(ApiKeyAuth::new("k")).build();
    assert_eq!(client.base_url(), "https://openrouter.ai/api/v1");
    let client = ClientBuilder::default().auth(ApiKeyAuth::new("k")).build();
    assert_eq!(client.base_url(), "https://openrouter.ai/api/v1");
}

#[test]
fn endpoint_addresses() {
    let client = Client::builder().auth(ApiKeyAuth::new("k")).base_url("http://h/v1").build();
    assert_eq!(client.chat_completions_url(), "http://h/v1/chat/completions");
    assert_eq!(client.models_url(), "http://h/v1/models");
    assert_eq!(client.generation_url("gen-42"), "http://h/v1/generation?id=gen-42");
    assert_eq!(client.credits_url(), "http://h/v1/auth/key");
}

#[test]
fn api_key_sets_only_authorization() {
    let auth = ApiKeyAuth::new("sk-1");
    let mut h = HeaderMap::new();
    assert!(auth.apply(&mut h).is_ok());
    assert_eq!(h.len(), 1);
    assert_eq!(header(&h, "authorization"), Some("Bearer sk-1"));
    assert!(h.get("http-referer").is_none());
    assert!(h.get("x-title").is_none());
}

#[test]
fn api_key_sets_site_headers() {
    let auth = ApiKeyAuth::new("sk-2").with_site_url("https://myapp.com").with_site_name("My App");
    let mut h = HeaderMap::new();
    assert!(auth.apply(&mut h).is_ok());
    assert_eq!(h.len(), 3);
    assert_eq!(header(&h, "Authorization"), Some("Bearer sk-2"));
    assert_eq!(header(&h, "HTTP-Referer"), Some("https://myapp.com"));
    assert_eq!(header(&h, "X-Title"), Some("My App"));
}

#[test]
fn api_key_name_without_url() {
    let auth = ApiKeyAuth::new("sk-3").with_site_name("Tool");
    let mut h = HeaderMap::new();
    assert!(auth.apply(&mut h).is_ok());
    assert_eq!(h.len(), 2);
    assert!(h.get("http-referer").is_none());
    assert_eq!(header(&h, "x-title"), Some("Tool"));
}

#[test]
fn api_key_replaces_existing_authorization() {
    let mut h = HeaderMap::new();
    h.insert("authorization", "old".parse().unwrap());
    h.insert("accept", "text/plain".parse().unwrap());
    assert!(ApiKeyAuth::new("new").apply(&mut h).is_ok());
    assert_eq!(header(&h, "authorization"), Some("Bearer new"));
    assert_eq!(header(&h, "accept"), Some("text/plain"));
}

#[test]
fn api_key_with_control_character_is_refused() {
    let mut h = HeaderMap::new();
    let r = ApiKeyAuth::new("bad\nkey").apply(&mut h);
    assert!(matches!(r, Err(OpenRouterError::InvalidHeader(_))));
    let mut h = HeaderMap::new();
    let r = ApiKeyAuth::new("ok").with_site_name("a\u{7f}b").apply(&mut h);
    assert!(matches!(r, Err(OpenRouterError::InvalidHeader(ref n)) if n == "X-Title"));
}

#[test]
fn request_headers_for_post_and_get() {
    let client = Client::builder().auth(ApiKeyAuth::new("sk-h")).build();
    let post = client.request_headers(true).unwrap();
    assert_eq!(post.len(), 2);
    assert_eq!(header(&post, "content-type"), Some("application/json"));
    assert_eq!(header(&post, "authorization"), Some("Bearer sk-h"));
    let get = client.request_headers(false).unwrap();
    assert_eq!(get.len(), 1);
    assert!(get.get("content-type").is_none());
}

#[test]
fn request_headers_report_bad_credentials() {
    let client = Client::builder().auth(ApiKeyAuth::new("k\r")).build();
    assert!(matches!(client.request_headers(true), Err(OpenRouterError::InvalidHeader(_))));
}

#[test]
fn find_model_takes_first_match() {
    let list = ModelList {
        data: vec![model("a/x", "first"), model("b/y", "second"), model("b/y", "third")],
    };
    let m = find_model(list, "b/y").unwrap();
    assert_eq!(m.name, "second");
}

#[test]
fn find_model_reports_missing() {
    let list = ModelList { data: vec![model("a/x", "first")] };
    match find_model(list, "z/z") {
        Err(OpenRouterError::NotFound(msg)) => assert_eq!(msg, "Model not found: z/z"),
        other => panic!("unexpected {:?}", other),
    }
    let empty = ModelList { data: vec![] };
    assert!(matches!(find_model(empty, "a/x"), Err(OpenRouterError::NotFound(_))));
}

#[test]
fn api_key_replaces_every_earlier_value() {
    let mut h = HeaderMap::new();
    h.append("authorization", "one".parse().unwrap());
    h.append("authorization", "two".parse().unwrap());
    h.append("x-title", "old".parse().unwrap());
    assert_eq!(h.len(), 3);
    assert!(ApiKeyAuth::new("k").apply(&mut h).is_ok());
    let values: Vec<&str> = h.get_all("authorization").iter().map(|v| v.to_str().unwrap()).collect();
    assert_eq!(values, vec!["Bearer k"]);
    assert_eq!(header(&h, "x-title"), Some("old"));
    assert_eq!(h.len(), 2);
}

#[test]
fn request_headers_pass_on_the_refusal() {
    let client = Client::builder().auth(ApiKeyAuth::new("k").with_site_url("bad\u{1}url")).build();
    match client.request_headers(false) {
        Err(OpenRouterError::InvalidHeader(name)) => assert_eq!(name, "HTTP-Referer"),
        other => panic!("unexpected {:?}", other),
    }
}
