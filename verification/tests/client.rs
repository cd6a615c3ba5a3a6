use openai_api_rs::client::Client;
use openai_api_rs::embedding::{EmbeddingRequest, Usage};
use openai_api_rs::http::{check_response, try_check_response, ApiRequest, HttpMethod, HttpResponse};
use openai_api_rs::text::decimal_string;

fn headers(r: &ApiRequest) -> Vec<(String, String)> {
    r.headers.iter().map(|h| (h.name.clone(), h.value.clone())).collect()
}

fn pair(a: &str, b: &str) -> (String, String) {
    (a.to_string(), b.to_string())
}

fn client() -> Client {
    Client::new_with_endpoint("http://localhost:8080/v1".to_string(), "sk-test".to_string())
}

#[test]
fn new_uses_default_endpoint() {
    let c = Client::new("key".to_string(), None);
    assert_eq!(c.api_endpoint, "https://api.openai.com/v1");
    assert_eq!(c.api_key, "key");
    assert!(c.organization.is_none());
}

#[test]
fn new_uses_configured_base() {
    let c = Client::new("key".to_string(), Some("http://proxy/v1".to_string()));
    assert_eq!(c.api_endpoint, "http://proxy/v1");
}

#[test]
fn new_with_endpoint_keeps_fields() {
    let c = client();
    assert_eq!(c.api_endpoint, "http://localhost:8080/v1");
    assert_eq!(c.api_key, "sk-test");
    assert!(c.organization.is_none());
}

#[test]
fn new_with_organization_sets_organization() {
    let c = Client::new_with_organization("key".to_string(), "org-1".to_string(), None);
    assert_eq!(c.api_endpoint, "https://api.openai.com/v1");
    assert_eq!(c.organization.as_deref(), Some("org-1"));
}

#[test]
fn build_request_appends_headers() {
    let c = client();
    let bare = ApiRequest {
        method: HttpMethod::Get,
        url: "http://x/y".to_string(),
        headers: Vec::new(),
        json_body: None,
    };
    let r = c.build_request(bare);
    assert_eq!(r.url, "http://x/y");
    assert_eq!(
        headers(&r),
        vec![pair("Content-Type", "application/json"), pair("Authorization", "Bearer sk-test")]
    );
}

#[test]
fn build_request_adds_organization() {
    let c = Client::new_with_organization("k".to_string(), "org-9".to_string(), None);
    let bare = ApiRequest {
        method: HttpMethod::Get,
        url: "u".to_string(),
        headers: Vec::new(),
        json_body: None,
    };
    let r = c.build_request(bare);
    assert_eq!(
        headers(&r),
        vec![
            pair("Content-Type", "application/json"),
            pair("Authorization", "Bearer k"),
            pair("openai-organization", "org-9"),
        ]
    );
}

#[test]
fn completion_posts_json() {
    let r = client().completion("{\"model\":\"m\"}".to_string());
    assert!(r.method == HttpMethod::Post);
    assert_eq!(r.url, "http://localhost:8080/v1/completions");
    assert_eq!(r.json_body.as_deref(), Some("{\"model\":\"m\"}"));
    assert_eq!(headers(&r).len(), 2);
}

#[test]
fn post_endpoints_use_their_paths() {
    let c = client();
    let cases: Vec<(ApiRequest, &str)> = vec![
        (c.edit("{}".to_string()), "/edits"),
        (c.image_generation("{}".to_string()), "/images/generations"),
        (c.image_edit("{}".to_string()), "/images/edits"),
        (c.image_variation("{}".to_string()), "/images/variations"),
        (c.embedding("{}".to_string()), "/embeddings"),
        (c.file_upload("{}".to_string()), "/files"),
        (c.chat_completion("{}".to_string()), "/chat/completions"),
        (c.audio_transcription("{}".to_string()), "/audio/transcriptions"),
        (c.audio_translation("{}".to_string()), "/audio/translations"),
        (c.create_fine_tune("{}".to_string()), "/fine-tunes"),
        (c.create_moderation("{}".to_string()), "/moderations"),
    ];
    for (r, path) in cases {
        assert!(r.method == HttpMethod::Post);
        assert_eq!(r.url, format!("http://localhost:8080/v1{}", path));
        assert_eq!(r.json_body.as_deref(), Some("{}"));
    }
}

#[test]
fn get_and_delete_endpoints_use_their_paths() {
    let c = client();
    let r = c.file_list();
    assert!(r.method == HttpMethod::Get);
    assert_eq!(r.url, "http://localhost:8080/v1/files");
    assert!(r.json_body.is_none());

    let r = c.file_delete("file-1");
    assert!(r.method == HttpMethod::Delete);
    assert_eq!(r.url, "http://localhost:8080/v1/files/file-1");

    let r = c.file_retrieve("file-2");
    assert!(r.method == HttpMethod::Get);
    assert_eq!(r.url, "http://localhost:8080/v1/files/file-2");

    let r = c.file_retrieve_content("file-3");
    assert_eq!(r.url, "http://localhost:8080/v1/files/file-3/content");

    let r = c.list_fine_tune();
    assert_eq!(r.url, "http://localhost:8080/v1/fine-tunes");

    let r = c.retrieve_fine_tune("ft-1");
    assert_eq!(r.url, "http://localhost:8080/v1/fine_tunes/ft-1");

    let r = c.list_fine_tune_events("ft-2");
    assert!(r.method == HttpMethod::Get);
    assert_eq!(r.url, "http://localhost:8080/v1/fine-tunes/ft-2/events");

    let r = c.delete_fine_tune("model-x");
    assert!(r.method == HttpMethod::Delete);
    assert_eq!(r.url, "http://localhost:8080/v1/models/model-x");
}

#[test]
fn cancel_fine_tune_posts_body() {
    let r = client().cancel_fine_tune("ft-7", "{\"fine_tune_id\":\"ft-7\"}".to_string());
    assert!(r.method == HttpMethod::Post);
    assert_eq!(r.url, "http://localhost:8080/v1/fine_tunes/ft-7/cancel");
    assert_eq!(r.json_body.as_deref(), Some("{\"fine_tune_id\":\"ft-7\"}"));
}

#[test]
fn event_stream_has_no_organization_header() {
    let c = Client {
        api_endpoint: "http://h".to_string(),
        api_key: "k2".to_string(),
        organization: Some("o".to_string()),
    };
    let r = c.chat_completion_stream("{}".to_string());
    assert!(r.method == HttpMethod::Post);
    assert_eq!(r.url, "http://h/chat/completions");
    assert_eq!(
        headers(&r),
        vec![pair("content-type", "application/json"), pair("authorization", "Bearer k2")]
    );
    let s = c.stream("/completions", "{}".to_string());
    assert_eq!(s.url, "http://h/completions");
    assert_eq!(headers(&s).len(), 2);
}

#[test]
fn requests_carry_organization() {
    let c = Client::new_with_organization("k".to_string(), "acme".to_string(), Some("http://e".to_string()));
    let r = c.get("/models");
    assert_eq!(r.url, "http://e/models");
    assert!(headers(&r).contains(&pair("openai-organization", "acme")));
    assert!(headers(&r).contains(&pair("Authorization", "Bearer k")));
}

#[test]
fn success_status_is_accepted() {
    for code in [200, 201, 299] {
        let resp = HttpResponse { status_code: code, body: vec![0xff, 0xfe] };
        match check_response(resp) {
            Ok(r) => {
                assert_eq!(r.status_code, code);
                assert_eq!(r.body, vec![0xff, 0xfe]);
            }
            Err(_) => panic!("refused a success status"),
        }
    }
}

#[test]
fn error_status_gives_message() {
    let resp = HttpResponse { status_code: 404, body: b"not found".to_vec() };
    match check_response(resp) {
        Ok(_) => panic!("accepted an error status"),
        Err(e) => assert_eq!(e.message, "404: not found"),
    }
    let resp = HttpResponse { status_code: 300, body: "é".as_bytes().to_vec() };
    match check_response(resp) {
        Ok(_) => panic!("accepted 300"),
        Err(e) => assert_eq!(e.message, "300: é"),
    }
    let resp = HttpResponse { status_code: 199, body: Vec::new() };
    match check_response(resp) {
        Ok(_) => panic!("accepted 199"),
        Err(e) => assert_eq!(e.message, "199: "),
    }
}

#[test]
fn refused_invalid_utf8_is_none() {
    let resp = HttpResponse { status_code: 500, body: vec![0xff] };
    assert!(try_check_response(resp).is_none());
    let resp = HttpResponse { status_code: 500, body: b"oops".to_vec() };
    match try_check_response(resp) {
        Some(Err(e)) => assert_eq!(e.message, "500: oops"),
        _ => panic!("expected an error"),
    }
    let resp = HttpResponse { status_code: 204, body: vec![0xff] };
    assert!(matches!(try_check_response(resp), Some(Ok(_))));
}

#[test]
fn decimal_string_renders() {
    assert_eq!(decimal_string(0), "0");
    assert_eq!(decimal_string(7), "7");
    assert_eq!(decimal_string(404), "404");
    assert_eq!(decimal_string(-42), "-42");
    assert_eq!(decimal_string(i32::MAX), "2147483647");
    assert_eq!(decimal_string(i32::MIN), "-2147483648");
}

#[test]
fn embedding_request_new_and_user() {
    let r = EmbeddingRequest::new("text-embedding-ada-002".to_string(), "hello".to_string());
    assert_eq!(r.model, "text-embedding-ada-002");
    assert_eq!(r.input, "hello");
    assert!(r.user.is_none());
    let r = r.user("u1".to_string());
    assert_eq!(r.user.as_deref(), Some("u1"));
    assert_eq!(r.input, "hello");
    let u = Usage { prompt_tokens: 3, total_tokens: 5 };
    assert_eq!(u.prompt_tokens + u.total_tokens, 8);
}
