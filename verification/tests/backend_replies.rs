use mas_cli::api::{
    api_post_result, api_url, dispatch_start_body, error_from_backend_or_default,
    is_backend_error_payload, queue_get_body, status_is_success, HttpOutcome,
};
use mas_cli::errors::{ErrorCategory, ErrorSource};
use mas_cli::json::Json;
use mas_cli::queue_output::print_queue_table;

fn obj(fields: Vec<(&str, Json)>) -> Json {
    Json::Object(fields.into_iter().map(|(k, v)| (k.to_string(), v)).collect())
}

fn s(x: &str) -> Json {
    Json::Str(x.to_string())
}

#[test]
fn urls_drop_trailing_slashes() {
    assert_eq!(api_url("http://127.0.0.1:36163/", "/api/info/version"), "http://127.0.0.1:36163/api/info/version");
    assert_eq!(api_url("http://h", "/api/core/close"), "http://h/api/core/close");
}

#[test]
fn success_statuses() {
    assert!(status_is_success(200));
    assert!(status_is_success(299));
    assert!(!status_is_success(199));
    assert!(!status_is_success(300));
    assert!(!status_is_success(404));
}

#[test]
fn backend_error_payloads() {
    assert!(is_backend_error_payload(&obj(vec![("status", s("ERROR"))])));
    assert!(is_backend_error_payload(&obj(vec![("code", Json::Int(500))])));
    assert!(!is_backend_error_payload(&obj(vec![("code", Json::Int(200)), ("status", s("success"))])));
    assert!(!is_backend_error_payload(&obj(vec![("code", s("500"))])));
    assert!(!is_backend_error_payload(&s("error")));
}

#[test]
fn backend_error_message_or_default() {
    let e = error_from_backend_or_default(obj(vec![("message", s("队列不存在"))]), ErrorCategory::BackendBusinessError);
    assert_eq!(e.message, "队列不存在");
    assert_eq!(e.source, ErrorSource::Backend);
    assert!(e.backend_payload.is_some());
    let e = error_from_backend_or_default(obj(vec![]), ErrorCategory::BackendBusinessError);
    assert_eq!(e.message, "后端返回错误");
}

#[test]
fn http_outcomes() {
    let e = api_post_result(HttpOutcome::SendError).unwrap_err();
    assert_eq!(e.category, ErrorCategory::BackendUnreachable);
    assert_eq!(e.message, "后端未运行，无法执行命令");
    assert!(e.backend_payload.is_none());

    let e = api_post_result(HttpOutcome::ClientError("tls".to_string())).unwrap_err();
    assert_eq!(e.category, ErrorCategory::InvalidRuntimeConfiguration);
    assert_eq!(e.message, "创建 HTTP 客户端失败: tls");

    let ok = api_post_result(HttpOutcome::Response {
        status: 200,
        text: "{}".to_string(),
        body: Some(obj(vec![("code", Json::Int(200))])),
    });
    assert!(ok.is_ok());

    let e = api_post_result(HttpOutcome::Response {
        status: 502,
        text: "bad gateway".to_string(),
        body: None,
    })
    .unwrap_err();
    assert_eq!(e.category, ErrorCategory::BackendBusinessError);
    assert_eq!(e.message, "bad gateway");
    match e.backend_payload {
        Some(Json::Object(f)) => {
            assert_eq!(f[0].0, "code");
            assert!(matches!(f[0].1, Json::Int(502)));
            assert!(matches!(&f[1].1, Json::Str(x) if x == "error"));
        }
        _ => panic!("no payload"),
    }

    let e = api_post_result(HttpOutcome::Response {
        status: 200,
        text: String::new(),
        body: Some(obj(vec![("status", s("error")), ("message", s("boom"))])),
    })
    .unwrap_err();
    assert_eq!(e.message, "boom");

    let plain = api_post_result(HttpOutcome::Response { status: 200, text: "pong".to_string(), body: None }).unwrap();
    match plain {
        Json::Object(f) => assert!(matches!(&f[1].1, Json::Str(x) if x == "success")),
        _ => panic!(),
    }
}

#[test]
fn request_bodies() {
    match queue_get_body() {
        Json::Object(f) => {
            assert_eq!(f.len(), 1);
            assert_eq!(f[0].0, "queueId");
            assert!(matches!(f[0].1, Json::Null));
        }
        _ => panic!(),
    }
    match dispatch_start_body("q1", "AutoProxy") {
        Json::Object(f) => {
            assert_eq!(f[0].0, "mode");
            assert!(matches!(&f[0].1, Json::Str(x) if x == "AutoProxy"));
            assert_eq!(f[1].0, "taskId");
            assert!(matches!(&f[1].1, Json::Str(x) if x == "q1"));
        }
        _ => panic!(),
    }
}

#[test]
fn queue_tables() {
    let reply = obj(vec![(
        "data",
        obj(vec![(
            "list",
            Json::Array(vec![
                obj(vec![("queueId", s("a1")), ("queueName", s("默认队列"))]),
                obj(vec![("queueId", s("b2")), ("name", s("备用"))]),
                obj(vec![("queueName", Json::Int(3)), ("name", s("ignored"))]),
            ]),
        )]),
    )]);
    assert_eq!(
        print_queue_table(&reply),
        vec!["queueId\tname", "a1\t默认队列", "b2\t备用", "-\t-"]
    );
    let bare = Json::Array(vec![obj(vec![("queueId", s("x"))])]);
    assert_eq!(print_queue_table(&bare), vec!["queueId\tname", "x\t-"]);
    assert_eq!(print_queue_table(&obj(vec![("data", obj(vec![]))])), vec!["queueId\tname"]);
}
