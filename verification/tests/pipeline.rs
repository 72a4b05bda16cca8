use openai_ask::pipeline::{
    plan_logging, Body, Logging, Request, RequestType, Statement, MISSING_KEY_NOTICE,
    PIPELINE_TIMEOUT_SECS, PIPELINE_URL,
};

fn queries() -> Vec<String> {
    vec![
        "INSERT INTO openai_communication(body) VALUES(\"ars1\")".to_string(),
        "INSERT INTO openai_communication(body) VALUES(\"ars2\")".to_string(),
        "INSERT INTO openai_communication(body) VALUES(\"ars3\")".to_string(),
    ]
}

const BATCH_TEXT: &str = "{\"requests\":[{\"type\":\"execute\",\"stmt\":{\"sql\":\"INSERT INTO openai_communication(body) VALUES(\\\"ars1\\\")\"}},{\"type\":\"execute\",\"stmt\":{\"sql\":\"INSERT INTO openai_communication(body) VALUES(\\\"ars2\\\")\"}},{\"type\":\"execute\",\"stmt\":{\"sql\":\"INSERT INTO openai_communication(body) VALUES(\\\"ars3\\\")\"}},{\"type\":\"close\"}]}";

#[test]
fn test_run() {
    let a = vec![
        "INSERT INTO openai_communication(body) VALUES(\"ars1\")".to_string(),
        "INSERT INTO openai_communication(body) VALUES(\"ars2\")".to_string(),
        "INSERT INTO openai_communication(body) VALUES(\"ars3\")".to_string(),
    ];
    let plan = plan_logging(Some("token".to_string()), &a);
    let b = plan.status();
    println!("---{}", b);
    assert_eq!(b, 1);
    match plan {
        Logging::Send(request) => {
            assert_eq!(request.url, "https://log-seungjin.turso.io/v2/pipeline");
            assert_eq!(String::from_utf8(request.body).unwrap(), BATCH_TEXT);
            assert_eq!(request.headers[2].value, "Bearer token");
        }
        Logging::MissingKey => panic!("a key was given"),
    }
}

#[test]
fn logging_without_key_sends_nothing() {
    let plan = plan_logging(None, &queries());
    assert_eq!(plan, Logging::MissingKey);
    assert_eq!(plan.status(), -1);
    assert_eq!(MISSING_KEY_NOTICE, "Can't find TURSO_API_KEY.");
}

#[test]
fn logging_request_has_the_usual_headers() {
    match plan_logging(Some("token".to_string()), &queries()) {
        Logging::Send(request) => {
            assert_eq!(PIPELINE_URL, "https://log-seungjin.turso.io/v2/pipeline");
            assert_eq!(PIPELINE_TIMEOUT_SECS, 5);
            assert_eq!(request.connect_timeout_secs, 5);
            let headers: Vec<(&str, &str)> =
                request.headers.iter().map(|h| (h.name.as_str(), h.value.as_str())).collect();
            let length = BATCH_TEXT.len().to_string();
            assert_eq!(
                headers,
                vec![
                    ("Content-Type", "application/json"),
                    ("Accept", "*/*"),
                    ("Authorization", "Bearer token"),
                    ("Content-Length", length.as_str()),
                ]
            );
        }
        Logging::MissingKey => panic!("a key was given"),
    }
}

#[test]
fn batch_executes_each_query_and_closes() {
    let body = Body::for_queries(&queries());
    assert_eq!(body.requests.len(), 4);
    for (i, query) in queries().into_iter().enumerate() {
        assert_eq!(
            body.requests[i],
            Request { type_: RequestType::Execute, stmt: Some(Statement { sql: query }) }
        );
    }
    assert_eq!(body.requests[3], Request { type_: RequestType::Close, stmt: None });
}

#[test]
fn batch_of_no_queries_only_closes() {
    let body = Body::for_queries(&vec![]);
    assert_eq!(body.requests, vec![Request { type_: RequestType::Close, stmt: None }]);
    assert_eq!(body.to_json(), "{\"requests\":[{\"type\":\"close\"}]}");
}

#[test]
fn batch_text_is_exact() {
    assert_eq!(Body::for_queries(&queries()).to_json(), BATCH_TEXT);
}

#[test]
fn batch_text_round_trips_through_json() {
    let parsed: serde_json::Value =
        serde_json::from_str(&Body::for_queries(&queries()).to_json()).unwrap();
    let requests = parsed["requests"].as_array().unwrap();
    assert_eq!(requests.len(), 4);
    assert_eq!(requests[0]["type"].as_str(), Some("execute"));
    assert_eq!(
        requests[0]["stmt"]["sql"].as_str(),
        Some("INSERT INTO openai_communication(body) VALUES(\"ars1\")")
    );
    assert_eq!(requests[3]["type"].as_str(), Some("close"));
    assert_eq!(requests[3].get("stmt"), None);
}

#[test]
fn batch_text_of_an_empty_batch() {
    assert_eq!(Body { requests: vec![] }.to_json(), "{\"requests\":[]}");
}

#[test]
fn request_type_names_are_lower_case() {
    assert_eq!(RequestType::Execute.as_str(), "execute");
    assert_eq!(RequestType::Close.as_str(), "close");
}
