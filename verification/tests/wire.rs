use operator_host::wire::{
    built_request, complete_request, encoded_response, prepare_request, Header, HttpMethod,
    HttpRequest, RequestError, SendOutcome,
};

fn request(method: HttpMethod, uri: &str, headers: Vec<(&str, &str)>, body: &[u8]) -> HttpRequest {
    HttpRequest {
        method,
        uri: uri.to_string(),
        headers: headers
            .into_iter()
            .map(|(name, value)| Header { name: name.to_string(), value: value.to_string() })
            .collect(),
        body: body.to_vec(),
    }
}

#[test]
fn method_names_are_the_http_names() {
    assert_eq!(HttpMethod::Get.as_str(), "GET");
    assert_eq!(HttpMethod::Post.as_str(), "POST");
    assert_eq!(HttpMethod::Put.as_str(), "PUT");
    assert_eq!(HttpMethod::Delete.as_str(), "DELETE");
    assert_eq!(HttpMethod::Patch.as_str(), "PATCH");
}

#[test]
fn error_messages_name_the_stage() {
    assert_eq!(RequestError::InvalidUri("x".to_string()).message(), "Invalid URI: x");
    assert_eq!(RequestError::InvalidMethod("x".to_string()).message(), "Invalid method: x");
    assert_eq!(RequestError::Build("x".to_string()).message(), "Failed to build request: x");
    assert_eq!(RequestError::Transport("x".to_string()).message(), "Failed to send request: x");
    assert_eq!(
        RequestError::Encode("x".to_string()).message(),
        "Failed to serialize response: x"
    );
}

#[test]
fn prepared_request_carries_method_uri_headers_and_body() {
    let guest = request(
        HttpMethod::Post,
        "/apis/example.com/v1/namespaces/ns-b/rings",
        vec![("Content-Type", "application/json"), ("X-Trace", "1"), ("X-Trace", "2")],
        b"{\"kind\":\"Ring\"}",
    );
    let prepared = prepare_request(&guest).expect("request is built");
    assert_eq!(prepared.method(), http::Method::POST);
    assert_eq!(prepared.uri().path(), "/apis/example.com/v1/namespaces/ns-b/rings");
    assert_eq!(prepared.headers().len(), 3);
    assert_eq!(prepared.headers().get("content-type").unwrap(), "application/json");
    let traces: Vec<&str> =
        prepared.headers().get_all("x-trace").iter().map(|v| v.to_str().unwrap()).collect();
    assert_eq!(traces, vec!["1", "2"]);
    assert_eq!(prepared.body().as_slice(), b"{\"kind\":\"Ring\"}");
}

#[test]
fn every_guest_method_is_accepted() {
    let methods = [
        (HttpMethod::Get, http::Method::GET),
        (HttpMethod::Post, http::Method::POST),
        (HttpMethod::Put, http::Method::PUT),
        (HttpMethod::Delete, http::Method::DELETE),
        (HttpMethod::Patch, http::Method::PATCH),
    ];
    for (ours, theirs) in methods {
        let prepared =
            prepare_request(&request(ours, "/api/v1/pods", Vec::new(), b"")).expect("built");
        assert_eq!(prepared.method(), theirs);
        assert!(prepared.headers().is_empty());
        assert!(prepared.body().is_empty());
    }
}

#[test]
fn invalid_uri_is_refused_with_the_parsers_message() {
    let guest = request(HttpMethod::Get, "/api/v1/pods with spaces", Vec::new(), b"");
    match prepare_request(&guest) {
        Err(RequestError::InvalidUri(detail)) => {
            let expected = "/api/v1/pods with spaces".parse::<http::Uri>().unwrap_err();
            assert_eq!(detail, expected.to_string());
            assert_eq!(
                RequestError::InvalidUri(detail).message(),
                format!("Invalid URI: {}", expected)
            );
        }
        other => panic!("unexpected result {:?}", other),
    }
    assert!(matches!(
        prepare_request(&request(HttpMethod::Get, "", Vec::new(), b"")),
        Err(RequestError::InvalidUri(_))
    ));
}

#[test]
fn invalid_header_fails_the_build() {
    let guest = request(HttpMethod::Get, "/api/v1/pods", vec![("bad name", "v")], b"");
    match prepare_request(&guest) {
        Err(RequestError::Build(detail)) => assert!(!detail.is_empty()),
        other => panic!("unexpected result {:?}", other),
    }
    let guest = request(HttpMethod::Get, "/api/v1/pods", vec![("X-Ok", "bad\nvalue")], b"");
    assert!(matches!(prepare_request(&guest), Err(RequestError::Build(_))));
}

#[test]
fn built_request_maps_the_builders_error() {
    match built_request(Err("header name is invalid".to_string())) {
        Err(RequestError::Build(detail)) => assert_eq!(detail, "header name is invalid"),
        other => panic!("unexpected result {:?}", other),
    }
    let made = http::Request::builder().uri("/x").body(vec![1u8, 2, 3]).unwrap();
    let kept = built_request(Ok(made)).expect("request is kept");
    assert_eq!(kept.uri().path(), "/x");
    assert_eq!(kept.body().as_slice(), &[1u8, 2, 3]);
}

#[test]
fn document_is_returned_as_json_bytes() {
    let value: serde_json::Value =
        serde_json::from_str("{\"kind\":\"Ring\",\"spec\":{\"targetNamespace\":\"ns-b\"}}")
            .unwrap();
    let response = complete_request(SendOutcome::Document(value.clone())).expect("response");
    let back: serde_json::Value = serde_json::from_slice(&response.body).unwrap();
    assert_eq!(back, value);
    assert_eq!(response.body, serde_json::to_vec(&value).unwrap());
}

#[test]
fn api_error_status_is_passed_through_as_a_body() {
    let status: serde_json::Value = serde_json::from_str(
        "{\"kind\":\"Status\",\"apiVersion\":\"v1\",\"status\":\"Failure\",\"reason\":\"AlreadyExists\",\"code\":409}",
    )
    .unwrap();
    let response = complete_request(SendOutcome::Status(status)).expect("no host-level error");
    let body: serde_json::Value = serde_json::from_slice(&response.body).unwrap();
    assert_eq!(body["kind"], "Status");
    assert_eq!(body["code"], 409);
}

#[test]
fn transport_failure_is_an_error() {
    match complete_request(SendOutcome::Transport("connection refused".to_string())) {
        Err(error) => {
            assert!(matches!(&error, RequestError::Transport(detail) if detail == "connection refused"));
            assert_eq!(error.message(), "Failed to send request: connection refused");
        }
        Ok(response) => panic!("unexpected response {:?}", response),
    }
}

#[test]
fn encoded_response_keeps_bytes_and_maps_errors() {
    assert_eq!(encoded_response(Ok(vec![1, 2, 3])).expect("response").body, vec![1, 2, 3]);
    match encoded_response(Err("key must be a string".to_string())) {
        Err(RequestError::Encode(detail)) => assert_eq!(detail, "key must be a string"),
        other => panic!("unexpected result {:?}", other),
    }
}

#[test]
fn headers_are_kept_by_name_in_lower_case_with_their_values_in_order() {
    let guest = request(
        HttpMethod::Put,
        "/api/v1/pods?watch=true",
        vec![
            ("X-Trace", "1"),
            ("Content-Type", "application/json"),
            ("x-trace", "2"),
            ("Accept", "é"),
            ("X-TRACE", "3"),
        ],
        b"body",
    );
    let prepared = prepare_request(&guest).expect("request is built");
    assert_eq!(prepared.method().as_str(), "PUT");
    assert_eq!(prepared.uri().to_string(), "/api/v1/pods?watch=true");
    let names: Vec<&str> = prepared.headers().keys().map(|name| name.as_str()).collect();
    assert_eq!(names, vec!["x-trace", "content-type", "accept"]);
    let traces: Vec<&[u8]> =
        prepared.headers().get_all("x-trace").iter().map(|v| v.as_bytes()).collect();
    assert_eq!(traces, vec![&b"1"[..], &b"2"[..], &b"3"[..]]);
    assert_eq!(prepared.headers().get("accept").unwrap().as_bytes(), "é".as_bytes());
    assert_eq!(prepared.headers().len(), 5);
    assert_eq!(prepared.body().as_slice(), b"body");
}

#[test]
fn first_refused_header_decides_the_complaint() {
    let guest = request(
        HttpMethod::Get,
        "/api/v1/pods",
        vec![("X-Ok", "fine"), ("X-Bad", "bad\nvalue"), ("bad name", "v")],
        b"",
    );
    let expected = http::Request::builder()
        .header("X-Bad", "bad\nvalue")
        .body(())
        .unwrap_err()
        .to_string();
    match prepare_request(&guest) {
        Err(RequestError::Build(detail)) => assert_eq!(detail, expected),
        other => panic!("unexpected result {:?}", other),
    }
}

#[test]
fn status_document_is_written_like_any_document() {
    let text = "{\"kind\":\"Status\",\"code\":404,\"details\":{\"name\":\"r1\",\"causes\":[1,2.5,null,true]}}";
    let status: serde_json::Value = serde_json::from_str(text).unwrap();
    let as_status = complete_request(SendOutcome::Status(status.clone())).expect("response");
    let as_document = complete_request(SendOutcome::Document(status.clone())).expect("response");
    assert_eq!(as_status.body, serde_json::to_vec(&status).unwrap());
    assert_eq!(as_status.body, as_document.body);
}
