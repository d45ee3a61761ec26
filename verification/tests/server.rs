use gpmcp_layer::blueprint::{CommandRunner, Runner, ServerDefinition};
use gpmcp_layer::server::{
    parse_usize, GpmcpServer, HttpHeader, ProxyDecision, ProxyService, ServePlan, StdioAction,
    StdioRelay,
};

fn header(name: &str, value: &str) -> HttpHeader {
    HttpHeader {
        name: name.to_string(),
        value: value.as_bytes().to_vec(),
    }
}

fn proxy() -> ProxyService {
    ProxyService::new("http://localhost:8080/".to_string())
}

#[test]
fn calculation_token_requests() {
    let p = proxy();
    assert!(p.is_calculation_token_request("/calculate", Some("token=1"), &vec![]));
    assert!(!p.is_calculation_token_request("/calculate", None, &vec![]));
    assert!(!p.is_calculation_token_request("/other", Some("token=1"), &vec![]));
    assert!(p.is_calculation_token_request("/shutdown", None, &vec![]));
    assert!(!p.is_calculation_token_request("/shutdown/now", None, &vec![]));
    assert!(p.is_calculation_token_request(
        "/sse",
        None,
        &vec![header("x-calculation-token", "1")]
    ));
}

#[test]
fn shutdown_decision_answers_at_once() {
    let p = proxy();
    match p.decide("/shutdown", None, &vec![]) {
        ProxyDecision::Shutdown(r) => {
            assert_eq!(r.status, 200);
            assert_eq!(r.headers.len(), 1);
            assert_eq!(r.headers[0].name, "content-type");
            assert_eq!(r.headers[0].value, b"application/json".to_vec());
            assert_eq!(
                String::from_utf8(r.body).unwrap(),
                r#"{"status":"shutdown","message":"Server shutting down due to calculation token request"}"#
            );
        }
        ProxyDecision::Forward => panic!("should shut down"),
    }
    assert!(matches!(p.decide("/sse", None, &vec![]), ProxyDecision::Forward));
}

#[test]
fn forward_url_joins_target_and_path() {
    let p = proxy();
    assert_eq!(p.forward_url(Some("/sse?x=1")), "http://localhost:8080/sse?x=1");
    assert_eq!(p.forward_url(None), "http://localhost:8080/");
    let q = ProxyService::new("http://h".to_string());
    assert_eq!(q.forward_url(Some("/a")), "http://h/a");
}

#[test]
fn hop_by_hop_headers_are_not_forwarded() {
    let p = proxy();
    let headers = vec![
        header("host", "localhost:3000"),
        header("accept", "text/event-stream"),
        header("Connection", "keep-alive"),
        header("transfer-encoding", "chunked"),
        header("content-length", "10"),
        HttpHeader {
            name: "x-binary".to_string(),
            value: vec![0xff, 0x01],
        },
        header("authorization", "Bearer abc"),
    ];
    let out = p.forwarded_headers(&headers);
    let names: Vec<&str> = out.iter().map(|h| h.name.as_str()).collect();
    assert_eq!(names, vec!["accept", "authorization"]);
    assert_eq!(out[1].value, b"Bearer abc".to_vec());
}

#[test]
fn event_stream_responses_get_streaming_headers() {
    let p = proxy();
    let upstream = vec![header("content-type", "text/event-stream; charset=utf-8")];
    let out = p.response_headers(&upstream);
    let pairs: Vec<(String, String)> = out
        .iter()
        .map(|h| (h.name.clone(), String::from_utf8(h.value.clone()).unwrap()))
        .collect();
    assert_eq!(
        pairs,
        vec![
            ("content-type".to_string(), "text/event-stream; charset=utf-8".to_string()),
            ("content-type".to_string(), "text/event-stream".to_string()),
            ("cache-control".to_string(), "no-cache".to_string()),
            ("connection".to_string(), "keep-alive".to_string()),
        ]
    );
    let plain = vec![header("content-type", "application/json"), header("x-a", "b")];
    assert_eq!(p.response_headers(&plain).len(), 2);
}

#[test]
fn forward_error_response() {
    let r = proxy().create_error_response();
    assert_eq!(r.status, 500);
    assert_eq!(
        String::from_utf8(r.body).unwrap(),
        r#"{"error":"Failed to forward request"}"#
    );
}

#[test]
fn usize_parsing_matches_std() {
    for s in ["", "0", "42", "+7", "+", "-1", "1a", "007", "18446744073709551615", "18446744073709551616", "99999999999999999999999"] {
        assert_eq!(parse_usize(&s.as_bytes().to_vec()), s.parse::<usize>().ok(), "{:?}", s);
    }
}

#[test]
fn content_length_header() {
    let relay = StdioRelay;
    assert_eq!(relay.content_length(&vec![header("Content-Length", "12")]), 12);
    assert_eq!(relay.content_length(&vec![header("content-length", "abc")]), 0);
    assert_eq!(relay.content_length(&vec![]), 0);
    assert_eq!(
        relay.content_length(&vec![header("content-length", "3"), header("content-length", "9")]),
        3
    );
    assert!(relay.should_forward(true, 0));
    assert!(relay.should_forward(false, 1));
    assert!(!relay.should_forward(false, 0));
}

fn error_text(a: StdioAction) -> String {
    match a {
        StdioAction::Respond(r) => {
            assert_eq!(r.status, 500);
            String::from_utf8(r.body).unwrap()
        }
        _ => panic!("expected an answer"),
    }
}

#[test]
fn stdio_relay_steps() {
    let relay = StdioRelay;
    assert_eq!(
        error_text(relay.on_request(true, true, &vec![])),
        r#"{"error":"Server is shutting down"}"#
    );
    assert!(matches!(relay.on_request(false, true, &vec![]), StdioAction::CollectBody));
    assert!(matches!(
        relay.on_request(false, false, &vec![header("content-length", "5")]),
        StdioAction::CollectBody
    ));
    match relay.on_request(false, false, &vec![]) {
        StdioAction::Respond(r) => {
            assert_eq!(r.status, 200);
            assert!(r.headers.is_empty());
            let body = String::from_utf8(r.body).unwrap();
            assert!(body.contains("\"protocolVersion\":\"2025-03-26\""));
            assert!(body.starts_with("{\"id\":0,\"jsonrpc\":\"2.0\""));
        }
        _ => panic!("expected the stand-in reply"),
    }
    match relay.on_body(Ok(b"{}".to_vec())) {
        StdioAction::SendToChild(b) => assert_eq!(b, b"{}".to_vec()),
        _ => panic!("expected the body to be sent"),
    }
    assert_eq!(
        error_text(relay.on_body(Err("eof".to_string()))),
        r#"{"error":"Failed to read request body"}"#
    );
    assert!(matches!(relay.on_sent(true), StdioAction::AwaitChildOutput));
    assert_eq!(
        error_text(relay.on_sent(false)),
        r#"{"error":"Failed to send request to child process"}"#
    );
    let ok = relay.on_child_output(Some(Ok(b"out".to_vec())));
    assert_eq!(ok.status, 200);
    assert_eq!(ok.headers[0].value, b"application/octet-stream".to_vec());
    assert_eq!(ok.body, b"out".to_vec());
    assert_eq!(
        String::from_utf8(relay.on_child_output(None).body).unwrap(),
        r#"{"error":"Child process closed"}"#
    );
    assert_eq!(
        String::from_utf8(relay.on_child_output(Some(Err("x".to_string()))).body).unwrap(),
        r#"{"error":"Error reading from child process"}"#
    );
}

#[test]
fn serve_plans() {
    let stdio = GpmcpServer {
        server_definition: ServerDefinition {
            runner: Runner::Stdio {
                command_runner: CommandRunner {
                    command: "python3".to_string(),
                    args: vec!["server.py".to_string()],
                    workdir: String::new(),
                },
            },
            ..Default::default()
        },
    };
    match stdio.serve_plan() {
        ServePlan::Stdio { command, listen } => {
            assert_eq!(command.program, "python3");
            assert_eq!(listen, "127.0.0.1:3002");
        }
        other => panic!("unexpected {:?}", other),
    }
    let sse = GpmcpServer {
        server_definition: ServerDefinition {
            runner: Runner::Sse {
                command_runner: CommandRunner {
                    command: "node".to_string(),
                    args: vec![],
                    workdir: "/srv".to_string(),
                },
                url: "http://localhost:8000".to_string(),
            },
            ..Default::default()
        },
    };
    match sse.serve_plan() {
        ServePlan::Sse { command, listen, target_url } => {
            assert_eq!(command.working_dir, Some("/srv".to_string()));
            assert_eq!(listen, "127.0.0.1:3000");
            assert_eq!(target_url, "http://localhost:8000");
        }
        other => panic!("unexpected {:?}", other),
    }
}

#[test]
fn forwarded_request_keeps_method_and_sends_a_body_only_when_there_is_one() {
    let p = ProxyService::new("http://h:1/".to_string());
    let headers = vec![header("Host", "x"), header("accept", "text/event-stream")];
    let r = p.forward_request("POST", Some("/sse?x=1"), &headers, b"{}".to_vec());
    assert_eq!(r.method, "POST");
    assert_eq!(r.url, "http://h:1/sse?x=1");
    assert_eq!(r.headers.len(), 1);
    assert_eq!(r.headers[0].name, "accept");
    assert_eq!(r.body, Some(b"{}".to_vec()));
    let r = p.forward_request("GET", None, &vec![], vec![]);
    assert_eq!(r.method, "GET");
    assert_eq!(r.url, "http://h:1/");
    assert_eq!(r.body, None);
}
