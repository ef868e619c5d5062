use superflux_fetch::client::ClientManager;
use superflux_fetch::errors::ClassifiedError;
use superflux_fetch::headers::with_default_user_agent;
use superflux_fetch::request::{http_request, parse_method, response_outcome, HttpMethod};

const BROWSER_UA: &str = "Mozilla/5.0 (Windows NT 10.0; Win64; x64) AppleWebKit/537.36 (KHTML, like Gecko) Chrome/120.0.0.0 Safari/537.36";

#[test]
fn method_parsing_is_case_insensitive() {
    assert_eq!(parse_method("get"), Some(HttpMethod::Get));
    assert_eq!(parse_method("GET"), Some(HttpMethod::Get));
    assert_eq!(parse_method("GeT"), Some(HttpMethod::Get));
    assert_eq!(parse_method("post"), Some(HttpMethod::Post));
    assert_eq!(parse_method("Put"), Some(HttpMethod::Put));
    assert_eq!(parse_method("DELETE"), Some(HttpMethod::Delete));
    assert_eq!(parse_method("patch"), Some(HttpMethod::Patch));
    assert_eq!(parse_method("BREW"), None);
    assert_eq!(parse_method(""), None);
    assert_eq!(parse_method("GETS"), None);
}

#[test]
fn unsupported_method_is_invalid_input() {
    let mut mgr = ClientManager::new();
    match http_request(&mut mgr, "BREW", "http://example.org/", Vec::new(), None) {
        Err(ClassifiedError::InvalidInput(m)) => {
            assert_eq!(m, "Unsupported HTTP method: BREW")
        }
        other => panic!("expected InvalidInput, got {:?}", other),
    }
}

#[test]
fn unsupported_method_is_reported_uppercased() {
    let mut mgr = ClientManager::new();
    match http_request(&mut mgr, "trace", "http://example.org/", Vec::new(), None) {
        Err(ClassifiedError::InvalidInput(m)) => {
            assert_eq!(m, "Unsupported HTTP method: TRACE")
        }
        other => panic!("expected InvalidInput, got {:?}", other),
    }
    match http_request(&mut mgr, "bRew", "http://example.org/", Vec::new(), None) {
        Err(ClassifiedError::InvalidInput(m)) => {
            assert_eq!(m, "Unsupported HTTP method: BREW")
        }
        other => panic!("expected InvalidInput, got {:?}", other),
    }
}

#[test]
fn invalid_header_name_is_invalid_input_naming_the_key() {
    let mut server = mockito::Server::new();
    let probe = server.mock("GET", "/").expect(0).create();
    let mut mgr = ClientManager::new();
    let headers = vec![("bad name".to_string(), "v".to_string())];
    match http_request(&mut mgr, "GET", &server.url(), headers, None) {
        Err(ClassifiedError::InvalidInput(m)) => {
            assert_eq!(m, "Invalid header name 'bad name': invalid HTTP header name")
        }
        other => panic!("expected InvalidInput, got {:?}", other),
    }
    probe.assert();
}

#[test]
fn invalid_header_value_is_invalid_input_naming_the_key() {
    let mut mgr = ClientManager::new();
    let headers = vec![("x-note".to_string(), "line\nbreak".to_string())];
    match http_request(&mut mgr, "GET", "http://example.org/", headers, None) {
        Err(ClassifiedError::InvalidInput(m)) => {
            assert_eq!(m, "Invalid header value for 'x-note': failed to parse header value")
        }
        other => panic!("expected InvalidInput, got {:?}", other),
    }
}

#[test]
fn token_header_names_pass_validation_whatever_their_case() {
    // Uppercase letters and the odd token characters are wire-valid names,
    // so these requests get past validation to the transport, where the
    // closed port stops them.
    let mut mgr = ClientManager::new();
    for name in ["X-Custom-Header", "UPPER", "x1", "exotic!#$%&'*+.^_`|~"] {
        let headers = vec![(name.to_string(), "v".to_string())];
        match http_request(&mut mgr, "GET", "http://127.0.0.1:1/", headers, None) {
            Err(ClassifiedError::ConnectFailed(_)) => {}
            other => panic!("expected ConnectFailed for name {name:?}, got {:?}", other),
        }
    }
}

#[test]
fn empty_header_name_is_invalid_input() {
    let mut mgr = ClientManager::new();
    let headers = vec![("".to_string(), "v".to_string())];
    match http_request(&mut mgr, "GET", "http://example.org/", headers, None) {
        Err(ClassifiedError::InvalidInput(m)) => {
            assert_eq!(m, "Invalid header name '': invalid HTTP header name")
        }
        other => panic!("expected InvalidInput, got {:?}", other),
    }
}

#[test]
fn header_values_allow_tab_and_non_ascii_but_not_control_characters() {
    let mut mgr = ClientManager::new();
    // Tab and non-ASCII text are wire-valid values.
    for value in ["with\ttab", "café", "plain"] {
        let headers = vec![("x-probe".to_string(), value.to_string())];
        match http_request(&mut mgr, "GET", "http://127.0.0.1:1/", headers, None) {
            Err(ClassifiedError::ConnectFailed(_)) => {}
            other => panic!("expected ConnectFailed for value {value:?}, got {:?}", other),
        }
    }
    // Carriage return is a control character: rejected before any I/O.
    let headers = vec![("x-probe".to_string(), "a\rb".to_string())];
    match http_request(&mut mgr, "GET", "http://127.0.0.1:1/", headers, None) {
        Err(ClassifiedError::InvalidInput(m)) => {
            assert_eq!(m, "Invalid header value for 'x-probe': failed to parse header value")
        }
        other => panic!("expected InvalidInput, got {:?}", other),
    }
}

#[test]
fn a_404_response_is_a_success_of_the_generic_path() {
    // The same response the content-fetch path rejects as HttpStatusFailure
    // is returned whole here, so the caller can inspect the code.
    let resp = response_outcome(404, Vec::new(), Ok("gone".to_string())).unwrap();
    assert_eq!(resp.status, 404);
    assert_eq!(resp.body, "gone");
    assert!(resp.headers.is_empty());
}

#[test]
fn only_a_failed_body_read_fails_the_generic_path() {
    match response_outcome(200, Vec::new(), Err("stream truncated".to_string())) {
        Err(ClassifiedError::BodyReadFailed(m)) => {
            assert_eq!(m, "Failed to read response body: stream truncated")
        }
        other => panic!("expected BodyReadFailed, got {:?}", other),
    }
}

#[test]
fn default_user_agent_is_injected_when_caller_supplies_none() {
    let sent = with_default_user_agent(Vec::new());
    assert_eq!(sent, vec![("User-Agent".to_string(), BROWSER_UA.to_string())]);

    let sent = with_default_user_agent(vec![("accept".to_string(), "text/plain".to_string())]);
    assert_eq!(sent.len(), 2);
    assert_eq!(sent[1], ("User-Agent".to_string(), BROWSER_UA.to_string()));
}

#[test]
fn caller_user_agent_is_kept_whatever_its_casing() {
    for spelling in ["User-Agent", "user-agent", "USER-AGENT", "uSeR-aGeNt"] {
        let given = vec![(spelling.to_string(), "custom-agent/2.0".to_string())];
        let sent = with_default_user_agent(given.clone());
        assert_eq!(sent, given);
    }
}

#[test]
fn method_casing_does_not_change_behavior() {
    // Every spelling of the verb takes the request equally far: past
    // validation, to the same transport failure against a closed port.
    let mut mgr = ClientManager::new();
    for spelling in ["get", "GET", "gEt"] {
        match http_request(&mut mgr, spelling, "http://127.0.0.1:1/", Vec::new(), None) {
            Err(ClassifiedError::ConnectFailed(_)) => {}
            other => panic!("expected ConnectFailed for {spelling}, got {:?}", other),
        }
    }
}

#[test]
fn response_shaped_headers_are_valid_request_headers() {
    // Headers as the generic path hands them back (lowercased names,
    // visible-ASCII values) pass validation when re-applied to a request:
    // the round trip fails only at the closed port, never as invalid input.
    let mut mgr = ClientManager::new();
    let echoed = vec![
        ("content-type".to_string(), "text/plain".to_string()),
        ("x-flavor".to_string(), "plum".to_string()),
        ("content-length".to_string(), "4".to_string()),
    ];
    match http_request(&mut mgr, "GET", "http://127.0.0.1:1/", echoed, Some("body".to_string())) {
        Err(ClassifiedError::ConnectFailed(_)) => {}
        other => panic!("expected ConnectFailed, got {:?}", other),
    }
}
