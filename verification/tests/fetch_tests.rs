use superflux_fetch::client::ClientManager;
use superflux_fetch::errors::ClassifiedError;
use superflux_fetch::fetch::{fetch, fetch_body_outcome, fetch_status_gate};

#[test]
fn invalid_url_is_rejected_without_network_call() {
    let mut server = mockito::Server::new();
    let probe = server.mock("GET", "/").expect(0).create();

    let mut mgr = ClientManager::new();
    let r = fetch(&mut mgr, "not a url");
    match r {
        Err(ClassifiedError::InvalidInput(m)) => assert!(m.starts_with("Invalid URL:")),
        other => panic!("expected InvalidInput, got {:?}", other),
    }
    // The network-call counter of the local server stayed at zero.
    probe.assert();
}

#[test]
fn schemeless_and_relative_urls_are_invalid_input() {
    let mut mgr = ClientManager::new();
    for bad in ["", "example.org/feed", "/relative/path", "ht tp://x"] {
        match fetch(&mut mgr, bad) {
            Err(ClassifiedError::InvalidInput(_)) => {}
            other => panic!("expected InvalidInput for {bad:?}, got {:?}", other),
        }
    }
}

#[test]
fn success_statuses_pass_the_gate() {
    assert!(fetch_status_gate(200).is_ok());
    assert!(fetch_status_gate(204).is_ok());
    assert!(fetch_status_gate(299).is_ok());
}

#[test]
fn non_success_statuses_fail_the_gate_with_their_code() {
    for code in [100u16, 199, 300, 302, 403, 404, 500] {
        match fetch_status_gate(code) {
            Err(ClassifiedError::HttpStatusFailure(c, m)) => {
                assert_eq!(c, code);
                assert_eq!(m, format!("HTTP {code}"));
            }
            other => panic!("expected HttpStatusFailure for {code}, got {:?}", other),
        }
    }
}

#[test]
fn a_successful_response_with_hello_yields_hello() {
    // The decision chain of the content-fetch path on a 200 response whose
    // body reads "hello".
    assert!(fetch_status_gate(200).is_ok());
    let r = fetch_body_outcome(Ok("hello".to_string()));
    assert_eq!(r.unwrap(), "hello");
}

#[test]
fn a_failed_body_read_is_body_read_failed() {
    match fetch_body_outcome(Err("stream truncated".to_string())) {
        Err(ClassifiedError::BodyReadFailed(m)) => {
            assert_eq!(m, "Failed to read response body: stream truncated")
        }
        other => panic!("expected BodyReadFailed, got {:?}", other),
    }
}

#[test]
fn an_unreachable_host_is_classified_as_connect_failure() {
    let mut mgr = ClientManager::new();
    // Port 1 is reserved and closed, so establishing the connection fails.
    match fetch(&mut mgr, "http://127.0.0.1:1/") {
        Err(ClassifiedError::ConnectFailed(m)) => {
            assert!(m.starts_with("Connection failed: "))
        }
        other => panic!("expected ConnectFailed, got {:?}", other),
    }
}
