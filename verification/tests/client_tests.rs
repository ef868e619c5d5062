use superflux_fetch::client::ClientManager;
use superflux_fetch::errors::ClassifiedError;
use superflux_fetch::fetch::fetch;
use superflux_fetch::probe::check_network;

#[test]
fn a_fresh_manager_has_constructed_nothing() {
    let mgr = ClientManager::new();
    assert_eq!(mgr.init_count(), 0);
}

#[test]
fn repeated_initialization_constructs_exactly_one_client() {
    let mut mgr = ClientManager::new();
    let first = mgr.get_or_init_client();
    assert!(first.is_ok());
    assert_eq!(mgr.init_count(), 1);
    let second = mgr.get_or_init_client();
    assert!(second.is_ok());
    // The second caller observed the existing client; no duplicate was made.
    assert_eq!(mgr.init_count(), 1);
}

#[test]
fn executors_share_the_managers_single_client() {
    let mut mgr = ClientManager::new();
    // Both attempts go out through the same client, constructed once;
    // against a closed port each comes back as a connect failure.
    assert!(fetch(&mut mgr, "http://127.0.0.1:1/a").is_err());
    assert!(fetch(&mut mgr, "http://127.0.0.1:1/a").is_err());
    assert_eq!(mgr.init_count(), 1);
}

#[test]
fn probe_reports_a_classified_result() {
    // The probe's fixed endpoint targets HTTPS; whatever the environment,
    // the result is either the success message or a transport-category
    // error, never an input or status failure.
    let mut mgr = ClientManager::new();
    match check_network(&mut mgr) {
        Ok(m) => assert!(m.starts_with("OK: https://httpbin.org/get -> HTTP ")),
        Err(ClassifiedError::ConnectFailed(_))
        | Err(ClassifiedError::TimedOut(_))
        | Err(ClassifiedError::TransportOrTLSFailed(_))
        | Err(ClassifiedError::Other(_)) => {}
        Err(other) => panic!("unexpected error category: {:?}", other),
    }
}
