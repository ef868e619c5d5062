use superflux_fetch::errors::{classify_transport_fault, ClassifiedError, TransportFault};

#[test]
fn connect_faults_map_to_connect_failed() {
    match classify_transport_fault(&TransportFault::Connect("dns error".to_string())) {
        ClassifiedError::ConnectFailed(m) => assert_eq!(m, "Connection failed: dns error"),
        other => panic!("wrong category: {:?}", other),
    }
}

#[test]
fn timeout_faults_map_to_timed_out() {
    match classify_transport_fault(&TransportFault::Timeout("deadline".to_string())) {
        ClassifiedError::TimedOut(m) => assert_eq!(m, "Timeout: deadline"),
        other => panic!("wrong category: {:?}", other),
    }
}

#[test]
fn request_faults_map_to_transport_or_tls_failed() {
    match classify_transport_fault(&TransportFault::Request("bad frame".to_string())) {
        ClassifiedError::TransportOrTLSFailed(m) => {
            assert_eq!(m, "TLS/Request error: bad frame")
        }
        other => panic!("wrong category: {:?}", other),
    }
}

#[test]
fn unrecognized_faults_map_to_other() {
    match classify_transport_fault(&TransportFault::Other("mystery".to_string())) {
        ClassifiedError::Other(m) => assert_eq!(m, "Request failed: mystery"),
        other => panic!("wrong category: {:?}", other),
    }
}

#[test]
fn every_variant_carries_its_detail() {
    let cases = vec![
        ClassifiedError::InvalidInput("a".to_string()),
        ClassifiedError::ConnectFailed("b".to_string()),
        ClassifiedError::TimedOut("c".to_string()),
        ClassifiedError::TransportOrTLSFailed("d".to_string()),
        ClassifiedError::HttpStatusFailure(404, "e".to_string()),
        ClassifiedError::BodyReadFailed("f".to_string()),
        ClassifiedError::Other("g".to_string()),
    ];
    let expected = ["a", "b", "c", "d", "e", "f", "g"];
    for (err, want) in cases.iter().zip(expected) {
        assert_eq!(err.detail(), want);
    }
}
