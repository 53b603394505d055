use query_core::cluster::{ClusterError, ClusterNodeRequest};

#[test]
fn requests_carry_their_parts() {
    let r = ClusterNodeRequest::new("node-1", 7, "127.0.0.1:9090");
    assert_eq!(r.name, "node-1");
    assert_eq!(r.priority, 7);
    assert_eq!(r.address, "127.0.0.1:9090");
    assert_eq!(r.clone(), r);
}

#[test]
fn parse_failures_report_expectation_failed() {
    assert_eq!(ClusterError::Parse.status_code(), 417);
    assert_eq!(ClusterError::Parse.message(), "cannot parse json");
}

#[test]
fn registry_failures_report_service_unavailable() {
    assert_eq!(ClusterError::Add.status_code(), 503);
    assert_eq!(
        ClusterError::Add.message(),
        "cannot add node to current cluster, please retry"
    );
    assert_eq!(ClusterError::Remove.status_code(), 503);
    assert_eq!(
        ClusterError::Remove.message(),
        "cannot delete node in current cluster, please retry"
    );
    assert_eq!(ClusterError::List.status_code(), 503);
    assert_eq!(
        ClusterError::List.message(),
        "cannot list nodes in current cluster, please retry"
    );
}
