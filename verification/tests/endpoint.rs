use launch_supervisor::endpoint::{EndpointDescriptor, Scheme, BACKEND_PORT, SITE_PORT};
use launch_supervisor::probe::{check, BackendStatus, ProbeOutcome};

fn endpoint(scheme: Scheme, host: &str, port: u16, path: &str) -> EndpointDescriptor {
    EndpointDescriptor {
        scheme,
        host: host.to_string(),
        port,
        path: path.to_string(),
    }
}

#[test]
fn backend_health_endpoint_is_fixed() {
    assert_eq!(BACKEND_PORT, 8885);
    assert_eq!(
        EndpointDescriptor::backend_health(),
        endpoint(Scheme::Http, "localhost", 8885, "/graphql")
    );
    assert_eq!(
        EndpointDescriptor::backend_health().url(),
        "http://localhost:8885/graphql"
    );
}

#[test]
fn site_root_endpoint_is_fixed() {
    assert_eq!(SITE_PORT, 8871);
    assert_eq!(
        EndpointDescriptor::site_root(),
        endpoint(Scheme::Http, "localhost", 8871, "")
    );
    assert_eq!(EndpointDescriptor::site_root().url(), "http://localhost:8871");
}

#[test]
fn url_writes_the_port_in_decimal() {
    assert_eq!(endpoint(Scheme::Http, "h", 0, "").url(), "http://h:0");
    assert_eq!(endpoint(Scheme::Http, "h", 7, "/").url(), "http://h:7/");
    assert_eq!(endpoint(Scheme::Http, "h", 10, "/a").url(), "http://h:10/a");
    assert_eq!(endpoint(Scheme::Http, "h", 80, "").url(), "http://h:80");
    assert_eq!(endpoint(Scheme::Http, "h", 909, "").url(), "http://h:909");
    assert_eq!(endpoint(Scheme::Http, "h", 1000, "").url(), "http://h:1000");
    assert_eq!(endpoint(Scheme::Http, "h", 12345, "").url(), "http://h:12345");
    assert_eq!(endpoint(Scheme::Http, "h", 65535, "").url(), "http://h:65535");
}

#[test]
fn url_writes_the_scheme() {
    assert_eq!(Scheme::Http.as_str(), "http");
    assert_eq!(Scheme::Https.as_str(), "https");
    assert_eq!(
        endpoint(Scheme::Https, "example.org", 443, "/health").url(),
        "https://example.org:443/health"
    );
}

#[test]
fn success_response_is_ready() {
    assert!(ProbeOutcome::Responded(200).is_ready());
    assert!(ProbeOutcome::Responded(204).is_ready());
    assert!(ProbeOutcome::Responded(299).is_ready());
}

#[test]
fn other_responses_are_not_ready() {
    assert!(!ProbeOutcome::Responded(0).is_ready());
    assert!(!ProbeOutcome::Responded(199).is_ready());
    assert!(!ProbeOutcome::Responded(300).is_ready());
    assert!(!ProbeOutcome::Responded(404).is_ready());
    assert!(!ProbeOutcome::Responded(500).is_ready());
    assert!(!ProbeOutcome::Responded(65535).is_ready());
}

#[test]
fn unreachable_endpoint_is_not_ready() {
    assert!(!ProbeOutcome::Unreachable.is_ready());
}

#[test]
fn check_reports_the_endpoint_it_probed() {
    let result = check(EndpointDescriptor::backend_health(), ProbeOutcome::Responded(200));
    assert!(result.ready);
    assert_eq!(result.endpoint, EndpointDescriptor::backend_health());
    let result = check(EndpointDescriptor::backend_health(), ProbeOutcome::Unreachable);
    assert!(!result.ready);
    assert_eq!(result.endpoint, EndpointDescriptor::backend_health());
}

#[test]
fn status_tells_whether_the_backend_runs_and_where() {
    let up = check(EndpointDescriptor::backend_health(), ProbeOutcome::Responded(200));
    assert_eq!(
        up.status(),
        BackendStatus {
            running: true,
            url: "http://localhost:8885/graphql".to_string()
        }
    );
    let down = check(EndpointDescriptor::backend_health(), ProbeOutcome::Unreachable);
    assert_eq!(
        down.status(),
        BackendStatus {
            running: false,
            url: "http://localhost:8885/graphql".to_string()
        }
    );
}
