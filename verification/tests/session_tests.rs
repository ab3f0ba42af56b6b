use docker_helper::{
    start_container_with_network_mode, start_container_with_port_binding,
    stop_and_cleanup_container, Cleanup, HttpMethod, HttpResponse,
};

fn resp(status: u16, body: &str) -> HttpResponse {
    HttpResponse { status, body: body.to_string() }
}

#[test]
fn start_skips_pull_when_image_exists() {
    let (mut s, req) = start_container_with_network_mode("web", "ubuntu:20.04", "host");
    assert!(req.path.starts_with("/images/json?filters="));
    let next = s.step(&resp(200, "[{\"Id\":\"img1\"}]")).unwrap();
    assert_eq!(next.path, "/containers/create?name=web");
    assert!(matches!(next.method, HttpMethod::Post));
}

#[test]
fn start_pulls_when_image_is_absent() {
    let (mut s, _req) = start_container_with_network_mode("web", "ubuntu:20.04", "host");
    let next = s.step(&resp(200, "[]")).unwrap();
    assert_eq!(next.path, "/images/create?fromImage=ubuntu:20.04");
    let next = s.step(&resp(200, "pull progress stream")).unwrap();
    assert_eq!(next.path, "/containers/create?name=web");
}

#[test]
fn start_runs_to_completion() {
    let (mut s, _req) = start_container_with_network_mode("web", "ubuntu:20.04", "host");
    let create = s.step(&resp(200, "[{\"Id\":\"img1\"}]")).unwrap();
    assert_eq!(
        create.body.unwrap(),
        "{\"Image\":\"ubuntu:20.04\",\"NetworkMode\":\"host\"}"
    );
    let start = s.step(&resp(201, "{\"Id\":\"cid42\"}")).unwrap();
    assert_eq!(start.path, "/containers/cid42/start");
    let end = s.step(&resp(204, ""));
    assert!(end.is_none());
    assert!(!s.awaiting());
    assert_eq!(s.result().unwrap(), "cid42");
}

#[test]
fn start_with_port_binding_builds_the_mapping() {
    let (mut s, _req) = start_container_with_port_binding("web", "ubuntu:20.04", 80, 81);
    let create = s.step(&resp(200, "[{\"Id\":\"img1\"}]")).unwrap();
    assert_eq!(
        create.body.unwrap(),
        "{\"Image\":\"ubuntu:20.04\",\"PortBindings\":{\"80/tcp\":[{\"HostPort\":\"81\"}]}}"
    );
}

#[test]
fn start_with_large_ports() {
    let (mut s, _req) = start_container_with_port_binding("web", "img", 65535, 1);
    let create = s.step(&resp(200, "[{\"Id\":\"img1\"}]")).unwrap();
    assert_eq!(
        create.body.unwrap(),
        "{\"Image\":\"img\",\"PortBindings\":{\"65535/tcp\":[{\"HostPort\":\"1\"}]}}"
    );
}

#[test]
fn start_fails_on_create_error() {
    let (mut s, _req) = start_container_with_network_mode("web", "ubuntu:20.04", "host");
    let _create = s.step(&resp(200, "[{\"Id\":\"img1\"}]")).unwrap();
    let end = s.step(&resp(500, "no space"));
    assert!(end.is_none());
    assert!(!s.awaiting());
    let e = s.result().unwrap_err();
    let msg = e.message();
    assert!(msg.contains("/containers/create?name=web"));
    assert!(msg.contains("no space"));
}

#[test]
fn start_fails_on_listing_error() {
    let (mut s, _req) = start_container_with_network_mode("web", "ubuntu:20.04", "host");
    let end = s.step(&resp(500, "down"));
    assert!(end.is_none());
    let msg = s.result().unwrap_err().message();
    assert!(msg.contains("/images/json?filters="));
    assert!(msg.contains("down"));
}

#[test]
fn cleanup_stops_before_deleting() {
    let (mut s, req) = stop_and_cleanup_container("cid42", Cleanup::Delete);
    assert_eq!(req.path, "/containers/cid42/stop");
    assert!(matches!(req.method, HttpMethod::Post));
    let del = s.step(&resp(204, "")).unwrap();
    assert_eq!(del.path, "/containers/cid42");
    assert!(matches!(del.method, HttpMethod::Delete));
    let end = s.step(&resp(204, ""));
    assert!(end.is_none());
    assert!(s.result().is_ok());
}

#[test]
fn cleanup_stop_failure_reaches_no_cleanup() {
    let (mut s, _req) = stop_and_cleanup_container("cid42", Cleanup::Prune);
    let end = s.step(&resp(500, "boom"));
    assert!(end.is_none());
    let msg = s.result().unwrap_err().message();
    assert!(msg.contains("/containers/cid42/stop"));
    assert!(msg.contains("boom"));
}

#[test]
fn prune_cleanup_never_fails_the_call() {
    let (mut s, _req) = stop_and_cleanup_container("cid42", Cleanup::Prune);
    let prune = s.step(&resp(204, "")).unwrap();
    assert_eq!(prune.path, "/containers/prune");
    let end = s.step(&resp(500, "prune broke"));
    assert!(end.is_none());
    assert!(s.result().is_ok());
}

#[test]
fn delete_cleanup_propagates_failure() {
    let (mut s, _req) = stop_and_cleanup_container("cid42", Cleanup::Delete);
    let _del = s.step(&resp(204, "")).unwrap();
    let end = s.step(&resp(409, "in use"));
    assert!(end.is_none());
    let msg = s.result().unwrap_err().message();
    assert!(msg.contains("/containers/cid42"));
    assert!(msg.contains("in use"));
}
