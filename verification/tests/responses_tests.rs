use docker_helper::{
    create_container_outcome, find_containers_outcome, find_images_outcome,
    get_container_ip_outcome, prune_containers_outcome, pull_image_outcome, DockerError,
    HttpResponse,
};

fn resp(status: u16, body: &str) -> HttpResponse {
    HttpResponse { status, body: body.to_string() }
}

#[test]
fn pull_succeeds_iff_2xx() {
    assert!(pull_image_outcome("ubuntu:20.04", &resp(200, "")).is_ok());
    assert!(pull_image_outcome("ubuntu:20.04", &resp(204, "")).is_ok());
    assert!(pull_image_outcome("ubuntu:20.04", &resp(199, "")).is_err());
    assert!(pull_image_outcome("ubuntu:20.04", &resp(205, "")).is_err());
    assert!(pull_image_outcome("ubuntu:20.04", &resp(500, "oops")).is_err());
}

#[test]
fn api_error_message_carries_path_and_body() {
    let e = find_images_outcome("nginx:latest", &resp(500, "internal error")).unwrap_err();
    let msg = e.message();
    assert!(msg.contains("/images/json?filters="));
    assert!(msg.contains("internal error"));
}

#[test]
fn api_error_message_is_exact_for_pull() {
    let e = pull_image_outcome("ubuntu:20.04", &resp(500, "internal error")).unwrap_err();
    assert_eq!(
        e.message(),
        "Docker API call (/images/create?fromImage=ubuntu:20.04) failed: internal error"
    );
}

#[test]
fn find_images_reads_one_descriptor() {
    let r = find_images_outcome("nginx", &resp(200, "[{\"Id\":\"abc123\"}]")).unwrap();
    assert_eq!(r.len(), 1);
    assert_eq!(r[0].id, "abc123");
}

#[test]
fn find_images_reads_empty_list() {
    let r = find_images_outcome("nginx", &resp(200, "[]")).unwrap();
    assert!(r.is_empty());
}

#[test]
fn find_images_skips_unknown_members() {
    let body = "[ {\"Created\": 123, \"Id\": \"z\", \"Labels\": {\"a\": [1, true, null, -2.5e3]}},\n  {\"Id\": \"w\", \"RepoTags\": [\"x:y\"]} ]";
    let r = find_images_outcome("nginx", &resp(200, body)).unwrap();
    assert_eq!(r.len(), 2);
    assert_eq!(r[0].id, "z");
    assert_eq!(r[1].id, "w");
}

#[test]
fn find_images_reports_parse_error_with_body() {
    let e = find_images_outcome("nginx", &resp(200, "not json")).unwrap_err();
    assert!(matches!(e, DockerError::Parse { .. }));
    assert_eq!(e.message(), "Failed to parse response json: not json");
}

#[test]
fn string_escapes_are_decoded() {
    let body = "[{\"Id\":\"A\\u0042\\\"x\\n\\/\\u00e9\"}]";
    let r = find_images_outcome("nginx", &resp(200, body)).unwrap();
    assert_eq!(r[0].id, "AB\"x\n/\u{e9}");
}

#[test]
fn lone_surrogate_escape_is_a_parse_error() {
    let body = "[{\"Id\":\"\\ud800\"}]";
    let e = find_images_outcome("nginx", &resp(200, body)).unwrap_err();
    assert!(matches!(e, DockerError::Parse { .. }));
}

#[test]
fn create_result_reads_the_id() {
    let r = create_container_outcome("web", &resp(201, "{\"Id\":\"cid42\",\"Warnings\":[]}"))
        .unwrap();
    assert_eq!(r.id, "cid42");
}

#[test]
fn create_result_missing_id_is_a_parse_error() {
    let e = create_container_outcome("web", &resp(201, "{\"Warnings\":[]}")).unwrap_err();
    assert!(matches!(e, DockerError::Parse { .. }));
}

#[test]
fn find_containers_reads_networks_in_wire_order() {
    let body = "[{\"Id\":\"x\",\"State\":\"running\",\"NetworkSettings\":{\"Networks\":{\"bridge\":{\"IPAddress\":\"172.17.0.2\",\"Gateway\":\"172.17.0.1\"},\"other\":{\"IPAddress\":\"10.0.0.9\"}}}}]";
    let r = find_containers_outcome("x", &resp(200, body)).unwrap();
    assert_eq!(r.len(), 1);
    assert_eq!(r[0].id, "x");
    let nets = &r[0].network_settings.networks;
    assert_eq!(nets.len(), 2);
    assert_eq!(nets[0].0, "bridge");
    assert_eq!(nets[0].1.ip_address, "172.17.0.2");
    assert_eq!(nets[1].0, "other");
    assert_eq!(nets[1].1.ip_address, "10.0.0.9");
}

#[test]
fn get_container_ip_reads_the_first_network() {
    let body =
        "[{\"Id\":\"x\",\"NetworkSettings\":{\"Networks\":{\"bridge\":{\"IPAddress\":\"172.17.0.2\"}}}}]";
    let ip = get_container_ip_outcome("x", &resp(200, body)).unwrap();
    assert_eq!(ip, "172.17.0.2");
}

#[test]
fn get_container_ip_on_no_match_is_a_lookup_error() {
    let e = get_container_ip_outcome("missing", &resp(200, "[]")).unwrap_err();
    assert!(matches!(e, DockerError::NoSuchContainer { .. }));
    assert_eq!(e.message(), "No containers found with ID = missing");
}

#[test]
fn get_container_ip_on_no_networks_is_a_lookup_error() {
    let body = "[{\"Id\":\"x\",\"NetworkSettings\":{\"Networks\":{}}}]";
    let e = get_container_ip_outcome("x", &resp(200, body)).unwrap_err();
    assert!(matches!(e, DockerError::NoNetwork { .. }));
    assert_eq!(e.message(), "No network found for container with ID = x");
}

#[test]
fn get_container_ip_propagates_api_errors() {
    let e = get_container_ip_outcome("x", &resp(500, "boom")).unwrap_err();
    let msg = e.message();
    assert!(msg.contains("/containers/json?filters="));
    assert!(msg.contains("boom"));
}

#[test]
fn prune_outcome_swallows_failures() {
    assert!(prune_containers_outcome(&resp(500, "boom")).is_ok());
    assert!(prune_containers_outcome(&resp(200, "")).is_ok());
}

#[test]
fn whitespace_around_tokens_is_accepted() {
    let body = " [ { \"Id\" : \"a\" } , { \"Id\" : \"b\" } ] ";
    let r = find_images_outcome("nginx", &resp(200, body)).unwrap();
    assert_eq!(r.len(), 2);
    assert_eq!(r[0].id, "a");
    assert_eq!(r[1].id, "b");
}

#[test]
fn trailing_garbage_is_a_parse_error() {
    let e = find_images_outcome("nginx", &resp(200, "[]extra")).unwrap_err();
    assert!(matches!(e, DockerError::Parse { .. }));
}
