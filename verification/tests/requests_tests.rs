use docker_helper::{
    create_container, delete_container, find_containers, find_images, get_container_ip,
    prune_containers, pull_image, start_container, stop_container, CreateContainer, HttpMethod,
    PortBinding,
};

#[test]
fn pull_request_is_exact() {
    let req = pull_image("ubuntu:20.04");
    assert!(matches!(req.method, HttpMethod::Post));
    assert_eq!(req.path, "/images/create?fromImage=ubuntu:20.04");
    assert!(req.body.is_none());
}

#[test]
fn find_images_filter_is_exact() {
    let req = find_images("nginx:latest");
    assert!(matches!(req.method, HttpMethod::Get));
    assert_eq!(
        req.path,
        "/images/json?filters=%7B%22reference%22%3A%5B%22nginx%3Alatest%22%5D%7D"
    );
    assert!(req.body.is_none());
}

#[test]
fn find_images_filter_decodes_to_json() {
    let req = find_images("nginx:latest");
    let query = req.path.strip_prefix("/images/json?filters=").unwrap();
    let decoded = urlencoding::decode(query).unwrap();
    assert_eq!(decoded, "{\"reference\":[\"nginx:latest\"]}");
}

#[test]
fn find_containers_filter_decodes_to_json() {
    let req = find_containers("abc123");
    assert!(matches!(req.method, HttpMethod::Get));
    let query = req.path.strip_prefix("/containers/json?filters=").unwrap();
    let decoded = urlencoding::decode(query).unwrap();
    assert_eq!(decoded, "{\"id\":[\"abc123\"]}");
}

#[test]
fn get_container_ip_uses_the_listing_query() {
    let req = get_container_ip("abc123");
    let other = find_containers("abc123");
    assert_eq!(req.path, other.path);
    assert!(matches!(req.method, HttpMethod::Get));
}

#[test]
fn lifecycle_requests_are_exact() {
    let start = start_container("6fe66725ed81");
    assert!(matches!(start.method, HttpMethod::Post));
    assert_eq!(start.path, "/containers/6fe66725ed81/start");
    assert!(start.body.is_none());

    let stop = stop_container("6fe66725ed81");
    assert!(matches!(stop.method, HttpMethod::Post));
    assert_eq!(stop.path, "/containers/6fe66725ed81/stop");

    let del = delete_container("6fe66725ed81");
    assert!(matches!(del.method, HttpMethod::Delete));
    assert_eq!(del.path, "/containers/6fe66725ed81");
    assert!(del.body.is_none());

    let prune = prune_containers();
    assert!(matches!(prune.method, HttpMethod::Post));
    assert_eq!(prune.path, "/containers/prune");
    assert!(prune.body.is_none());
}

#[test]
fn create_request_port_binding_round_trip() {
    let spec = CreateContainer::PortBindings {
        image: "ubuntu:20.04".to_string(),
        port_bindings: vec![(
            "80/tcp".to_string(),
            vec![PortBinding { host_port: "81".to_string() }],
        )],
    };
    let req = create_container("web", &spec);
    assert!(matches!(req.method, HttpMethod::Post));
    assert_eq!(req.path, "/containers/create?name=web");
    assert_eq!(
        req.body.unwrap(),
        "{\"Image\":\"ubuntu:20.04\",\"PortBindings\":{\"80/tcp\":[{\"HostPort\":\"81\"}]}}"
    );
}

#[test]
fn create_request_network_mode_body() {
    let spec = CreateContainer::NetworkMode {
        image: "ubuntu:20.04".to_string(),
        network_mode: "host".to_string(),
    };
    let req = create_container("web", &spec);
    assert_eq!(
        req.body.unwrap(),
        "{\"Image\":\"ubuntu:20.04\",\"NetworkMode\":\"host\"}"
    );
}

#[test]
fn create_body_escapes_strings() {
    let spec = CreateContainer::NetworkMode {
        image: "a\"b\\c\nd".to_string(),
        network_mode: "m\u{1}".to_string(),
    };
    let body = docker_helper::json::create_container_body(&spec);
    assert_eq!(
        body,
        "{\"Image\":\"a\\\"b\\\\c\\nd\",\"NetworkMode\":\"m\\u0001\"}"
    );
}

#[test]
fn filter_with_multiple_values_and_escapes() {
    let f = docker_helper::ImageFilter {
        reference: vec!["a\"b".to_string(), "c".to_string()],
    };
    let body = docker_helper::requests::image_filter_body(&f);
    assert_eq!(body, "{\"reference\":[\"a\\\"b\",\"c\"]}");
}

#[test]
fn empty_filter_still_carries_its_field() {
    let f = docker_helper::ImageFilter { reference: vec![] };
    assert_eq!(docker_helper::requests::image_filter_body(&f), "{\"reference\":[]}");
    let g = docker_helper::ContainerFilter { id: vec![] };
    assert_eq!(docker_helper::requests::container_filter_body(&g), "{\"id\":[]}");
}
