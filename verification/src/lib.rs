//! A verified client for a local container-engine daemon.
//!
//! The library computes every daemon request (URL path, HTTP method, JSON
//! body) and interprets every daemon response (status check, JSON decoding,
//! field extraction), with contracts stating the exact wire text it produces
//! and the exact values it extracts. It performs no I/O itself: each
//! operation hands the caller an [`types::HttpRequest`] to carry out over the
//! daemon socket and takes the resulting [`types::HttpResponse`] back, either
//! through the operation's `_outcome` reader or through a composite session's
//! `step`.

pub mod json;
pub mod parse;
pub mod percent;
pub mod requests;
pub mod response;
pub mod session;
pub mod types;

pub use crate::requests::{
    create_container, delete_container, find_containers, find_images, get_container_ip,
    prune_containers, pull_image, start_container, stop_container,
};
pub use crate::response::{
    create_container_outcome, delete_container_outcome, find_containers_outcome,
    find_images_outcome, get_container_ip_outcome, prune_containers_outcome, pull_image_outcome,
    start_container_outcome, stop_container_outcome,
};
pub use crate::session::{
    start_container_with_network_mode, start_container_with_port_binding,
    stop_and_cleanup_container, Cleanup, CleanupPhase, CleanupSession, StartPhase, StartSession,
};
pub use crate::types::{
    ContainerDescriptor, ContainerFilter, CreateContainer, CreateContainerResult, DockerError,
    HttpMethod, HttpRequest, HttpResponse, ImageDescriptor, ImageFilter, Network, NetworkSettings,
    PortBinding,
};
