//! The request each daemon operation issues: URL path, HTTP method and JSON
//! body, stated exactly.

use vstd::prelude::*;

use crate::json::{create_container_body, create_json, json_string_array, write_json_string_array};
use crate::percent::{percent_encode, percent_encoded};
use crate::types::{
    body_view, ContainerFilter, CreateContainer, HttpMethod, HttpRequest, ImageFilter,
};

verus! {

/// JSON text of an image listing filter, with its `reference` field always
/// present.
pub open spec fn image_filter_json(refs: Seq<Seq<char>>) -> Seq<char> {
    "{\"reference\":"@ + json_string_array(refs) + seq!['}']
}

/// JSON text of a container listing filter, with its `id` field always
/// present.
pub open spec fn container_filter_json(ids: Seq<Seq<char>>) -> Seq<char> {
    "{\"id\":"@ + json_string_array(ids) + seq!['}']
}

/// The JSON text of an image listing filter, exactly as
/// [`image_filter_json`] states it.
pub fn image_filter_body(f: &ImageFilter) -> (r: String)
    ensures
        r@ == image_filter_json(f.reference.deep_view()),
{
    let mut out = String::new();
    out.append("{\"reference\":");
    write_json_string_array(&mut out, &f.reference);
    crate::json::push_char(&mut out, '}');
    proof {
        assert(out@ =~= image_filter_json(f.reference.deep_view()));
    }
    out
}

/// The JSON text of a container listing filter, exactly as
/// [`container_filter_json`] states it.
pub fn container_filter_body(f: &ContainerFilter) -> (r: String)
    ensures
        r@ == container_filter_json(f.id.deep_view()),
{
    let mut out = String::new();
    out.append("{\"id\":");
    write_json_string_array(&mut out, &f.id);
    crate::json::push_char(&mut out, '}');
    proof {
        assert(out@ =~= container_filter_json(f.id.deep_view()));
    }
    out
}

/// Path of the image pull operation.
pub open spec fn pull_path(image: Seq<char>) -> Seq<char> {
    "/images/create?fromImage="@ + image
}

/// Path of the image listing operation: the filter JSON rides percent-encoded
/// as the value of the single `filters` query parameter.
pub open spec fn find_images_path(reference: Seq<char>) -> Seq<char> {
    "/images/json?filters="@ + percent_encoded(image_filter_json(seq![reference]))
}

/// Path of the container listing operation, filtered the same way.
pub open spec fn find_containers_path(id: Seq<char>) -> Seq<char> {
    "/containers/json?filters="@ + percent_encoded(container_filter_json(seq![id]))
}

/// Law: the `filters` value of an image listing query loses nothing. For
/// every reference, the path is the fixed prefix followed by the
/// percent-encoded filter JSON, and that encoded value decodes back to
/// exactly the filter JSON.
pub proof fn lemma_find_images_filter_decodes(reference: Seq<char>)
    ensures
        find_images_path(reference) == "/images/json?filters="@ + percent_encoded(
            image_filter_json(seq![reference]),
        ),
        crate::percent::percent_decode(percent_encoded(image_filter_json(seq![reference])))
            == Option::Some(vstd::utf8::encode_utf8(image_filter_json(seq![reference]))),
        vstd::utf8::decode_utf8(vstd::utf8::encode_utf8(image_filter_json(seq![reference])))
            == image_filter_json(seq![reference]),
{
    crate::percent::lemma_percent_round_trip(image_filter_json(seq![reference]));
}

/// Law: the `filters` value of a container listing query loses nothing, the
/// same way.
pub proof fn lemma_find_containers_filter_decodes(id: Seq<char>)
    ensures
        find_containers_path(id) == "/containers/json?filters="@ + percent_encoded(
            container_filter_json(seq![id]),
        ),
        crate::percent::percent_decode(percent_encoded(container_filter_json(seq![id])))
            == Option::Some(vstd::utf8::encode_utf8(container_filter_json(seq![id]))),
        vstd::utf8::decode_utf8(vstd::utf8::encode_utf8(container_filter_json(seq![id])))
            == container_filter_json(seq![id]),
{
    crate::percent::lemma_percent_round_trip(container_filter_json(seq![id]));
}

/// Path of the container creation operation.
pub open spec fn create_path(name: Seq<char>) -> Seq<char> {
    "/containers/create?name="@ + name
}

/// Path of the container start operation.
pub open spec fn start_path(id: Seq<char>) -> Seq<char> {
    "/containers/"@ + id + "/start"@
}

/// Path of the container stop operation.
pub open spec fn stop_path(id: Seq<char>) -> Seq<char> {
    "/containers/"@ + id + "/stop"@
}

/// Path of the container delete operation.
pub open spec fn delete_path(id: Seq<char>) -> Seq<char> {
    "/containers/"@ + id
}

/// Path of the container prune operation.
pub open spec fn prune_path() -> Seq<char> {
    "/containers/prune"@
}

/// A GET request to `path` with no body.
pub open spec fn is_get(r: HttpRequest, path: Seq<char>) -> bool {
    &&& r.method == HttpMethod::Get
    &&& r.path@ == path
    &&& body_view(r.body) is None
}

/// A POST request to `path` with no body.
pub open spec fn is_post_no_body(r: HttpRequest, path: Seq<char>) -> bool {
    &&& r.method == HttpMethod::Post
    &&& r.path@ == path
    &&& body_view(r.body) is None
}

/// The one request that pulls `image`.
pub open spec fn is_pull_request(r: HttpRequest, image: Seq<char>) -> bool {
    is_post_no_body(r, pull_path(image))
}

/// The one request that lists images matching `reference`.
pub open spec fn is_find_images_request(r: HttpRequest, reference: Seq<char>) -> bool {
    is_get(r, find_images_path(reference))
}

/// The one request that lists containers matching `id`.
pub open spec fn is_find_containers_request(r: HttpRequest, id: Seq<char>) -> bool {
    is_get(r, find_containers_path(id))
}

/// The one request that creates a container named `name` from the creation
/// body `c`.
pub open spec fn is_create_request(r: HttpRequest, name: Seq<char>, c: CreateContainer) -> bool {
    &&& r.method == HttpMethod::Post
    &&& r.path@ == create_path(name)
    &&& body_view(r.body) == Option::Some(create_json(c))
}

/// The one request that starts container `id`.
pub open spec fn is_start_request(r: HttpRequest, id: Seq<char>) -> bool {
    is_post_no_body(r, start_path(id))
}

/// The one request that stops container `id`.
pub open spec fn is_stop_request(r: HttpRequest, id: Seq<char>) -> bool {
    is_post_no_body(r, stop_path(id))
}

/// The one request that deletes container `id`.
pub open spec fn is_delete_request(r: HttpRequest, id: Seq<char>) -> bool {
    &&& r.method == HttpMethod::Delete
    &&& r.path@ == delete_path(id)
    &&& body_view(r.body) is None
}

/// The one request that prunes stopped containers.
pub open spec fn is_prune_request(r: HttpRequest) -> bool {
    is_post_no_body(r, prune_path())
}

/// The request that pulls `image_name`. Any `2xx` answer means success; the
/// response body carries a progress stream and is ignored.
pub fn pull_image(image_name: &str) -> (req: HttpRequest)
    ensures
        is_pull_request(req, image_name@),
{
    let mut path = String::new();
    path.append("/images/create?fromImage=");
    path.append(image_name);
    HttpRequest { method: HttpMethod::Post, path, body: Option::None }
}

/// The request that lists images whose reference equals `reference`.
pub fn find_images(reference: &str) -> (req: HttpRequest)
    ensures
        is_find_images_request(req, reference@),
{
    let filter = ImageFilter { reference: vec![reference.to_owned()] };
    proof {
        assert(filter.reference.deep_view() =~= seq![reference@]);
    }
    let json = image_filter_body(&filter);
    let mut path = String::new();
    path.append("/images/json?filters=");
    let enc = percent_encode(json.as_str());
    path.append(enc.as_str());
    HttpRequest { method: HttpMethod::Get, path, body: Option::None }
}

/// The request that lists containers whose id matches `id`.
pub fn find_containers(id: &str) -> (req: HttpRequest)
    ensures
        is_find_containers_request(req, id@),
{
    let filter = ContainerFilter { id: vec![id.to_owned()] };
    proof {
        assert(filter.id.deep_view() =~= seq![id@]);
    }
    let json = container_filter_body(&filter);
    let mut path = String::new();
    path.append("/containers/json?filters=");
    let enc = percent_encode(json.as_str());
    path.append(enc.as_str());
    HttpRequest { method: HttpMethod::Get, path, body: Option::None }
}

/// The request that creates a container named `container_name` from the
/// creation body `request`.
pub fn create_container(container_name: &str, request: &CreateContainer) -> (req: HttpRequest)
    ensures
        is_create_request(req, container_name@, *request),
{
    let mut path = String::new();
    path.append("/containers/create?name=");
    path.append(container_name);
    let body = create_container_body(request);
    HttpRequest { method: HttpMethod::Post, path, body: Option::Some(body) }
}

/// The request that starts container `id`.
pub fn start_container(id: &str) -> (req: HttpRequest)
    ensures
        is_start_request(req, id@),
{
    let mut path = String::new();
    path.append("/containers/");
    path.append(id);
    path.append("/start");
    HttpRequest { method: HttpMethod::Post, path, body: Option::None }
}

/// The request that stops container `id`.
pub fn stop_container(id: &str) -> (req: HttpRequest)
    ensures
        is_stop_request(req, id@),
{
    let mut path = String::new();
    path.append("/containers/");
    path.append(id);
    path.append("/stop");
    HttpRequest { method: HttpMethod::Post, path, body: Option::None }
}

/// The request that deletes container `id`.
pub fn delete_container(id: &str) -> (req: HttpRequest)
    ensures
        is_delete_request(req, id@),
{
    let mut path = String::new();
    path.append("/containers/");
    path.append(id);
    HttpRequest { method: HttpMethod::Delete, path, body: Option::None }
}

/// The request that prunes all stopped containers.
pub fn prune_containers() -> (req: HttpRequest)
    ensures
        is_prune_request(req),
{
    let mut path = String::new();
    path.append("/containers/prune");
    HttpRequest { method: HttpMethod::Post, path, body: Option::None }
}

/// The request behind a container address lookup: the listing query for
/// `id`. Its answer is read by
/// [`crate::response::get_container_ip_outcome`].
pub fn get_container_ip(id: &str) -> (req: HttpRequest)
    ensures
        is_find_containers_request(req, id@),
{
    find_containers(id)
}

} // verus!
