use paperclip_adjacent::client::http::{
    create_memcell, delete_memcell, get_all_memcells, update_memcell, Body, ClientError, Memcell,
    Method, Request,
};

#[test]
fn list_request() {
    let request = get_all_memcells("http://localhost:8007");
    assert_eq!(
        request,
        Request {
            method: Method::Get,
            url: "http://localhost:8007/memcells".to_string(),
            body: Body::Empty,
        }
    );
}

#[test]
fn create_request() {
    let request = create_memcell("http://localhost:5000", "1234567890", "Feed dog");
    assert_eq!(request.method, Method::Post);
    assert_eq!(request.url, "http://localhost:5000/memcells");
    assert_eq!(
        request.body,
        Body::Create { phone: "1234567890".to_string(), task: "Feed dog".to_string() }
    );
}

#[test]
fn update_request() {
    let request = update_memcell("http://localhost:5000", 12, "Walk dog");
    assert_eq!(request.method, Method::Patch);
    assert_eq!(request.url, "http://localhost:5000/memcells/12");
    assert_eq!(request.body, Body::Update { task: "Walk dog".to_string() });
}

#[test]
fn delete_request() {
    let request = delete_memcell("http://localhost:5000", 3);
    assert_eq!(
        request,
        Request {
            method: Method::Delete,
            url: "http://localhost:5000/memcells/3".to_string(),
            body: Body::Empty,
        }
    );
}

#[test]
fn ids_are_written_in_decimal() {
    assert_eq!(delete_memcell("", 0).url, "/memcells/0");
    assert_eq!(delete_memcell("", 9).url, "/memcells/9");
    assert_eq!(delete_memcell("", 10).url, "/memcells/10");
    assert_eq!(delete_memcell("", 1005).url, "/memcells/1005");
    assert_eq!(delete_memcell("", 4294967295).url, "/memcells/4294967295");
    assert_eq!(update_memcell("", 2147483648, "").url, "/memcells/2147483648");
}

#[test]
fn ids_are_written_as_std_writes_them() {
    for id in [0u32, 1, 19, 100, 999, 1000, 65535, 123456789, u32::MAX - 1] {
        assert_eq!(delete_memcell("x", id).url, format!("x/memcells/{}", id));
    }
}

#[test]
fn one_base_for_all_requests() {
    let base = "https://notes.example:8443/api";
    assert_eq!(get_all_memcells(base).url, "https://notes.example:8443/api/memcells");
    assert_eq!(create_memcell(base, "1", "t").url, "https://notes.example:8443/api/memcells");
    assert_eq!(update_memcell(base, 7, "t").url, "https://notes.example:8443/api/memcells/7");
    assert_eq!(delete_memcell(base, 7).url, "https://notes.example:8443/api/memcells/7");
}

#[test]
fn request_texts_are_taken_as_they_are() {
    let request = create_memcell("b", "555-123", "  two\nlines \u{1f4ce} ");
    assert_eq!(
        request.body,
        Body::Create { phone: "555-123".to_string(), task: "  two\nlines \u{1f4ce} ".to_string() }
    );
    assert_eq!(update_memcell("b", 1, "").body, Body::Update { task: String::new() });
}

#[test]
fn memcell_clone_is_equal() {
    let cell = Memcell { id: Some(41), task: "Buy milk".to_string() };
    let copy = cell.clone();
    assert_eq!(copy, cell);
    assert_eq!(copy.id, Some(41));
    assert_eq!(copy.task, "Buy milk");
    let fresh = Memcell { id: None, task: String::new() };
    assert_eq!(fresh.clone(), fresh);
}

#[test]
fn client_errors_differ() {
    assert_ne!(ClientError::Network, ClientError::Decode);
}
