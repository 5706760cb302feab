use std::io::Read;

use shared::server::file_store::{File, FileStore};
use shared::server::http::{respond, HttpRequest, HttpResponse};

fn store() -> FileStore {
    FileStore::from_assets(&vec![
        ("Index.HTML".to_string(), b"<html></html>".to_vec()),
        ("app.wasm".to_string(), vec![0, 97, 115, 109]),
        ("README".to_string(), b"no extension".to_vec()),
        ("index.html".to_string(), b"second".to_vec()),
    ])
}

fn gunzip(data: &[u8]) -> Vec<u8> {
    let mut out = vec![];
    flate2::read::GzDecoder::new(data).read_to_end(&mut out).unwrap();
    out
}

#[test]
fn file_new_keeps_parts() {
    let f = File::new("text/plain".to_string(), vec![1, 2]);
    assert_eq!(f.mime_type, "text/plain");
    assert_eq!(f.data, vec![1, 2]);
}

#[test]
fn entry_lowercases_and_compresses() {
    let (name, file) = FileStore::entry_for("Logo.PNG", &[1, 2, 3]).unwrap();
    assert_eq!(name, "logo.png");
    assert_eq!(file.mime_type, "image/png");
    assert_eq!(&file.data[..2], &[0x1f, 0x8b]);
    assert_ne!(file.data, vec![1, 2, 3]);
    assert_eq!(gunzip(&file.data), vec![1, 2, 3]);
    assert!(FileStore::entry_for("README", &[1]).is_none());
}

#[test]
fn store_keeps_later_asset_of_same_name() {
    let s = store();
    let f = s.handle("index.html").unwrap();
    assert_eq!(f.mime_type, "text/html");
    assert_eq!(gunzip(&f.data), b"second".to_vec());
    assert_eq!(s.handle("app.wasm").unwrap().mime_type, "application/wasm");
    assert!(s.handle("readme").is_none());
    assert!(s.handle("Index.HTML").is_none());
}

#[test]
fn request_line_strips_slash() {
    let r = HttpRequest::from_request_line(b"GET", b"/app.wasm");
    assert_eq!(r.0, "GET");
    assert_eq!(r.1, "app.wasm");
    let s = HttpRequest::from_request_line(b"GET", b"*");
    assert_eq!(s.1, "");
    let t = HttpRequest::from_request_line(b"GET", b"/caf\xc3\xa9");
    assert_eq!(t.1, "caf\u{e9}");
}

#[test]
fn root_serves_index() {
    let s = store();
    match respond(&s, &HttpRequest::from_request_line(b"GET", b"/")) {
        HttpResponse::Found(f) => assert_eq!(gunzip(&f.data), b"second".to_vec()),
        HttpResponse::NotFound(_) => panic!("index not served"),
    }
    assert_eq!(HttpRequest("GET".to_string(), String::new()).file_name(), Some("index.html".to_string()));
}

#[test]
fn other_requests_not_found() {
    let s = store();
    assert!(matches!(respond(&s, &HttpRequest("POST".to_string(), "index.html".to_string())), HttpResponse::NotFound(_)));
    assert!(matches!(respond(&s, &HttpRequest("GET".to_string(), "missing.js".to_string())), HttpResponse::NotFound(_)));
    assert_eq!(HttpRequest("HEAD".to_string(), "x".to_string()).file_name(), None);
}

#[test]
fn not_found_page_is_html() {
    let s = store();
    match respond(&s, &HttpRequest("GET".to_string(), "missing.js".to_string())) {
        HttpResponse::NotFound(page) => {
            assert!(page.starts_with("<!DOCTYPE html><html>"));
            assert!(page.contains("There be dragons here"));
            assert!(page.contains("404 Not Found"));
            assert!(page.ends_with("</html>"));
        }
        HttpResponse::Found(_) => panic!("a missing file was found"),
    }
}
