use qrshare::server::{
    display_name, download_response, is_download_route, not_found_response, str_eq,
    HttpResponse, ResponseBody,
};

fn body_text(r: &HttpResponse) -> &str {
    match &r.body {
        ResponseBody::Text(t) => t.as_str(),
        ResponseBody::Bytes(_) => panic!("expected a text body"),
    }
}

fn body_bytes(r: &HttpResponse) -> &[u8] {
    match &r.body {
        ResponseBody::Bytes(b) => b.as_slice(),
        ResponseBody::Text(_) => panic!("expected a bytes body"),
    }
}

#[test]
fn routes_only_the_download_path() {
    assert!(is_download_route("/download"));
    assert!(!is_download_route("/"));
    assert!(!is_download_route("/downloads"));
    assert!(!is_download_route("/downloa"));
    assert!(!is_download_route(""));
}

#[test]
fn compares_strings_by_characters() {
    assert!(str_eq("", ""));
    assert!(str_eq("abc", "abc"));
    assert!(!str_eq("abc", "abd"));
    assert!(!str_eq("abc", "ab"));
}

#[test]
fn download_returns_the_file_bytes_and_attachment_header() {
    let contents: Vec<u8> = vec![1, 2, 3, 250, 0, 17];
    let r = download_response("/tmp/share/report.txt", Some(contents.clone()));
    assert_eq!(r.status, 200);
    assert_eq!(body_bytes(&r), contents.as_slice());
    assert_eq!(
        r.content_disposition.as_deref(),
        Some("attachment; filename=\"report.txt\"")
    );
}

#[test]
fn other_paths_get_the_not_found_body() {
    let r = not_found_response();
    assert_eq!(r.status, 200);
    assert!(r.content_disposition.is_none());
    assert_eq!(body_text(&r), "File not found.");
}

#[test]
fn failed_read_answers_only_that_request() {
    let failed = download_response("/tmp/share/report.txt", None);
    assert_eq!(failed.status, 500);
    assert!(failed.content_disposition.is_none());
    assert_eq!(body_text(&failed), "Failed to read file.");

    let contents: Vec<u8> = b"still fine".to_vec();
    let healthy = download_response("/tmp/share/report.txt", Some(contents.clone()));
    assert_eq!(healthy.status, 200);
    assert_eq!(body_bytes(&healthy), contents.as_slice());
}

#[test]
fn display_name_is_the_final_path_segment() {
    assert_eq!(display_name("/tmp/share/report.txt"), "report.txt");
    assert_eq!(display_name("report.txt"), "report.txt");
    assert_eq!(display_name("a/b/c"), "c");
    assert_eq!(display_name("/trailing/"), "");
    assert_eq!(display_name(""), "");
}
