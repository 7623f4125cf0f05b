use bstore::resource::Resource;

fn appended(base: &str, path: &str) -> String {
    let mut r = Resource::new(base).unwrap();
    r.append_path(path);
    r.to_string()
}

#[test]
fn new_correct_some() {
    let r = Resource::new("http://localhost");
    assert!(r.is_some());
}

#[test]
fn new_incorrect_none() {
    let r = Resource::new("http/localhost");
    assert!(r.is_none());
}

#[test]
fn append_path_twice() {
    let mut r = Resource::new("http://localhost").unwrap();
    r.append_path("x").append_path("y");
    assert_eq!(r.to_string().as_str(), "http://localhost/x/y");
}

#[test]
fn append_path_without_slashes() {
    assert_eq!(appended("http://localhost", "x"), "http://localhost/x");
    assert_eq!(appended("http://localhost/", "x"), "http://localhost/x");
    assert_eq!(appended("http://localhost/x", "y"), "http://localhost/x/y");
    assert_eq!(appended("http://localhost/x/", "y"), "http://localhost/x/y");
}

#[test]
fn append_path_leading_slash() {
    assert_eq!(appended("http://localhost", "/x"), "http://localhost/x");
    assert_eq!(appended("http://localhost/", "/x"), "http://localhost/x");
    assert_eq!(appended("http://localhost/", "/x/y"), "http://localhost/x/y");
    assert_eq!(appended("http://localhost/x", "/y"), "http://localhost/x/y");
    assert_eq!(appended("http://localhost/x/", "/y"), "http://localhost/x/y");
}

#[test]
fn append_path_trailing_slash_kept() {
    assert_eq!(appended("http://localhost", "/x/"), "http://localhost/x/");
    assert_eq!(appended("http://localhost", "x/"), "http://localhost/x/");
    assert_eq!(appended("http://localhost", "/x/y/"), "http://localhost/x/y/");
    assert_eq!(appended("http://localhost/", "/x/"), "http://localhost/x/");
    assert_eq!(appended("http://localhost/", "x/"), "http://localhost/x/");
    assert_eq!(appended("http://localhost/", "/x/y/"), "http://localhost/x/y/");
    assert_eq!(appended("http://localhost/x", "y/"), "http://localhost/x/y/");
    assert_eq!(appended("http://localhost/x", "/y/"), "http://localhost/x/y/");
    assert_eq!(appended("http://localhost/x/", "y/"), "http://localhost/x/y/");
    assert_eq!(appended("http://localhost/x/", "/y/"), "http://localhost/x/y/");
}

#[test]
fn append_path_two_pieces() {
    assert_eq!(appended("http://localhost/", "x/y"), "http://localhost/x/y");
}

#[test]
fn append_path_real_bases() {
    assert_eq!(
        appended(
            "https://github.com/aegoroff/dirstat/releases/download/v1.0.7/",
            "dirstat_1.0.7_darwin_amd64.tar.gz"
        ),
        "https://github.com/aegoroff/dirstat/releases/download/v1.0.7/dirstat_1.0.7_darwin_amd64.tar.gz"
    );
    assert_eq!(
        appended(
            "https://github.com/aegoroff/dirstat/releases/download/v1.0.7",
            "dirstat_1.0.7_darwin_amd64.tar.gz"
        ),
        "https://github.com/aegoroff/dirstat/releases/download/v1.0.7/dirstat_1.0.7_darwin_amd64.tar.gz"
    );
}

#[test]
fn append_path_url_like_piece() {
    assert_eq!(appended("http://localhost", "http://:/"), "http://localhost/http:/:/");
}

#[test]
fn append_path_empty_keeps_url() {
    assert_eq!(appended("http://localhost/x", ""), "http://localhost/x");
    assert_eq!(appended("http://localhost", ""), "http://localhost/");
}

#[test]
fn append_path_cannot_be_a_base_joins() {
    assert_eq!(appended("mailto:someone@example.com", "x"), "mailto:someone@example.com");
}
