use enhanced_cd_app::response::content_response;
use enhanced_cd_app::uri::resource_path_for_uri;

#[test]
fn uri_resolves_under_base_dir() {
    assert_eq!(
        resource_path_for_uri("cd-content://localhost/index.html"),
        "game/index.html"
    );
    assert_eq!(
        resource_path_for_uri("cd-content://localhost/assets/track.mp3"),
        "game/assets/track.mp3"
    );
}

#[test]
fn served_file_gets_full_response() {
    let path = resource_path_for_uri("cd-content://localhost/index.html");
    assert_eq!(path, "game/index.html");
    let bytes = b"<html><body>hello</body></html>".to_vec();
    let resp = content_response(&path, Some(bytes.clone()));
    assert_eq!(resp.status, 200);
    assert_eq!(resp.body, bytes);
    assert_eq!(resp.headers.len(), 5);
    assert_eq!(
        resp.headers[0],
        ("Content-Type".to_string(), "text/html".to_string())
    );
    assert_eq!(
        resp.headers[1],
        ("Access-Control-Allow-Origin".to_string(), "*".to_string())
    );
    assert_eq!(
        resp.headers[2],
        ("Cross-Origin-Opener-Policy".to_string(), "same-origin".to_string())
    );
    assert_eq!(
        resp.headers[3],
        ("Cross-Origin-Embedder-Policy".to_string(), "require-corp".to_string())
    );
    assert_eq!(
        resp.headers[4],
        ("Cross-Origin-Resource-Policy".to_string(), "cross-origin".to_string())
    );
}

#[test]
fn missing_resource_gets_404_with_empty_body() {
    let path = resource_path_for_uri("cd-content://localhost/absent.wasm");
    let resp = content_response(&path, None);
    assert_eq!(resp.status, 404);
    assert!(resp.body.is_empty());
    assert!(resp.headers.is_empty());

    // Regardless of extension.
    let other = content_response("game/absent.html", None);
    assert_eq!(other.status, 404);
    assert!(other.body.is_empty());
}

#[test]
fn missing_prefix_resolves_to_base_dir_itself() {
    assert_eq!(resource_path_for_uri("https://example.com/x.html"), "game/");
    assert_eq!(resource_path_for_uri(""), "game/");
    // Even one missing character (the trailing slash) defeats the prefix.
    assert_eq!(resource_path_for_uri("cd-content://localhost"), "game/");
}

#[test]
fn traversal_requests_degrade_to_base_dir() {
    assert_eq!(resource_path_for_uri("cd-content://localhost/../secret"), "game/");
    assert_eq!(resource_path_for_uri("cd-content://localhost/a/../secret"), "game/");
    assert_eq!(resource_path_for_uri("cd-content://localhost/.."), "game/");
    assert_eq!(resource_path_for_uri("cd-content://localhost/..\\secret"), "game/");
    assert_eq!(resource_path_for_uri("cd-content://localhost/a/b/../../.."), "game/");
}

#[test]
fn dots_inside_a_name_are_no_traversal() {
    assert_eq!(
        resource_path_for_uri("cd-content://localhost/a..b/x.js"),
        "game/a..b/x.js"
    );
    assert_eq!(
        resource_path_for_uri("cd-content://localhost/..hidden"),
        "game/..hidden"
    );
    assert_eq!(
        resource_path_for_uri("cd-content://localhost/save.file.."),
        "game/save.file.."
    );
}

#[test]
fn interleaved_requests_get_matching_responses() {
    let path_a = resource_path_for_uri("cd-content://localhost/a.js");
    let path_b = resource_path_for_uri("cd-content://localhost/b.png");
    let data_a = b"console.log('a');".to_vec();
    let data_b = vec![0x89u8, 0x50, 0x4e, 0x47];
    let resp_a = content_response(&path_a, Some(data_a.clone()));
    let resp_b = content_response(&path_b, Some(data_b.clone()));
    let resp_a2 = content_response(&path_a, Some(data_a.clone()));
    assert_eq!(resp_a.body, data_a);
    assert_eq!(resp_a.headers[0].1, "application/javascript");
    assert_eq!(resp_b.body, data_b);
    assert_eq!(resp_b.headers[0].1, "image/png");
    // Same input, same response, whatever was served in between.
    assert_eq!(resp_a2.status, resp_a.status);
    assert_eq!(resp_a2.headers, resp_a.headers);
    assert_eq!(resp_a2.body, resp_a.body);
}
