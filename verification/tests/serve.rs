use streamsmith::serve::{content_type, player_page, request_segments, route, within_root, Route};

fn segs(p: &str) -> Option<Vec<String>> {
    request_segments(p)
}

#[test]
fn routes_pages_scripts_and_files() {
    assert!(matches!(route("/"), Route::Player));
    assert!(matches!(route("/index.html"), Route::Player));
    assert!(matches!(route("/?autoplay=1"), Route::Player));
    assert!(matches!(route("/hls.js"), Route::PlayerScript));
    assert!(matches!(route("/hls.js?v=2"), Route::PlayerScript));
    match route("/720p_000.ts?x=1") {
        Route::File(v) => assert_eq!(v, ["720p_000.ts"]),
        other => panic!("unexpected {other:?}"),
    }
    match route("//sub/master.m3u8") {
        Route::File(v) => assert_eq!(v, ["sub", "master.m3u8"]),
        other => panic!("unexpected {other:?}"),
    }
    assert!(matches!(route("/../etc/passwd"), Route::NotFound));
    assert!(matches!(route("/a//b"), Route::NotFound));
    assert!(matches!(route(""), Route::NotFound));
    assert!(matches!(route("?q"), Route::NotFound));
}

#[test]
fn request_segments_reject_traversal() {
    assert_eq!(segs("/a/b.ts"), Some(vec!["a".to_string(), "b.ts".to_string()]));
    assert_eq!(segs("a"), Some(vec!["a".to_string()]));
    assert_eq!(segs("/.."), None);
    assert_eq!(segs("/a/./b"), None);
    assert_eq!(segs("/a/"), None);
    assert_eq!(segs("/"), None);
    assert_eq!(segs("/a\\..\\b"), None);
    assert_eq!(segs("/a\0b"), None);
    assert_eq!(segs("/...").unwrap(), ["..."]);
}

#[test]
fn content_types_by_extension() {
    assert_eq!(content_type("master.m3u8"), "application/vnd.apple.mpegurl");
    assert_eq!(content_type("720p_001.ts"), "video/mp2t");
    assert_eq!(content_type("a.mpd"), "application/dash+xml");
    assert_eq!(content_type("init.m4s"), "video/iso.segment");
    assert_eq!(content_type("x.tar.mp4"), "video/mp4");
    assert_eq!(content_type("index.html"), "text/html; charset=utf-8");
    assert_eq!(content_type("notes.txt"), "application/octet-stream");
    assert_eq!(content_type(".ts"), "application/octet-stream");
    assert_eq!(content_type("ts"), "application/octet-stream");
    assert_eq!(content_type("a.TS"), "application/octet-stream");
    assert_eq!(content_type(".."), "application/octet-stream");
    assert_eq!(content_type(""), "application/octet-stream");
    assert_eq!(content_type("..ts"), "video/mp2t");
}

#[test]
fn player_page_names_the_master_playlist() {
    assert_eq!(
        player_page("<video src=\"{{MASTER}}\"></video>{{MASTER}}"),
        "<video src=\"master.m3u8\"></video>master.m3u8"
    );
    assert_eq!(player_page("{{MASTER}"), "{{MASTER}");
    assert_eq!(player_page("{{{MASTER}}}"), "{master.m3u8}");
    assert_eq!(player_page(""), "");
}

fn comps(parts: &[&str]) -> Vec<Vec<u8>> {
    parts.iter().map(|p| p.as_bytes().to_vec()).collect()
}

#[test]
fn within_root_compares_whole_components() {
    let root = comps(&["/", "srv", "stream"]);
    assert!(within_root(&root, &comps(&["/", "srv", "stream", "720p.m3u8"])));
    assert!(within_root(&root, &comps(&["/", "srv", "stream"])));
    assert!(!within_root(&root, &comps(&["/", "srv", "streamx", "a.ts"])));
    assert!(!within_root(&root, &comps(&["/", "etc", "passwd"])));
    assert!(!within_root(&root, &comps(&["/", "srv"])));
}
