use tauri::server::{asset_path, server_address};

#[test]
fn server_address_drops_the_scheme() {
    assert_eq!(server_address("http://localhost:3000"), "localhost:3000");
    assert_eq!(server_address("https://localhost:3000"), "localhost:3000");
    assert_eq!(server_address("localhost:3000"), "localhost:3000");
    assert_eq!(server_address("httpd.local:3000"), "httpd.local:3000");
    assert_eq!(server_address(""), "");
    assert_eq!(server_address("http://https://x"), "x");
    for url in ["http://a", "https://b:1", "hhttp://ttps://c", "http://"] {
        assert_eq!(server_address(url), url.replace("http://", "").replace("https://", ""));
    }
}

#[test]
fn root_path_is_the_entry_document() {
    assert_eq!(asset_path("/"), "/index.tauri.html");
    assert_eq!(asset_path("/index.html"), "/index.html");
    assert_eq!(asset_path("/js/app.js"), "/js/app.js");
    assert_eq!(asset_path(""), "");
    assert_eq!(asset_path("//"), "//");
    assert_eq!(asset_path("/?q=1"), "/?q=1");
}
