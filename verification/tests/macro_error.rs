use tauri::macro_error::Error;

#[test]
fn each_error_has_its_message() {
    assert_eq!(
        Error::EnvOutDir.message(),
        "Unable to find OUT_DIR environmental variable from tauri-macros"
    );
    assert_eq!(
        Error::EnvCargoManifestDir.message(),
        "Unable to find CARGO_MANIFEST_DIR environmental variable from tauri-macros"
    );
    assert_eq!(
        Error::IncludeDirPrefix.message(),
        "Invalid directory prefix encountered while including assets"
    );
    let error = Error::Io { path: "/tmp/assets/index.html".to_string(), kind: "NotFound".to_string() };
    assert_eq!(
        error.message(),
        "IO error NotFound encountered for /tmp/assets/index.html during tauri-macros"
    );
    let kind = std::io::ErrorKind::PermissionDenied;
    let error = Error::Io { path: "a b".to_string(), kind: format!("{:?}", kind) };
    assert_eq!(
        error.message(),
        format!("IO error {:?} encountered for {} during tauri-macros", kind, "a b")
    );
}
