use expent::config::{allowed_origins, base_url, flag, log_filter, split_commas, strip_bucket_suffix, trim, trusted_origins};
use expent::uploads::{public_url, take_upload_field, UploadField};

#[test]
fn log_filter_quietens_layers_unless_sqlx_is_set() {
    assert_eq!(
        log_filter(None),
        "info,server=debug,better_auth=info,sqlx=error,sea_orm=warn,tower_http=debug"
    );
    assert_eq!(log_filter(Some("debug,sqlx=info".to_string())), "debug,sqlx=info");
    assert_eq!(log_filter(Some("warn".to_string())), "warn,sqlx=error,sea_orm=warn,tower_http=debug");
}

#[test]
fn endpoint_loses_its_bucket_path() {
    assert_eq!(
        strip_bucket_suffix("https://acc.r2.cloudflarestorage.com/expent-uploads"),
        "https://acc.r2.cloudflarestorage.com"
    );
    assert_eq!(strip_bucket_suffix("https://a.com/b.com/c"), "https://a.com/b.com");
    assert_eq!(strip_bucket_suffix("http://localhost:9000"), "http://localhost:9000");
    assert_eq!(strip_bucket_suffix(""), "");
}

#[test]
fn origins_split_on_commas() {
    assert_eq!(allowed_origins(None), vec!["http://localhost:3000".to_string(), "http://127.0.0.1:3000".to_string()]);
    assert_eq!(split_commas("a,,b"), vec!["a".to_string(), String::new(), "b".to_string()]);
    assert_eq!(split_commas(""), vec![String::new()]);
    assert_eq!(trim("  x y \t\n"), "x y");
    assert_eq!(trim("\u{3000}"), "");
}

#[test]
fn trusted_origins_are_sorted_and_unique() {
    let t = trusted_origins("http://localhost:8080", " https://app.example.com ,http://localhost:3000");
    assert_eq!(
        t,
        vec![
            "http://127.0.0.1:3000".to_string(),
            "http://localhost:3000".to_string(),
            "http://localhost:8080".to_string(),
            "https://app.example.com".to_string(),
        ]
    );
    let mut expected = vec!["http://localhost:3000".to_string(), "http://127.0.0.1:3000".to_string(), "http://x".to_string()];
    expected.sort();
    assert_eq!(trusted_origins("http://x", ""), expected);
}

#[test]
fn sign_up_flags_and_base_url() {
    assert!(flag(None, true));
    assert!(!flag(None, false));
    assert!(!flag(Some("false".to_string()), true));
    assert!(flag(Some("FALSE".to_string()), false));
    assert!(flag(Some(String::new()), false));
    assert_eq!(base_url(None, None), "http://localhost:8080");
    assert_eq!(base_url(None, Some("b".to_string())), "b");
    assert_eq!(base_url(Some("a".to_string()), Some("b".to_string())), "a");
}

#[test]
fn uploads_take_the_file_part() {
    let skipped = UploadField { name: Some("note".to_string()), file_name: Some("a".to_string()), content_type: None };
    assert_eq!(take_upload_field(skipped), None);
    let nameless = UploadField { name: None, file_name: None, content_type: None };
    assert_eq!(take_upload_field(nameless), None);
    let bare = UploadField { name: Some("file".to_string()), file_name: None, content_type: None };
    assert_eq!(take_upload_field(bare), Some(("unnamed".to_string(), "application/octet-stream".to_string())));
    let full = UploadField { name: Some("file".to_string()), file_name: Some("r.png".to_string()), content_type: Some("image/png".to_string()) };
    assert_eq!(take_upload_field(full), Some(("r.png".to_string(), "image/png".to_string())));
}

#[test]
fn uploaded_files_have_a_public_address() {
    assert_eq!(public_url(None, "u1/a.png"), "https://expent-uploads.r2.cloudflarestorage.com/u1/a.png");
    assert_eq!(public_url(Some("b".to_string()), "k"), "https://b.r2.cloudflarestorage.com/k");
}
