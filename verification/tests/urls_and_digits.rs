use upload_core::digits::{i64_to_string, u64_to_string};
use upload_core::service::material::{material_upload_url, material_url};
use upload_core::service::project::{all_submissions_link, submission_upload_url};
use upload_core::service::submission::{submission_download_url, submission_stream_url};
use upload_core::service::{backend, Config};

fn config() -> Config {
    Config {
        backend_domain: "api.example.org".to_string(),
        backend_url: "https://api.example.org".to_string(),
        auth_website: "https://auth.example.org".to_string(),
        auth_url: "https://auth.example.org/login".to_string(),
    }
}

#[test]
fn backend_is_the_configured_url() {
    assert_eq!(backend(&config()), "https://api.example.org");
}

#[test]
fn material_urls() {
    assert_eq!(
        material_url(&config(), 17, "abc123.mp3"),
        "https://api.example.org/materials/17/abc123.mp3"
    );
    assert_eq!(
        material_upload_url(&config(), 17),
        "https://api.example.org/projects/17/material"
    );
}

#[test]
fn project_urls() {
    assert_eq!(
        all_submissions_link(&config(), 3),
        "https://api.example.org/projects/3/allSubmissions"
    );
    assert_eq!(submission_upload_url(&config(), 3), "https://api.example.org/projects/3");
}

#[test]
fn submission_urls() {
    assert_eq!(
        submission_download_url(&config(), 12345),
        "https://api.example.org/submissions/12345"
    );
    assert_eq!(
        submission_stream_url(&config(), 8, "take_2.wav"),
        "https://api.example.org/submissions/stream/8/take_2.wav"
    );
}

#[test]
fn negative_ids_render_with_a_sign() {
    assert_eq!(submission_download_url(&config(), -5), "https://api.example.org/submissions/-5");
}

#[test]
fn unsigned_decimal_rendering() {
    assert_eq!(u64_to_string(0), "0");
    assert_eq!(u64_to_string(7), "7");
    assert_eq!(u64_to_string(10), "10");
    assert_eq!(u64_to_string(1234567890123), "1234567890123");
    assert_eq!(u64_to_string(u64::MAX), "18446744073709551615");
}

#[test]
fn signed_decimal_rendering() {
    assert_eq!(i64_to_string(0), "0");
    assert_eq!(i64_to_string(42), "42");
    assert_eq!(i64_to_string(-1), "-1");
    assert_eq!(i64_to_string(i64::MAX), "9223372036854775807");
    assert_eq!(i64_to_string(i64::MIN), "-9223372036854775808");
}
