//! Tests of the static server configuration lookup.

use token_vault::{get_server_info, BuildConfig};

#[test]
fn default_url_when_nothing_injected() {
    let info = get_server_info(BuildConfig {
        server_url_override: None,
        is_debug_build: false,
        runtime_version: "2.0.0".to_string(),
    });
    assert_eq!(info.server_url, "http://localhost:8001");
    assert_eq!(info.is_development, false);
    assert_eq!(info.runtime_version, "2.0.0");
}

#[test]
fn injected_url_wins_over_default() {
    let info = get_server_info(BuildConfig {
        server_url_override: Some("https://api.example.com".to_string()),
        is_debug_build: false,
        runtime_version: "2.0.0".to_string(),
    });
    assert_eq!(info.server_url, "https://api.example.com");
}

#[test]
fn development_flag_reflects_debug_build() {
    let debug = get_server_info(BuildConfig {
        server_url_override: None,
        is_debug_build: true,
        runtime_version: "0.1.0".to_string(),
    });
    assert_eq!(debug.is_development, true);
    let release = get_server_info(BuildConfig {
        server_url_override: None,
        is_debug_build: false,
        runtime_version: "0.1.0".to_string(),
    });
    assert_eq!(release.is_development, false);
}

fn example_build() -> BuildConfig {
    BuildConfig {
        server_url_override: Some("https://api.example.com".to_string()),
        is_debug_build: true,
        runtime_version: "1.2.3".to_string(),
    }
}

#[test]
fn server_info_is_deterministic() {
    let a = get_server_info(example_build());
    let b = get_server_info(example_build());
    assert_eq!(a.server_url, b.server_url);
    assert_eq!(a.is_development, b.is_development);
    assert_eq!(a.runtime_version, b.runtime_version);
}
