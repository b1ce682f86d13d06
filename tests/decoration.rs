use std::time::Duration;

use axum_cc::{cache_control_text, CacheControlError, CacheControlLayer, MimeType, ONE_YEAR_SECS};
use http::header::{CACHE_CONTROL, CONTENT_TYPE};
use http::{HeaderMap, HeaderValue};

fn headers_with_type(content_type: &'static str) -> HeaderMap {
    let mut h = HeaderMap::new();
    h.insert(CONTENT_TYPE, HeaderValue::from_static(content_type));
    h
}

fn cache_control(h: &HeaderMap) -> Option<&str> {
    h.get(CACHE_CONTROL).map(|v| v.to_str().unwrap())
}

#[test]
fn default_configuration_caches_css_for_a_year() {
    let layer = CacheControlLayer::new();
    let mut h = headers_with_type("text/css");
    assert!(layer.decorate(&mut h));
    assert_eq!(cache_control(&h), Some("public, max-age=31536000"));
    assert_eq!(h.get(CONTENT_TYPE).unwrap(), "text/css");
}

#[test]
fn default_configuration_leaves_html_alone() {
    let layer = CacheControlLayer::new();
    let mut h = headers_with_type("text/html");
    assert!(!layer.decorate(&mut h));
    assert_eq!(cache_control(&h), None);
    assert_eq!(h.len(), 1);
}

#[test]
fn default_configuration_kinds() {
    let layer = CacheControlLayer::new();
    for (m, cached) in [
        (MimeType::CSS, true),
        (MimeType::HTML, false),
        (MimeType::JS, true),
        (MimeType::SVG, true),
        (MimeType::TEXT, false),
        (MimeType::WEBP, true),
        (MimeType::WOFF2, true),
        (MimeType::PNG, true),
    ] {
        assert_eq!(layer.is_cacheable(m), cached);
    }
    assert_eq!(ONE_YEAR_SECS, 365 * 24 * 3600);
}

#[test]
fn default_trait_matches_new() {
    let layer = CacheControlLayer::default();
    let mut h = headers_with_type("image/png");
    assert!(layer.decorate(&mut h));
    assert_eq!(cache_control(&h), Some("public, max-age=31536000"));
}

#[test]
fn parameters_do_not_prevent_decoration() {
    let layer = CacheControlLayer::new();
    let mut h = headers_with_type("application/javascript; charset=utf-8");
    assert!(layer.decorate(&mut h));
    assert_eq!(cache_control(&h), Some("public, max-age=31536000"));
}

#[test]
fn no_content_type_is_never_decorated() {
    let everything = [
        MimeType::CSS,
        MimeType::HTML,
        MimeType::JS,
        MimeType::SVG,
        MimeType::TEXT,
        MimeType::WEBP,
        MimeType::WOFF2,
        MimeType::PNG,
    ];
    let layer = CacheControlLayer::new().with_mime_types(&everything);
    let mut h = HeaderMap::new();
    assert!(!layer.decorate(&mut h));
    assert!(h.is_empty());
}

#[test]
fn plain_text_fallback_can_be_cached() {
    let layer = CacheControlLayer::new().with_mime_types(&[MimeType::TEXT]);
    let mut h = headers_with_type("bogus/type");
    assert!(layer.decorate(&mut h));
    assert_eq!(cache_control(&h), Some("public, max-age=31536000"));
}

#[test]
fn day_long_freshness_is_formatted_in_seconds() {
    let layer = CacheControlLayer::new()
        .with_mime_types(&[MimeType::CSS])
        .with_max_age(Duration::from_secs(86400));
    let mut h = headers_with_type("text/css");
    assert!(layer.decorate(&mut h));
    assert_eq!(cache_control(&h), Some("public, max-age=86400"));
}

#[test]
fn fractional_seconds_are_truncated() {
    let layer = CacheControlLayer::new().with_max_age(Duration::from_millis(1500));
    let mut h = headers_with_type("image/svg+xml");
    assert!(layer.decorate(&mut h));
    assert_eq!(cache_control(&h), Some("public, max-age=1"));
}

#[test]
fn existing_cache_control_is_replaced() {
    let layer = CacheControlLayer::new();
    let mut h = headers_with_type("font/woff2");
    h.insert(CACHE_CONTROL, HeaderValue::from_static("no-cache"));
    h.append(CACHE_CONTROL, HeaderValue::from_static("no-store"));
    assert!(layer.decorate(&mut h));
    let all: Vec<_> = h.get_all(CACHE_CONTROL).iter().collect();
    assert_eq!(all, vec!["public, max-age=31536000"]);
}

#[test]
fn first_content_type_decides() {
    let layer = CacheControlLayer::new();
    let mut h = headers_with_type("text/html");
    h.append(CONTENT_TYPE, HeaderValue::from_static("text/css"));
    assert!(!layer.decorate(&mut h));
    assert_eq!(cache_control(&h), None);
}

#[test]
fn later_mime_types_replace_earlier_ones() {
    let layer = CacheControlLayer::new()
        .with_mime_types(&[MimeType::CSS])
        .with_mime_types(&[MimeType::HTML]);
    assert!(layer.is_cacheable(MimeType::HTML));
    assert!(!layer.is_cacheable(MimeType::CSS));
    let mut h = headers_with_type("text/css");
    assert!(!layer.decorate(&mut h));
    let mut h = headers_with_type("text/html");
    assert!(layer.decorate(&mut h));
}

#[test]
fn empty_mime_types_cache_nothing() {
    let layer = CacheControlLayer::new().with_mime_types(&[]);
    let mut h = headers_with_type("text/css");
    assert!(!layer.decorate(&mut h));
    assert_eq!(cache_control(&h), None);
}

#[test]
fn duplicate_mime_types_are_harmless() {
    let layer = CacheControlLayer::new().with_mime_types(&[MimeType::PNG, MimeType::PNG]);
    let mut h = headers_with_type("image/png");
    assert!(layer.decorate(&mut h));
    assert_eq!(cache_control(&h), Some("public, max-age=31536000"));
}

#[test]
fn cache_control_text_examples() {
    assert_eq!(cache_control_text(86400), "public, max-age=86400");
    assert_eq!(cache_control_text(0), "public, max-age=0");
    assert_eq!(cache_control_text(10), "public, max-age=10");
    assert_eq!(cache_control_text(31536000), "public, max-age=31536000");
    assert_eq!(cache_control_text(u64::MAX), "public, max-age=18446744073709551615");
}

#[test]
fn cache_control_value_holds_the_text() {
    let layer = CacheControlLayer::new().with_max_age(Duration::from_secs(60));
    let v = layer.cache_control_value().unwrap();
    assert_eq!(v.as_bytes(), b"public, max-age=60");
}

#[test]
fn layering_keeps_inner_and_configuration() {
    let layer = CacheControlLayer::new().with_max_age(Duration::from_secs(5));
    let service = layer.layer(42u32);
    assert_eq!(service.inner, 42);
    let cloned = service.clone();
    let mut h = headers_with_type("image/webp");
    assert!(cloned.decorate(&mut h));
    assert_eq!(cache_control(&h), Some("public, max-age=5"));
}

#[test]
fn error_messages() {
    assert_eq!(CacheControlError::InvalidMaxAge.message(), "invalid max-age value");
    assert_eq!(CacheControlError::InvalidMimeType.message(), "invalid MIME type");
    assert_ne!(CacheControlError::InvalidMaxAge, CacheControlError::InvalidMimeType);
}
