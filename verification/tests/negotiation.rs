use feder::negotiation::{
    accepts_activitypub, is_activitypub_body_type, is_activitypub_content_type, parse_quality,
};

fn accept_values(accept: Option<&str>) -> Vec<String> {
    match accept {
        Some(value) => vec![value.to_string()],
        None => Vec::new(),
    }
}

#[test]
fn accepts_explicit_activitypub_media_types() {
    for accept in [
        Some("application/activity+json"),
        Some("application/ld+json"),
        Some("application/json"),
    ] {
        assert!(accepts_activitypub(&accept_values(accept)), "Accept: {accept:?}");
    }
}

#[test]
fn rejects_implicit_html_or_unsupported_media_types() {
    for accept in [
        "",
        "*/*",
        "application/*",
        "text/html",
        "application/xhtml+xml",
        "image/png",
        "application/activity+json;q=0",
    ] {
        assert!(
            !accepts_activitypub(&accept_values(Some(accept))),
            "Accept: {accept}"
        );
    }
    assert!(!accepts_activitypub(&accept_values(None)));
}

#[test]
fn respects_quality_and_order() {
    assert_eq!(parse_quality("0.9"), Some(900));
    assert_eq!(parse_quality("0.08"), Some(80));
    assert_eq!(parse_quality("1.000"), Some(1000));
    assert!(!accepts_activitypub(&accept_values(Some(
        "application/activity+json;q=0.5, text/html;q=0.8"
    ))));
    assert!(accepts_activitypub(&accept_values(Some(
        "application/activity+json;q=0.9, text/html;q=0.8"
    ))));
    assert!(!accepts_activitypub(&accept_values(Some(
        "text/html, application/activity+json"
    ))));
    assert!(accepts_activitypub(&accept_values(Some(
        "application/activity+json, text/html"
    ))));
    assert!(!accepts_activitypub(&accept_values(Some("text/html, */*"))));
    assert!(!accepts_activitypub(&accept_values(Some(
        "application/activity+json;q=0, application/ld+json;q=0, application/json;q=0, */*;q=1"
    ))));
}

#[test]
fn ignores_unsupported_types_when_comparing_supported_representations() {
    assert!(!accepts_activitypub(&accept_values(Some(
        "image/png, application/activity+json;q=0.5, text/html;q=0.8"
    ))));
    assert!(accepts_activitypub(&accept_values(Some(
        "image/png, application/activity+json;q=0.8, text/html;q=0.5"
    ))));
    assert!(accepts_activitypub(&accept_values(Some(
        "image/png, application/activity+json;q=0.5"
    ))));
}

#[test]
fn compares_the_best_type_in_each_supported_representation() {
    assert!(!accepts_activitypub(&accept_values(Some(
        "text/html;q=0.2, application/xhtml+xml;q=0.9, application/activity+json;q=0.8"
    ))));
    assert!(accepts_activitypub(&accept_values(Some(
        "text/html;q=0.8, application/activity+json;q=0.2, application/ld+json;q=0.9"
    ))));
}

#[test]
fn parse_quality_rejects_malformed_values() {
    assert_eq!(parse_quality("0"), Some(0));
    assert_eq!(parse_quality("1"), Some(1000));
    assert_eq!(parse_quality("0.0001"), None);
    assert_eq!(parse_quality("1.5"), None);
    assert_eq!(parse_quality("2"), None);
    assert_eq!(parse_quality("0.x"), None);
}

#[test]
fn accept_values_from_several_headers_are_combined() {
    let values = vec!["text/html;q=0.5".to_string(), "application/activity+json".to_string()];
    assert!(accepts_activitypub(&values));
}

#[test]
fn activitypub_bodies_are_recognized_by_essence() {
    assert!(is_activitypub_body_type(Some("application/activity+json")));
    assert!(is_activitypub_body_type(Some(
        "application/ld+json; profile=\"https://www.w3.org/ns/activitystreams\""
    )));
    assert!(!is_activitypub_body_type(Some("application/json")));
    assert!(!is_activitypub_body_type(None));
    assert!(is_activitypub_content_type("Application/Activity+JSON; charset=utf-8"));
    assert!(is_activitypub_content_type(" application/ld+json "));
    assert!(!is_activitypub_content_type("text/html"));
    assert!(!is_activitypub_content_type(""));
}
