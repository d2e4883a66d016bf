//! Scenario tests: concrete documents through the engine, and the URL
//! primitives on concrete values.

use web_app_manifest::errors::ManifestError;
use web_app_manifest::resources::{IconResource, ProtocolHandlerResource};
use web_app_manifest::types::{
    AbsoluteUrl, Direction, Display, ImagePurpose, ImageSize, Orientation, ShareTargetEnctype,
    ShareTargetMethod, Url,
};
use web_app_manifest::WebAppManifest;

#[test]
fn test_relative_start_and_default_scope() {
    let document_url = AbsoluteUrl::parse("https://example.com/index.html").unwrap();
    let manifest_url = AbsoluteUrl::parse("https://example.com/site.webmanifest").unwrap();

    let mut manifest = WebAppManifest {
        start_url: Url::Relative("/hello.html".to_string()),
        ..Default::default()
    };

    manifest.process(&document_url, &manifest_url).unwrap();

    assert_eq!(
        manifest.start_url,
        Url::Absolute(AbsoluteUrl::parse("https://example.com/hello.html").unwrap())
    );
    assert_eq!(
        manifest.scope,
        Url::Absolute(AbsoluteUrl::parse("https://example.com/").unwrap())
    );
}

#[test]
fn test_unknown_protocol_handler_url_rejected() {
    let document_url = AbsoluteUrl::parse("https://example.com/index.html").unwrap();
    let manifest_url = AbsoluteUrl::parse("https://example.com/site.webmanifest").unwrap();

    let mut manifest = WebAppManifest {
        name: Some("Example App".to_string()),
        protocol_handlers: vec![ProtocolHandlerResource {
            protocol: "web+music".to_string(),
            url: Url::Unknown,
            ..Default::default()
        }],
        ..Default::default()
    };

    assert_eq!(
        ManifestError::InvalidUnknownUrl,
        manifest.process(&document_url, &manifest_url).unwrap_err()
    );
}

#[test]
fn test_icons_exempt_from_scope() {
    let document_url = AbsoluteUrl::parse("https://example.com/app/index.html").unwrap();
    let manifest_url =
        AbsoluteUrl::parse("https://example.com/resources/manifest.webmanifest").unwrap();

    let mut manifest = WebAppManifest {
        start_url: Url::Absolute(AbsoluteUrl::parse("https://example.com/app/index.html").unwrap()),
        scope: Url::Absolute(AbsoluteUrl::parse("https://example.com/app/").unwrap()),
        icons: vec![IconResource {
            src: Url::Relative("icon.png".to_string()),
            ..Default::default()
        }],
        ..Default::default()
    };

    // The icon resolves next to the manifest, outside the scope, and
    // processing still succeeds: icons are not scope-restricted.
    manifest.process(&document_url, &manifest_url).unwrap();

    assert_eq!(
        manifest.icons[0].src,
        Url::Absolute(AbsoluteUrl::parse("https://example.com/resources/icon.png").unwrap())
    );
}

#[test]
fn test_process_twice_is_identity() {
    let document_url = AbsoluteUrl::parse("https://example.com/index.html").unwrap();
    let manifest_url = AbsoluteUrl::parse("https://example.com/site.webmanifest").unwrap();

    let mut manifest = WebAppManifest {
        start_url: Url::Relative("/hello.html".to_string()),
        icons: vec![IconResource {
            src: Url::Relative("icon.png".to_string()),
            ..Default::default()
        }],
        ..Default::default()
    };

    manifest.process(&document_url, &manifest_url).unwrap();
    let once = manifest.clone();
    manifest.process(&document_url, &manifest_url).unwrap();

    assert_eq!(once, manifest);
}

#[test]
fn test_unparsable_reference_reported() {
    let document_url = AbsoluteUrl::parse("https://example.com/index.html").unwrap();
    let manifest_url = AbsoluteUrl::parse("https://example.com/site.webmanifest").unwrap();

    // "https://[" fails the absolute parse, so it is kept as a relative
    // reference, and joining it against the manifest URL fails too.
    let start = Url::parse("https://[");
    assert!(matches!(start, Url::Relative(_)));

    let mut manifest = WebAppManifest { start_url: start, ..Default::default() };

    assert!(matches!(
        manifest.process(&document_url, &manifest_url).unwrap_err(),
        ManifestError::UrlParsing { source: _ }
    ));
}

#[test]
fn test_scope_default_fails_for_cannot_be_a_base_start() {
    let document_url = AbsoluteUrl::parse("https://example.com/index.html").unwrap();
    let manifest_url = AbsoluteUrl::parse("https://example.com/site.webmanifest").unwrap();

    // A mailto start URL cannot be joined with `.`, so deriving the
    // default scope fails before any origin check is reached.
    let mut manifest = WebAppManifest {
        start_url: Url::Absolute(AbsoluteUrl::parse("mailto:user@example.com").unwrap()),
        ..Default::default()
    };

    assert!(matches!(
        manifest.process(&document_url, &manifest_url).unwrap_err(),
        ManifestError::UrlParsing { source: _ }
    ));
}

#[test]
fn test_absolute_url_normalization() {
    let url = AbsoluteUrl::parse("https://example.com").unwrap();

    // Parsing normalizes: the path of a bare authority is `/`, and the
    // serialization carries the trailing slash.
    assert_eq!(url.as_str(), "https://example.com/");
    assert_eq!(url.path(), "/");
}

#[test]
fn test_join_resolves_dot_segments() {
    let base = AbsoluteUrl::parse("https://example.com/a/b/c.html").unwrap();
    let joined = base.join("../d.html").unwrap();

    assert_eq!(joined.as_str(), "https://example.com/a/d.html");
    assert_eq!(joined.path(), "/a/d.html");
}

#[test]
fn test_same_origin_comparisons() {
    let a = AbsoluteUrl::parse("https://example.com/x").unwrap();
    let b = AbsoluteUrl::parse("https://example.com:443/y").unwrap();
    let c = AbsoluteUrl::parse("http://example.com/x").unwrap();
    let d = AbsoluteUrl::parse("https://example.org/x").unwrap();

    // Default port and explicit port are the same origin.
    assert!(a.same_origin(&b));
    // A different scheme or host is another origin.
    assert!(!a.same_origin(&c));
    assert!(!a.same_origin(&d));

    // A mailto URL has an opaque origin, which matches nothing — not
    // even itself.
    let e = AbsoluteUrl::parse("mailto:user@example.com").unwrap();
    assert!(!e.same_origin(&e));
    assert!(!e.same_origin(&a));
}

#[test]
fn test_within_scope_is_literal_path_prefix() {
    let scope = AbsoluteUrl::parse("https://example.com/sco").unwrap();
    let inside = AbsoluteUrl::parse("https://example.com/scope/x").unwrap();
    let outside = AbsoluteUrl::parse("https://example.com/other").unwrap();
    let other_origin = AbsoluteUrl::parse("https://example.org/sco").unwrap();

    // The comparison is a literal string prefix on the path, not a
    // path-segment comparison: `/sco` admits `/scope/x`.
    assert!(inside.is_within_scope(&scope));
    assert!(!outside.is_within_scope(&scope));
    assert!(!other_origin.is_within_scope(&scope));
}

#[test]
fn test_manifest_defaults() {
    let manifest = WebAppManifest::default();

    assert_eq!(manifest.start_url, Url::Unknown);
    assert_eq!(manifest.scope, Url::Unknown);
    assert_eq!(manifest.name, None);
    assert_eq!(manifest.short_name, None);
    assert_eq!(manifest.description, None);
    assert_eq!(manifest.categories.len(), 0);
    assert_eq!(manifest.keywords.len(), 0);
    assert_eq!(manifest.dir, Direction::Auto);
    assert_eq!(manifest.lang, None);
    assert_eq!(manifest.display, Display::Browser);
    assert_eq!(manifest.orientation, Orientation::Any);
    assert!(manifest.background_color.is_none());
    assert!(manifest.theme_color.is_none());
    assert_eq!(manifest.iarc_rating_id, None);
    assert!(!manifest.prefer_related_applications);
    assert_eq!(manifest.related_applications.len(), 0);
    assert_eq!(manifest.protocol_handlers.len(), 0);
    assert_eq!(manifest.shortcuts.len(), 0);
    assert_eq!(manifest.share_target, None);
    assert_eq!(manifest.icons.len(), 0);
    assert_eq!(manifest.screenshots.len(), 0);
}

#[test]
fn test_resource_defaults() {
    let icon = IconResource::default();
    assert_eq!(icon.src, Url::Unknown);
    assert_eq!(icon.sizes, vec![ImageSize::Any]);
    assert_eq!(icon.purpose, vec![ImagePurpose::Any]);
    assert_eq!(icon.label, None);

    let method = ShareTargetMethod::default();
    assert_eq!(method, ShareTargetMethod::Get);
    let enctype = ShareTargetEnctype::default();
    assert_eq!(enctype, ShareTargetEnctype::UrlEncoded);
}

#[test]
fn test_not_same_origin_names_both_urls() {
    let document_url = AbsoluteUrl::parse("https://example.com/index.html").unwrap();
    let manifest_url = AbsoluteUrl::parse("https://example.com/site.webmanifest").unwrap();

    let start = AbsoluteUrl::parse("https://example.org/app").unwrap();
    let mut manifest =
        WebAppManifest { start_url: Url::Absolute(start.clone()), ..Default::default() };

    assert_eq!(
        manifest.process(&document_url, &manifest_url).unwrap_err(),
        ManifestError::NotSameOrigin { url1: start, url2: document_url }
    );
}

#[test]
fn test_not_within_scope_names_url_and_scope() {
    let document_url = AbsoluteUrl::parse("https://example.com/index.html").unwrap();
    let manifest_url = AbsoluteUrl::parse("https://example.com/site.webmanifest").unwrap();

    let handler_url = AbsoluteUrl::parse("https://example.org/handler?u=%s").unwrap();
    let mut manifest = WebAppManifest {
        protocol_handlers: vec![ProtocolHandlerResource {
            protocol: "web+music".to_string(),
            url: Url::Absolute(handler_url.clone()),
            ..Default::default()
        }],
        ..Default::default()
    };

    // The default scope is the directory of the resolved start URL,
    // here the site root.
    let scope = AbsoluteUrl::parse("https://example.com/").unwrap();
    assert_eq!(
        manifest.process(&document_url, &manifest_url).unwrap_err(),
        ManifestError::NotWithinScope { url: handler_url, scope }
    );
}

#[test]
fn test_resolution_errors_precede_validation_errors() {
    let document_url = AbsoluteUrl::parse("https://example.com/index.html").unwrap();
    let manifest_url = AbsoluteUrl::parse("https://example.com/site.webmanifest").unwrap();

    // The start URL is on another origin and an icon source is
    // unknown: the icon is rejected first, because every URL field is
    // resolved before any check runs.
    let mut manifest = WebAppManifest {
        start_url: Url::Absolute(AbsoluteUrl::parse("https://example.org").unwrap()),
        icons: vec![IconResource { src: Url::Unknown, ..Default::default() }],
        ..Default::default()
    };

    assert_eq!(
        manifest.process(&document_url, &manifest_url).unwrap_err(),
        ManifestError::InvalidUnknownUrl
    );
}

#[test]
fn test_error_descriptions() {
    assert_eq!(
        ManifestError::InvalidUnknownUrl.describe(),
        "provided unknown URL in invalid context"
    );
    assert_eq!(
        ManifestError::NotStringifyable { url: Url::Unknown }.describe(),
        "provided URL cannot be converted to a string"
    );
}
