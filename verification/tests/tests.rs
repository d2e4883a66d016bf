//! Integration tests for the manifest engine and the URL types.

use web_app_manifest::errors::ManifestError;
use web_app_manifest::resources::{
    ExternalApplicationResource, IconResource, ProtocolHandlerResource, ScreenshotResource,
    ShareTargetResource, ShortcutResource,
};
use web_app_manifest::types::{AbsoluteUrl, Url};
use web_app_manifest::WebAppManifest;

#[test]
fn test_absolute_url_from_string() {
    let url = "https://example.com/index.html";

    let actual = Url::parse(url);
    let expected = Url::Absolute(AbsoluteUrl::parse(url).unwrap());

    assert_eq!(actual, expected);
}

#[test]
fn test_relative_url_from_string() {
    let url = "/index.html";

    let actual = Url::parse(url);
    let expected = Url::Relative(url.to_string());

    assert_eq!(actual, expected);
}

#[test]
fn test_try_absolute_url_into_string() {
    let url = "https://example.com/handler/?protocol=%s";
    let parsed = Url::parse(url);

    let actual: String = parsed.to_text().unwrap();
    let expected: String = url.into();

    assert_eq!(actual, expected);
}

#[test]
fn test_try_relative_url_into_string() {
    let url = "/handler/?protocol=%s";
    let parsed = Url::parse(url);

    let actual: String = parsed.to_text().unwrap();
    let expected: String = url.into();

    assert_eq!(actual, expected);
}

#[test]
fn test_try_unknown_url_into_string() {
    assert!(matches!(
        Url::Unknown.to_text().unwrap_err(),
        ManifestError::NotStringifyable { url: _ }
    ));
}

#[test]
fn test_try_correct_url_into_absolute() {
    let url = AbsoluteUrl::parse("https://example.com").unwrap();

    let actual: AbsoluteUrl = Url::Absolute(url.clone()).to_absolute().unwrap();
    let expected: AbsoluteUrl = url;

    assert_eq!(actual, expected);
}

#[test]
fn test_try_invalid_url_into_absolute() {
    assert!(matches!(
        Url::Relative("/index.html".to_string()).to_absolute().unwrap_err(),
        ManifestError::NotAbsolute { url: _ }
    ));
}

#[test]
fn test_process_manifest_absolute_urls() {
    let base = AbsoluteUrl::parse("https://example.com").unwrap();

    let document_url = base.clone();
    let manifest_url = base.join("manifest.webmanifest").unwrap();

    let mut manifest = WebAppManifest {
        start_url: Url::Absolute(base.join("hello.html").unwrap()),
        scope: Url::Absolute(base.clone()),
        ..Default::default()
    };

    manifest.process(&document_url, &manifest_url).unwrap();

    assert_eq!(manifest.start_url, Url::Absolute(base.join("hello.html").unwrap()));
    assert_eq!(manifest.scope, Url::Absolute(base));
}

#[test]
fn test_process_manifest_relative_urls() {
    let base = AbsoluteUrl::parse("https://example.com").unwrap();

    let document_url = base.clone();
    let manifest_url = base.join("resources/manifest.webmanifest").unwrap();

    let mut manifest = WebAppManifest {
        start_url: Url::Relative("../example.html".to_string()),
        scope: Url::Relative("..".to_string()),

        related_applications: vec![ExternalApplicationResource {
            platform: "webapp".to_string(),
            url: Some(Url::Relative("../another.html".to_string())),
            ..Default::default()
        }],

        protocol_handlers: vec![ProtocolHandlerResource {
            protocol: "mailto".to_string(),
            url: Url::Relative("../handler.html?uri=%s".to_string()),
            ..Default::default()
        }],

        shortcuts: vec![ShortcutResource {
            name: "Example Shortcut".to_string(),
            url: Url::Relative("../shortcut.html".to_string()),
            icons: vec![IconResource {
                src: Url::Relative("shortcut.png".to_string()),
                ..Default::default()
            }],
            ..Default::default()
        }],

        share_target: Some(ShareTargetResource {
            action: Url::Relative("../share.html".to_string()),
            ..Default::default()
        }),

        icons: vec![IconResource {
            src: Url::Relative("icon.png".to_string()),
            ..Default::default()
        }],

        screenshots: vec![ScreenshotResource {
            src: Url::Relative("screenshot.png".to_string()),
            ..Default::default()
        }],

        ..Default::default()
    };

    manifest.process(&document_url, &manifest_url).unwrap();

    assert_eq!(
        manifest.start_url,
        Url::Absolute(manifest_url.join("../example.html").unwrap())
    );
    assert_eq!(manifest.scope, Url::Absolute(manifest_url.join("..").unwrap()));

    assert_eq!(
        manifest.related_applications[0].url,
        Some(Url::Absolute(manifest_url.join("../another.html").unwrap()))
    );
    assert_eq!(
        manifest.protocol_handlers[0].url,
        Url::Absolute(manifest_url.join("../handler.html?uri=%s").unwrap())
    );
    assert_eq!(
        manifest.shortcuts[0].url,
        Url::Absolute(manifest_url.join("../shortcut.html").unwrap())
    );
    assert_eq!(
        manifest.shortcuts[0].icons[0].src,
        Url::Absolute(manifest_url.join("shortcut.png").unwrap())
    );
    assert_eq!(
        manifest.share_target.unwrap().action,
        Url::Absolute(manifest_url.join("../share.html").unwrap())
    );
    assert_eq!(manifest.icons[0].src, Url::Absolute(manifest_url.join("icon.png").unwrap()));
    assert_eq!(
        manifest.screenshots[0].src,
        Url::Absolute(manifest_url.join("screenshot.png").unwrap())
    );
}

#[test]
fn test_process_manifest_correct_unknown_urls() {
    let base = AbsoluteUrl::parse("https://example.com").unwrap();

    let document_url = base.join("index.html").unwrap();
    let manifest_url = base.join("resources/manifest.webmanifest").unwrap();

    let mut manifest = WebAppManifest {
        ..Default::default()
    };

    manifest.process(&document_url, &manifest_url).unwrap();

    assert_eq!(manifest.start_url, Url::Absolute(document_url));
    assert_eq!(manifest.scope, Url::Absolute(base));
}

#[test]
fn test_process_manifest_invalid_unknown_urls() {
    let base = AbsoluteUrl::parse("https://example.com").unwrap();

    let document_url = base.join("index.html").unwrap();
    let manifest_url = base.join("manifest.webmanifest").unwrap();

    let manifests: Vec<WebAppManifest> = vec![
        WebAppManifest {
            related_applications: vec![ExternalApplicationResource {
                url: Some(Url::Unknown),
                ..Default::default()
            }],
            ..Default::default()
        },
        WebAppManifest {
            protocol_handlers: vec![ProtocolHandlerResource {
                url: Url::Unknown,
                ..Default::default()
            }],
            ..Default::default()
        },
        WebAppManifest {
            shortcuts: vec![ShortcutResource { url: Url::Unknown, ..Default::default() }],
            ..Default::default()
        },
        WebAppManifest {
            shortcuts: vec![ShortcutResource {
                url: Url::Relative(".".to_string()),
                icons: vec![IconResource { ..Default::default() }],
                ..Default::default()
            }],
            ..Default::default()
        },
        WebAppManifest {
            share_target: Some(ShareTargetResource {
                action: Url::Unknown,
                ..Default::default()
            }),
            ..Default::default()
        },
        WebAppManifest {
            icons: vec![IconResource { src: Url::Unknown, ..Default::default() }],
            ..Default::default()
        },
        WebAppManifest {
            screenshots: vec![ScreenshotResource { src: Url::Unknown, ..Default::default() }],
            ..Default::default()
        },
    ];

    for mut manifest in manifests {
        assert_eq!(
            ManifestError::InvalidUnknownUrl,
            manifest.process(&document_url, &manifest_url).unwrap_err()
        );
    }
}

#[test]
fn test_invalid_start_url_origin() {
    let base = AbsoluteUrl::parse("https://example.com").unwrap();

    let document_url = base.join("index.html").unwrap();
    let manifest_url = base.join("manifest.webmanifest").unwrap();

    let mut manifest = WebAppManifest {
        start_url: Url::Absolute(AbsoluteUrl::parse("https://example.org").unwrap()),
        ..Default::default()
    };

    assert!(matches!(
        manifest.process(&document_url, &manifest_url).unwrap_err(),
        ManifestError::NotSameOrigin { url1: _, url2: _ }
    ));
}

#[test]
fn test_invalid_start_url_scope() {
    let base = AbsoluteUrl::parse("https://example.com").unwrap();

    let document_url = base.join("index.html").unwrap();
    let manifest_url = base.join("manifest.webmanifest").unwrap();

    let mut manifest = WebAppManifest {
        start_url: Url::Absolute(AbsoluteUrl::parse("https://example.com").unwrap()),
        scope: Url::Absolute(AbsoluteUrl::parse("https://example.com/scope").unwrap()),
        ..Default::default()
    };

    assert!(matches!(
        manifest.process(&document_url, &manifest_url).unwrap_err(),
        ManifestError::NotWithinScope { url: _, scope: _ }
    ));
}

#[test]
fn test_invalid_resource_scopes() {
    let base = AbsoluteUrl::parse("https://example.com").unwrap();

    let document_url = base.join("index.html").unwrap();
    let manifest_url = base.join("manifest.webmanifest").unwrap();

    let manifests: Vec<WebAppManifest> = vec![
        WebAppManifest {
            protocol_handlers: vec![ProtocolHandlerResource {
                url: Url::Absolute(AbsoluteUrl::parse("https://example.org").unwrap()),
                ..Default::default()
            }],
            ..Default::default()
        },
        WebAppManifest {
            shortcuts: vec![ShortcutResource {
                url: Url::Absolute(AbsoluteUrl::parse("https://example.org").unwrap()),
                ..Default::default()
            }],
            ..Default::default()
        },
        WebAppManifest {
            share_target: Some(ShareTargetResource {
                action: Url::Absolute(AbsoluteUrl::parse("https://example.org").unwrap()),
                ..Default::default()
            }),
            ..Default::default()
        },
    ];

    for mut manifest in manifests {
        assert!(matches!(
            manifest.process(&document_url, &manifest_url).unwrap_err(),
            ManifestError::NotWithinScope { url: _, scope: _ }
        ));
    }
}
