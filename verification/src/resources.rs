//! The resource records held by a manifest.

use vstd::prelude::*;

verus! {

use crate::types::{ImagePurpose, ImageSize, Url, UrlView};

/// `mime::Mime` is carried as the media type of icons and screenshots;
/// the engine never reads it.
#[verifier::external_type_specification]
#[verifier::external_body]
pub struct ExMime(mime::Mime);

/// A fingerprint represents a cryptographic fingerprint used for
/// verifying an external application.
#[derive(Debug, Eq, PartialEq, Clone)]
pub struct ExternalApplicationFingerprint {
    /// Platform-defined fingerprint type.
    pub fingerprint_type: String,
    /// Platform-defined fingerprint value.
    pub value: String,
}

/// The model of a fingerprint.
pub ghost struct FingerprintView {
    /// Platform-defined fingerprint type.
    pub fingerprint_type: Seq<char>,
    /// Platform-defined fingerprint value.
    pub value: Seq<char>,
}

impl DeepView for ExternalApplicationFingerprint {
    type V = FingerprintView;

    open spec fn deep_view(&self) -> FingerprintView {
        FingerprintView { fingerprint_type: self.fingerprint_type@, value: self.value@ }
    }
}

impl Default for ExternalApplicationFingerprint {
    /// The default fingerprint has an empty type and value.
    fn default() -> (r: Self)
        ensures
            r.deep_view().fingerprint_type.len() == 0,
            r.deep_view().value.len() == 0,
    {
        ExternalApplicationFingerprint { fingerprint_type: String::new(), value: String::new() }
    }
}

/// An external application related to the web application.
#[derive(Debug, Eq, PartialEq, Clone)]
pub struct ExternalApplicationResource {
    /// The platform this external application is associated with.
    pub platform: String,
    /// The minimum version of the application considered related.
    pub min_version: Option<String>,
    /// The URL where the application can be found.
    pub url: Option<Url>,
    /// The id used to represent the application on the platform.
    pub id: Option<String>,
    /// The fingerprints of the application.
    pub fingerprints: Vec<ExternalApplicationFingerprint>,
}

/// The model of an external application resource.
pub ghost struct ExternalApplicationView {
    /// The platform this external application is associated with.
    pub platform: Seq<char>,
    /// The minimum version of the application considered related.
    pub min_version: Option<Seq<char>>,
    /// The URL where the application can be found.
    pub url: Option<UrlView>,
    /// The id used to represent the application on the platform.
    pub id: Option<Seq<char>>,
    /// The fingerprints of the application.
    pub fingerprints: Seq<FingerprintView>,
}

impl DeepView for ExternalApplicationResource {
    type V = ExternalApplicationView;

    open spec fn deep_view(&self) -> ExternalApplicationView {
        ExternalApplicationView {
            platform: self.platform@,
            min_version: self.min_version.deep_view(),
            url: self.url.deep_view(),
            id: self.id.deep_view(),
            fingerprints: self.fingerprints.deep_view(),
        }
    }
}

impl Default for ExternalApplicationResource {
    /// The default external application has an empty platform and no
    /// URL, version, id or fingerprints.
    fn default() -> (r: Self)
        ensures
            r.deep_view().platform.len() == 0,
            r.deep_view().min_version is None,
            r.deep_view().url is None,
            r.deep_view().id is None,
            r.deep_view().fingerprints.len() == 0,
    {
        ExternalApplicationResource {
            platform: String::new(),
            min_version: None,
            url: None,
            id: None,
            fingerprints: Vec::new(),
        }
    }
}

/// A protocol that the application can handle and should be registered
/// for.
#[derive(Debug, Eq, PartialEq, Clone)]
pub struct ProtocolHandlerResource {
    /// The protocol to be handled.
    pub protocol: String,
    /// The URL within the application scope that handles the protocol.
    /// The `%s` token is replaced by the URL starting with the
    /// protocol handler's scheme.
    pub url: Url,
}

/// The model of a protocol handler resource.
pub ghost struct ProtocolHandlerView {
    /// The protocol to be handled.
    pub protocol: Seq<char>,
    /// The URL within the application scope that handles the protocol.
    pub url: UrlView,
}

impl DeepView for ProtocolHandlerResource {
    type V = ProtocolHandlerView;

    open spec fn deep_view(&self) -> ProtocolHandlerView {
        ProtocolHandlerView { protocol: self.protocol@, url: self.url@ }
    }
}

impl Default for ProtocolHandlerResource {
    /// The default protocol handler has an empty protocol and an
    /// unknown URL.
    fn default() -> (r: Self)
        ensures
            r.deep_view().protocol.len() == 0,
            r.deep_view().url is Unknown,
    {
        ProtocolHandlerResource { protocol: String::new(), url: Url::Unknown }
    }
}

/// An icon serving as an iconic representation of the application or of
/// one of its shortcuts.
#[derive(Debug, Eq, PartialEq, Clone)]
pub struct IconResource {
    /// The path to the image file.
    pub src: Url,
    /// A hint as to the media type of the image.
    pub media_type: Option<mime::Mime>,
    /// The sizes the image supports.
    pub sizes: Vec<ImageSize>,
    /// The purposes of the image.
    pub purpose: Vec<ImagePurpose>,
    /// The accessible name of the image.
    pub label: Option<String>,
}

/// The model of an icon resource.
pub ghost struct IconView {
    /// The path to the image file.
    pub src: UrlView,
    /// A hint as to the media type of the image.
    pub media_type: Option<mime::Mime>,
    /// The sizes the image supports.
    pub sizes: Seq<ImageSize>,
    /// The purposes of the image.
    pub purpose: Seq<ImagePurpose>,
    /// The accessible name of the image.
    pub label: Option<Seq<char>>,
}

impl DeepView for IconResource {
    type V = IconView;

    open spec fn deep_view(&self) -> IconView {
        IconView {
            src: self.src@,
            media_type: self.media_type,
            sizes: self.sizes@,
            purpose: self.purpose@,
            label: self.label.deep_view(),
        }
    }
}

impl Default for IconResource {
    /// The default icon has an unknown source, no media type or label,
    /// and supports any size for any purpose.
    fn default() -> (r: Self)
        ensures
            r.deep_view().src is Unknown,
            r.deep_view().media_type is None,
            r.deep_view().sizes == seq![ImageSize::Any],
            r.deep_view().purpose == seq![ImagePurpose::Any],
            r.deep_view().label is None,
    {
        IconResource {
            src: Url::Unknown,
            media_type: None,
            sizes: vec![ImageSize::Any],
            purpose: vec![ImagePurpose::Any],
            label: None,
        }
    }
}

/// A shortcut: a link to a key task or page within the web application.
#[derive(Debug, Eq, PartialEq, Clone)]
pub struct ShortcutResource {
    /// The name of the shortcut as displayed to the user.
    pub name: String,
    /// The short version of the name.
    pub short_name: Option<String>,
    /// The purpose of the shortcut.
    pub description: Option<String>,
    /// The URL within the application scope that opens when the
    /// shortcut is activated.
    pub url: Url,
    /// Iconic representations of the shortcut.
    pub icons: Vec<IconResource>,
}

/// The model of a shortcut resource.
pub ghost struct ShortcutView {
    /// The name of the shortcut as displayed to the user.
    pub name: Seq<char>,
    /// The short version of the name.
    pub short_name: Option<Seq<char>>,
    /// The purpose of the shortcut.
    pub description: Option<Seq<char>>,
    /// The URL within the application scope that opens when the
    /// shortcut is activated.
    pub url: UrlView,
    /// Iconic representations of the shortcut.
    pub icons: Seq<IconView>,
}

impl DeepView for ShortcutResource {
    type V = ShortcutView;

    open spec fn deep_view(&self) -> ShortcutView {
        ShortcutView {
            name: self.name@,
            short_name: self.short_name.deep_view(),
            description: self.description.deep_view(),
            url: self.url@,
            icons: self.icons.deep_view(),
        }
    }
}

impl Default for ShortcutResource {
    /// The default shortcut has an empty name, an unknown URL and no
    /// icons.
    fn default() -> (r: Self)
        ensures
            r.deep_view().name.len() == 0,
            r.deep_view().short_name is None,
            r.deep_view().description is None,
            r.deep_view().url is Unknown,
            r.deep_view().icons.len() == 0,
    {
        ShortcutResource {
            name: String::new(),
            short_name: None,
            description: None,
            url: Url::Unknown,
            icons: Vec::new(),
        }
    }
}

/// The parameter names under which the application receives share data.
#[derive(Debug, Eq, PartialEq, Clone)]
pub struct ShareTargetParams {
    /// The query parameter for the title of the shared document.
    pub title: Option<String>,
    /// The query parameter for the body of the shared message.
    pub text: Option<String>,
    /// The query parameter for the shared URL.
    pub url: Option<String>,
}

/// The model of the share target parameter names.
pub ghost struct ShareTargetParamsView {
    /// The query parameter for the title of the shared document.
    pub title: Option<Seq<char>>,
    /// The query parameter for the body of the shared message.
    pub text: Option<Seq<char>>,
    /// The query parameter for the shared URL.
    pub url: Option<Seq<char>>,
}

impl DeepView for ShareTargetParams {
    type V = ShareTargetParamsView;

    open spec fn deep_view(&self) -> ShareTargetParamsView {
        ShareTargetParamsView {
            title: self.title.deep_view(),
            text: self.text.deep_view(),
            url: self.url.deep_view(),
        }
    }
}

impl Default for ShareTargetParams {
    /// The default share target parameters name no parameters.
    fn default() -> (r: Self)
        ensures
            r.deep_view().title is None,
            r.deep_view().text is None,
            r.deep_view().url is None,
    {
        ShareTargetParams { title: None, text: None, url: None }
    }
}

/// How the application receives share data.
#[derive(Debug, Eq, PartialEq, Clone)]
pub struct ShareTargetResource {
    /// The URL for the web share target.
    pub action: Url,
    /// The HTTP request method for the web share target.
    pub method: crate::types::ShareTargetMethod,
    /// How the share data is encoded in the body of a POST request.
    pub enctype: crate::types::ShareTargetEnctype,
    /// The parameter names under which the application receives the
    /// share data.
    pub params: ShareTargetParams,
}

/// The model of a share target resource.
pub ghost struct ShareTargetView {
    /// The URL for the web share target.
    pub action: UrlView,
    /// The HTTP request method for the web share target.
    pub method: crate::types::ShareTargetMethod,
    /// How the share data is encoded in the body of a POST request.
    pub enctype: crate::types::ShareTargetEnctype,
    /// The parameter names under which the application receives the
    /// share data.
    pub params: ShareTargetParamsView,
}

impl DeepView for ShareTargetResource {
    type V = ShareTargetView;

    open spec fn deep_view(&self) -> ShareTargetView {
        ShareTargetView {
            action: self.action@,
            method: self.method,
            enctype: self.enctype,
            params: self.params.deep_view(),
        }
    }
}

impl Default for ShareTargetResource {
    /// The default share target has an unknown action, uses GET with
    /// URL encoding, and names no parameters.
    fn default() -> (r: Self)
        ensures
            r.deep_view().action is Unknown,
            r.deep_view().method == crate::types::ShareTargetMethod::Get,
            r.deep_view().enctype == crate::types::ShareTargetEnctype::UrlEncoded,
            r.deep_view().params.title is None,
            r.deep_view().params.text is None,
            r.deep_view().params.url is None,
    {
        ShareTargetResource {
            action: Url::Unknown,
            method: crate::types::ShareTargetMethod::Get,
            enctype: crate::types::ShareTargetEnctype::UrlEncoded,
            params: ShareTargetParams::default(),
        }
    }
}

/// A screenshot representing the application in common usage scenarios.
#[derive(Debug, Eq, PartialEq, Clone)]
pub struct ScreenshotResource {
    /// The path to the image file.
    pub src: Url,
    /// A hint as to the media type of the image.
    pub media_type: Option<mime::Mime>,
    /// The sizes the image supports.
    pub sizes: Vec<ImageSize>,
    /// The distribution platform to which the screenshot applies.
    pub platform: Option<String>,
    /// The accessible name of the image.
    pub label: Option<String>,
}

/// The model of a screenshot resource.
pub ghost struct ScreenshotView {
    /// The path to the image file.
    pub src: UrlView,
    /// A hint as to the media type of the image.
    pub media_type: Option<mime::Mime>,
    /// The sizes the image supports.
    pub sizes: Seq<ImageSize>,
    /// The distribution platform to which the screenshot applies.
    pub platform: Option<Seq<char>>,
    /// The accessible name of the image.
    pub label: Option<Seq<char>>,
}

impl DeepView for ScreenshotResource {
    type V = ScreenshotView;

    open spec fn deep_view(&self) -> ScreenshotView {
        ScreenshotView {
            src: self.src@,
            media_type: self.media_type,
            sizes: self.sizes@,
            platform: self.platform.deep_view(),
            label: self.label.deep_view(),
        }
    }
}

impl Default for ScreenshotResource {
    /// The default screenshot has an unknown source, supports any
    /// size, and has no media type, platform or label.
    fn default() -> (r: Self)
        ensures
            r.deep_view().src is Unknown,
            r.deep_view().media_type is None,
            r.deep_view().sizes == seq![ImageSize::Any],
            r.deep_view().platform is None,
            r.deep_view().label is None,
    {
        ScreenshotResource {
            src: Url::Unknown,
            media_type: None,
            sizes: vec![ImageSize::Any],
            platform: None,
            label: None,
        }
    }
}

} // verus!
