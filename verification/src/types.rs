//! URL types used throughout the manifest.

use vstd::prelude::*;

verus! {

use vstd::string::StrSliceExecFns;

/// `url::ParseError` is carried inside [`crate::errors::ManifestError`]
/// when a join of a relative reference fails.
#[verifier::external_type_specification]
#[verifier::external_body]
pub struct ExParseError(url::ParseError);

/// Relies on the derived `Clone` of `url::ParseError`, a `Copy` enum.
pub assume_specification[ <url::ParseError as Clone>::clone ](e: &url::ParseError) -> (r:
    url::ParseError)
    ensures
        r == *e,
;

/// The mathematical model of a parsed absolute URL: its full
/// serialization, the parts of its origin, and its path component.
pub ghost struct AbsUrlView {
    /// The whole URL in serialized form.
    pub href: Seq<char>,
    /// The scheme part of the origin triple.
    pub scheme: Seq<char>,
    /// The host part of the origin triple, in serialized form.
    pub host: Seq<char>,
    /// The port part of the origin triple.
    pub port: u16,
    /// Whether the URL has an opaque origin.  An opaque origin is never
    /// the same origin as anything, not even itself.
    pub opaque_origin: bool,
    /// The path component of the URL.
    pub path: Seq<char>,
}

/// What parsing a string as an absolute URL yields: `None` when the
/// string is not an absolute URL, otherwise the model of the parsed,
/// normalized URL.
pub uninterp spec fn abs_url_parse(s: Seq<char>) -> Option<AbsUrlView>;

/// What joining a relative reference against a base URL yields: `None`
/// when the reference cannot be resolved against that base, otherwise
/// the model of the resolved URL.
pub uninterp spec fn abs_url_join(base: AbsUrlView, reference: Seq<char>) -> Option<AbsUrlView>;

/// A parsed, normalized absolute URL.
///
/// The parts that the manifest engine reads — serialization, origin and
/// path — are stored as plain values next to the parsed URL itself, so
/// that origin and scope checks are ordinary string comparisons.
#[derive(Clone, Debug, PartialEq, Eq, Hash)]
pub struct AbsoluteUrl {
    href: String,
    scheme: String,
    host: String,
    port: u16,
    opaque_origin: bool,
    path: String,
}

impl View for AbsoluteUrl {
    type V = AbsUrlView;

    closed spec fn view(&self) -> AbsUrlView {
        AbsUrlView {
            href: self.href@,
            scheme: self.scheme@,
            host: self.host@,
            port: self.port,
            opaque_origin: self.opaque_origin,
            path: self.path@,
        }
    }
}

impl DeepView for AbsoluteUrl {
    type V = AbsUrlView;

    open spec fn deep_view(&self) -> AbsUrlView {
        self.view()
    }
}

/// Two origins are the same exactly when both are tuple origins and
/// agree on scheme, host and port.  Opaque origins match nothing.
pub open spec fn origin_eq(a: AbsUrlView, b: AbsUrlView) -> bool {
    &&& !a.opaque_origin
    &&& !b.opaque_origin
    &&& a.scheme == b.scheme
    &&& a.host == b.host
    &&& a.port == b.port
}

/// A URL is within a scope when it shares the scope's origin and the
/// scope's path is a literal prefix of its path.
pub open spec fn within_scope(u: AbsUrlView, scope: AbsUrlView) -> bool {
    origin_eq(u, scope) && scope.path.is_prefix_of(u.path)
}

/// Relies on `url::Url::parse` for parsing, and on `Url::origin`,
/// `Url::path` and `Url::as_str` to mirror the parts the engine reads.
/// The origin of an `ftp`/`http`/`https`/`ws`/`wss` URL (or of the URL
/// inside a `blob` URL) is a scheme/host/port tuple; every other origin
/// is opaque and equal to nothing.  The host is recorded in its
/// serialized form, which distinguishes distinct hosts of tuple origins.
#[verifier::external_body]
fn parse_raw(s: &str) -> (r: Result<AbsoluteUrl, url::ParseError>)
    ensures
        (r is Ok) == (abs_url_parse(s@) is Some),
        r matches Ok(a) ==> Some(a@) == abs_url_parse(s@),
{
    let u = url::Url::parse(s)?;
    let (opaque_origin, scheme, host, port) = match u.origin() {
        url::Origin::Tuple(sch, h, p) => (false, sch, h.to_string(), p),
        url::Origin::Opaque(_) => (true, String::new(), String::new(), 0),
    };
    let path = u.path().to_string();
    let href = String::from(u);
    Ok(AbsoluteUrl { href, scheme, host, port, opaque_origin, path })
}

/// Relies on `url::Url::join` for relative-reference resolution, and on
/// the same accessors as `parse_raw` for the parts of the result.  The
/// base is rebuilt with `url::Url::parse` from its stored serialization;
/// parsing a URL's serialization yields that URL back.
#[verifier::external_body]
fn join_raw(base: &AbsoluteUrl, reference: &str) -> (r: Result<AbsoluteUrl, url::ParseError>)
    ensures
        (r is Ok) == (abs_url_join(base@, reference@) is Some),
        r matches Ok(a) ==> Some(a@) == abs_url_join(base@, reference@),
{
    let u = url::Url::parse(base.href.as_str())?.join(reference)?;
    let (opaque_origin, scheme, host, port) = match u.origin() {
        url::Origin::Tuple(sch, h, p) => (false, sch, h.to_string(), p),
        url::Origin::Opaque(_) => (true, String::new(), String::new(), 0),
    };
    let path = u.path().to_string();
    let href = String::from(u);
    Ok(AbsoluteUrl { href, scheme, host, port, opaque_origin, path })
}

/// Whether `p` is a literal character-for-character prefix of `s`.
fn str_is_prefix(p: &str, s: &str) -> (r: bool)
    ensures
        r == p@.is_prefix_of(s@),
{
    let pl = p.unicode_len();
    let sl = s.unicode_len();
    if pl > sl {
        return false;
    }
    let mut i: usize = 0;
    while i < pl
        invariant
            i <= pl,
            pl <= sl,
            pl == p@.len(),
            sl == s@.len(),
            forall|j: int| 0 <= j < i ==> p@[j] == s@[j],
        decreases pl - i,
    {
        if p.get_char(i) != s.get_char(i) {
            return false;
        }
        i += 1;
    }
    proof {
        assert(p@ =~= s@.subrange(0, p@.len() as int));
    }
    true
}

impl AbsoluteUrl {
    /// Parse a string as an absolute URL.
    pub fn parse(s: &str) -> (r: Result<AbsoluteUrl, crate::errors::ManifestError>)
        ensures
            (r is Ok) == (abs_url_parse(s@) is Some),
            r matches Ok(a) ==> Some(a@) == abs_url_parse(s@),
            r matches Err(e) ==> e@ == crate::errors::ErrorView::UrlParsing,
    {
        match parse_raw(s) {
            Ok(a) => Ok(a),
            Err(e) => Err(crate::errors::ManifestError::UrlParsing { source: e }),
        }
    }

    /// Resolve a relative reference against this URL.
    pub fn join(&self, reference: &str) -> (r: Result<AbsoluteUrl, crate::errors::ManifestError>)
        ensures
            (r is Ok) == (abs_url_join(self@, reference@) is Some),
            r matches Ok(a) ==> Some(a@) == abs_url_join(self@, reference@),
            r matches Err(e) ==> e@ == crate::errors::ErrorView::UrlParsing,
    {
        match join_raw(self, reference) {
            Ok(a) => Ok(a),
            Err(e) => Err(crate::errors::ManifestError::UrlParsing { source: e }),
        }
    }

    /// The serialized form of the URL.
    pub fn as_str(&self) -> (r: &str)
        ensures
            r@ == self@.href,
    {
        self.href.as_str()
    }

    /// The path component of the URL.
    pub fn path(&self) -> (r: &str)
        ensures
            r@ == self@.path,
    {
        self.path.as_str()
    }

    /// The serialized form of the URL, by value.
    pub fn into_text(self) -> (r: String)
        ensures
            r@ == self@.href,
    {
        self.href
    }

    /// A copy of this URL with the same model.
    pub fn duplicate(&self) -> (r: AbsoluteUrl)
        ensures
            r@ == self@,
    {
        AbsoluteUrl {
            href: self.href.clone(),
            scheme: self.scheme.clone(),
            host: self.host.clone(),
            port: self.port,
            opaque_origin: self.opaque_origin,
            path: self.path.clone(),
        }
    }

    /// Whether this URL and `other` have the same origin.
    pub fn same_origin(&self, other: &AbsoluteUrl) -> (r: bool)
        ensures
            r == origin_eq(self@, other@),
    {
        !self.opaque_origin && !other.opaque_origin && self.scheme == other.scheme
            && self.host == other.host && self.port == other.port
    }

    /// Whether this URL is within the given scope: same origin, and the
    /// scope's path is a literal prefix of this URL's path.
    pub fn is_within_scope(&self, scope: &AbsoluteUrl) -> (r: bool)
        ensures
            r == within_scope(self@, scope@),
    {
        self.same_origin(scope) && str_is_prefix(scope.path.as_str(), self.path.as_str())
    }
}

/// The model of a tri-state URL.
pub ghost enum UrlView {
    /// A parsed absolute URL.
    Absolute(AbsUrlView),
    /// An unparsed relative reference.
    Relative(Seq<char>),
    /// No URL was given.
    Unknown,
}

/// The resource URL.
///
/// It stores either a parsed absolute URL, a relative reference kept as
/// an unparsed string, or the explicit unknown value.  What an unknown
/// URL stands for depends on context: as a start URL it stands for the
/// document URL, as a scope URL for the directory of the start URL, and
/// everywhere else it is invalid.
#[derive(Clone, Debug, PartialEq, Eq, Hash)]
pub enum Url {
    /// The parsed absolute URL.
    Absolute(AbsoluteUrl),
    /// The relative URL as an unparsed string.
    Relative(String),
    /// The unknown URL.
    Unknown,
}

impl View for Url {
    type V = UrlView;

    open spec fn view(&self) -> UrlView {
        match self {
            Url::Absolute(a) => UrlView::Absolute(a@),
            Url::Relative(s) => UrlView::Relative(s@),
            Url::Unknown => UrlView::Unknown,
        }
    }
}

impl DeepView for Url {
    type V = UrlView;

    open spec fn deep_view(&self) -> UrlView {
        self.view()
    }
}

/// What [`Url::parse`] yields: the parsed absolute URL when the string
/// parses as one, otherwise the string kept as a relative reference.
pub open spec fn url_parse_view(s: Seq<char>) -> UrlView {
    match abs_url_parse(s) {
        Some(a) => UrlView::Absolute(a),
        None => UrlView::Relative(s),
    }
}

impl Url {
    /// Parse a URL string: an absolute URL on success, otherwise the
    /// string is kept as a relative reference.  Never fails.
    pub fn parse(s: &str) -> (r: Url)
        ensures
            r@ == url_parse_view(s@),
    {
        match parse_raw(s) {
            Ok(a) => Url::Absolute(a),
            Err(_) => Url::Relative(s.to_owned()),
        }
    }

    /// The text form of the URL.  Absolute URLs yield their
    /// serialization, relative references their raw string; the unknown
    /// URL has no text form.
    pub fn to_text(self) -> (r: Result<String, crate::errors::ManifestError>)
        ensures
            self@ matches UrlView::Absolute(a) ==> r matches Ok(s) && s@ == a.href,
            self@ matches UrlView::Relative(t) ==> r matches Ok(s) && s@ == t,
            self@ is Unknown ==> (r matches Err(e) && e@
                == (crate::errors::ErrorView::NotStringifyable { url: UrlView::Unknown })),
    {
        match self {
            Url::Absolute(a) => Ok(a.into_text()),
            Url::Relative(s) => Ok(s),
            Url::Unknown => Err(
                crate::errors::ManifestError::NotStringifyable { url: Url::Unknown },
            ),
        }
    }

    /// The parsed absolute URL, when this value holds one.
    pub fn to_absolute(self) -> (r: Result<AbsoluteUrl, crate::errors::ManifestError>)
        ensures
            self@ matches UrlView::Absolute(a) ==> r matches Ok(u) && u@ == a,
            !(self@ is Absolute) ==> (r matches Err(e) && e@
                == (crate::errors::ErrorView::NotAbsolute { url: self@ })),
    {
        match self {
            Url::Absolute(a) => Ok(a),
            other => Err(crate::errors::ManifestError::NotAbsolute { url: other }),
        }
    }
}

impl Default for Url {
    /// The default URL is the unknown URL.
    fn default() -> (r: Self)
        ensures
            r@ == UrlView::Unknown,
    {
        Url::Unknown
    }
}

/// The base direction in which to display direction-capable members of
/// the manifest.
#[derive(Debug, Eq, PartialEq, Structural, Clone, Copy, Hash)]
pub enum Direction {
    /// No explicit directionality.
    Auto,
    /// Left-to-right text.
    Ltr,
    /// Right-to-left text.
    Rtl,
}

impl Default for Direction {
    /// The default direction leaves directionality implicit.
    fn default() -> (r: Self)
        ensures
            r == Direction::Auto,
    {
        Direction::Auto
    }
}

/// The preferred display mode of the web application.
#[derive(Debug, Eq, PartialEq, Structural, Clone, Copy, Hash)]
pub enum Display {
    /// A conventional browser tab or new window.
    Browser,
    /// The entirety of the available display area, with browser UI
    /// elements hidden.
    Fullscreen,
    /// The look and feel of a standalone native application.
    Standalone,
    /// Like a standalone application, but with a minimal set of UI
    /// elements for controlling navigation.
    MinimalUi,
}

impl Default for Display {
    /// The default display mode is a conventional browser tab.
    fn default() -> (r: Self)
        ensures
            r == Display::Browser,
    {
        Display::Browser
    }
}

/// The preferred orientation of the web application.
#[derive(Debug, Eq, PartialEq, Structural, Clone, Copy, Hash)]
pub enum Orientation {
    /// The screen can be locked to any orientation.
    Any,
    /// The device's usual orientation.
    Natural,
    /// Width greater than height.
    Landscape,
    /// Width less than or equal to height.
    Portrait,
    /// Landscape as held in the device's natural landscape position.
    LandscapePrimary,
    /// Landscape rotated 180 degrees from its natural position.
    LandscapeSecondary,
    /// Portrait as held in the device's natural portrait position.
    PortraitPrimary,
    /// Portrait rotated 180 degrees from its natural position.
    PortraitSecondary,
}

impl Default for Orientation {
    /// The default orientation allows any orientation.
    fn default() -> (r: Self)
        ensures
            r == Orientation::Any,
    {
        Orientation::Any
    }
}

/// The HTTP request method for the web share target.
#[derive(Debug, Eq, PartialEq, Structural, Clone, Copy, Hash)]
pub enum ShareTargetMethod {
    /// The web share target uses the GET method.
    Get,
    /// The web share target uses the POST method.
    Post,
}

impl Default for ShareTargetMethod {
    /// The default method is GET.
    fn default() -> (r: Self)
        ensures
            r == ShareTargetMethod::Get,
    {
        ShareTargetMethod::Get
    }
}

/// The encoding of the body of a POST request for the web share target.
/// It is ignored when the method is GET.
#[derive(Debug, Eq, PartialEq, Structural, Clone, Copy, Hash)]
pub enum ShareTargetEnctype {
    /// The `application/x-www-form-urlencoded` encoding.
    UrlEncoded,
    /// The `multipart/form-data` encoding.
    FormData,
}

impl Default for ShareTargetEnctype {
    /// The default encoding is `application/x-www-form-urlencoded`.
    fn default() -> (r: Self)
        ensures
            r == ShareTargetEnctype::UrlEncoded,
    {
        ShareTargetEnctype::UrlEncoded
    }
}

/// The size of an image.
#[derive(Debug, Eq, PartialEq, Structural, Ord, PartialOrd, Clone, Copy, Hash)]
pub enum ImageSize {
    /// The image is a fixed number of pixels wide and high.
    Fixed(u32, u32),
    /// The image can support any size.
    Any,
}

impl Default for ImageSize {
    /// The default size allows any size.
    fn default() -> (r: Self)
        ensures
            r == ImageSize::Any,
    {
        ImageSize::Any
    }
}

/// The purpose of an image.
#[derive(Debug, Eq, PartialEq, Structural, Clone, Copy, Hash)]
pub enum ImagePurpose {
    /// The image may be displayed in any context.
    Any,
    /// The image serves where a monochrome icon with a solid fill is
    /// needed; only its alpha data is used.
    Monochrome,
    /// The image is designed with icon masks and a safe zone in mind.
    Maskable,
}

impl Default for ImagePurpose {
    /// The default purpose allows any context.
    fn default() -> (r: Self)
        ensures
            r == ImagePurpose::Any,
    {
        ImagePurpose::Any
    }
}

} // verus!
