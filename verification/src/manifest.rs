//! The manifest document and its resolution and validation engine.

use vstd::prelude::*;

verus! {

use crate::errors::{ErrorView, ManifestError};
use crate::resources::{
    ExternalApplicationResource, ExternalApplicationView, IconResource, IconView,
    ProtocolHandlerResource, ProtocolHandlerView, ScreenshotResource, ScreenshotView,
    ShareTargetResource, ShareTargetView, ShortcutResource, ShortcutView,
};
use crate::types::{
    abs_url_join, origin_eq, within_scope, AbsUrlView, AbsoluteUrl, Direction, Display,
    Orientation, Url, UrlView,
};

/// `csscolorparser::Color` is carried as the background and theme
/// colors; the engine never reads it.
#[verifier::external_type_specification]
#[verifier::external_body]
pub struct ExColor(csscolorparser::Color);

/// `language_tags::LanguageTag` is carried as the manifest language;
/// the engine never reads it.
#[verifier::external_type_specification]
#[verifier::external_body]
pub struct ExLanguageTag(language_tags::LanguageTag);

/// The model of a manifest document.
#[verifier::ext_equal]
pub ghost struct ManifestView {
    /// The start URL of the web application.
    pub start_url: UrlView,
    /// The navigation scope of the web application.
    pub scope: UrlView,
    /// The name of the web application.
    pub name: Option<Seq<char>>,
    /// The short name of the web application.
    pub short_name: Option<Seq<char>>,
    /// The purpose of the web application.
    pub description: Option<Seq<char>>,
    /// The categories the web application belongs to.
    pub categories: Seq<Seq<char>>,
    /// Keywords describing the web application.
    pub keywords: Seq<Seq<char>>,
    /// The base direction of direction-capable members.
    pub dir: Direction,
    /// The primary language of the manifest's members.
    pub lang: Option<language_tags::LanguageTag>,
    /// The preferred display mode.
    pub display: Display,
    /// The default orientation.
    pub orientation: Orientation,
    /// The placeholder background color.
    pub background_color: Option<csscolorparser::Color>,
    /// The default theme color.
    pub theme_color: Option<csscolorparser::Color>,
    /// The IARC certification code.
    pub iarc_rating_id: Option<Seq<char>>,
    /// Whether related applications should be preferred.
    pub prefer_related_applications: bool,
    /// Native applications related to the web application.
    pub related_applications: Seq<ExternalApplicationView>,
    /// The protocols the web application can register and handle.
    pub protocol_handlers: Seq<ProtocolHandlerView>,
    /// Shortcuts to key tasks within the web application.
    pub shortcuts: Seq<ShortcutView>,
    /// How the application receives share data.
    pub share_target: Option<ShareTargetView>,
    /// The application icons.
    pub icons: Seq<IconView>,
    /// Screenshots showcasing the application.
    pub screenshots: Seq<ScreenshotView>,
}

/// A manifest document: startup parameters and application defaults for
/// a web application.
///
/// A decoded document may hold relative or unknown URLs; the engine
/// entry point [`WebAppManifest::process`] rewrites all of them to
/// absolute URLs and validates origin and scope.
#[derive(Debug, PartialEq, Clone)]
pub struct WebAppManifest {
    /// The preferred URL that should be loaded when the user launches
    /// the web application.  An unknown start URL resolves to the
    /// document URL.
    pub start_url: Url,
    /// The navigation scope of this web application's application
    /// context.  An unknown scope resolves to the directory of the
    /// resolved start URL.
    pub scope: Url,
    /// The name of the web application as usually displayed to the
    /// user.
    pub name: Option<String>,
    /// The name displayed when there is not enough space for `name`.
    pub short_name: Option<String>,
    /// The purpose of the web application.
    pub description: Option<String>,
    /// The application categories the web application belongs to.
    pub categories: Vec<String>,
    /// Keywords describing the web application in depth.
    pub keywords: Vec<String>,
    /// The base direction in which to display direction-capable
    /// members of the manifest.
    pub dir: Direction,
    /// The primary language for the values of the manifest's
    /// direction-capable members.
    pub lang: Option<language_tags::LanguageTag>,
    /// The developers' preferred display mode for the website.
    pub display: Display,
    /// The default orientation for the website's top-level browsing
    /// contexts.
    pub orientation: Orientation,
    /// A placeholder background color to display before the
    /// application's stylesheet is loaded.
    pub background_color: Option<csscolorparser::Color>,
    /// The default theme color for the application.
    pub theme_color: Option<csscolorparser::Color>,
    /// The International Age Rating Coalition certification code of
    /// the web application.
    pub iarc_rating_id: Option<String>,
    /// A hint that related applications should be preferred over the
    /// web application.
    pub prefer_related_applications: bool,
    /// Native applications installable by, or accessible to, the
    /// underlying platform.
    pub related_applications: Vec<ExternalApplicationResource>,
    /// The protocols this web application can register and handle.
    pub protocol_handlers: Vec<ProtocolHandlerResource>,
    /// Shortcuts or links to key tasks or pages within the web
    /// application.
    pub shortcuts: Vec<ShortcutResource>,
    /// The declaration of this application as a web share target.
    pub share_target: Option<ShareTargetResource>,
    /// Image files that can serve as application icons.
    pub icons: Vec<IconResource>,
    /// Screenshots intended to showcase the application.
    pub screenshots: Vec<ScreenshotResource>,
}

impl DeepView for WebAppManifest {
    type V = ManifestView;

    open spec fn deep_view(&self) -> ManifestView {
        ManifestView {
            start_url: self.start_url@,
            scope: self.scope@,
            name: self.name.deep_view(),
            short_name: self.short_name.deep_view(),
            description: self.description.deep_view(),
            categories: self.categories.deep_view(),
            keywords: self.keywords.deep_view(),
            dir: self.dir,
            lang: self.lang,
            display: self.display,
            orientation: self.orientation,
            background_color: self.background_color,
            theme_color: self.theme_color,
            iarc_rating_id: self.iarc_rating_id.deep_view(),
            prefer_related_applications: self.prefer_related_applications,
            related_applications: self.related_applications.deep_view(),
            protocol_handlers: self.protocol_handlers.deep_view(),
            shortcuts: self.shortcuts.deep_view(),
            share_target: self.share_target.deep_view(),
            icons: self.icons.deep_view(),
            screenshots: self.screenshots.deep_view(),
        }
    }
}

impl Default for WebAppManifest {
    /// The default manifest has unknown start and scope URLs, empty
    /// collections, and every other field at its own default.
    fn default() -> (r: Self)
        ensures
            r.deep_view().start_url is Unknown,
            r.deep_view().scope is Unknown,
            r.deep_view().name is None,
            r.deep_view().short_name is None,
            r.deep_view().description is None,
            r.deep_view().categories.len() == 0,
            r.deep_view().keywords.len() == 0,
            r.deep_view().dir == Direction::Auto,
            r.deep_view().lang is None,
            r.deep_view().display == Display::Browser,
            r.deep_view().orientation == Orientation::Any,
            r.deep_view().background_color is None,
            r.deep_view().theme_color is None,
            r.deep_view().iarc_rating_id is None,
            !r.deep_view().prefer_related_applications,
            r.deep_view().related_applications.len() == 0,
            r.deep_view().protocol_handlers.len() == 0,
            r.deep_view().shortcuts.len() == 0,
            r.deep_view().share_target is None,
            r.deep_view().icons.len() == 0,
            r.deep_view().screenshots.len() == 0,
    {
        WebAppManifest {
            start_url: Url::Unknown,
            scope: Url::Unknown,
            name: None,
            short_name: None,
            description: None,
            categories: Vec::new(),
            keywords: Vec::new(),
            dir: Direction::Auto,
            lang: None,
            display: Display::Browser,
            orientation: Orientation::Any,
            background_color: None,
            theme_color: None,
            iarc_rating_id: None,
            prefer_related_applications: false,
            related_applications: Vec::new(),
            protocol_handlers: Vec::new(),
            shortcuts: Vec::new(),
            share_target: None,
            icons: Vec::new(),
            screenshots: Vec::new(),
        }
    }
}

/// How a URL field with no special unknown semantics resolves: an
/// absolute URL stays as it is, a relative reference is joined against
/// the manifest URL, and an unknown URL is an authoring error.
pub open spec fn field_resolve(u: UrlView, man: AbsUrlView) -> Result<AbsUrlView, ErrorView> {
    match u {
        UrlView::Absolute(a) => Ok(a),
        UrlView::Relative(r) => match abs_url_join(man, r) {
            Some(a) => Ok(a),
            None => Err(ErrorView::UrlParsing),
        },
        UrlView::Unknown => Err(ErrorView::InvalidUnknownUrl),
    }
}

/// How the start URL resolves: an unknown start URL becomes the
/// document URL verbatim; otherwise it resolves like any other field.
pub open spec fn start_resolve(u: UrlView, doc: AbsUrlView, man: AbsUrlView) -> Result<
    AbsUrlView,
    ErrorView,
> {
    match u {
        UrlView::Unknown => Ok(doc),
        _ => field_resolve(u, man),
    }
}

/// How the scope URL resolves: an unknown scope becomes the directory
/// of the already-resolved start URL, the result of joining `.` against
/// it; otherwise it resolves like any other field.
pub open spec fn scope_resolve(u: UrlView, start: AbsUrlView, man: AbsUrlView) -> Result<
    AbsUrlView,
    ErrorView,
> {
    match u {
        UrlView::Unknown => match abs_url_join(start, "."@) {
            Some(a) => Ok(a),
            None => Err(ErrorView::UrlParsing),
        },
        _ => field_resolve(u, man),
    }
}

/// How an external application resource resolves: its optional URL is
/// resolved when present.
pub open spec fn app_resolve(a: ExternalApplicationView, man: AbsUrlView) -> Result<
    ExternalApplicationView,
    ErrorView,
> {
    match a.url {
        None => Ok(a),
        Some(u) => match field_resolve(u, man) {
            Ok(r) => Ok(ExternalApplicationView { url: Some(UrlView::Absolute(r)), ..a }),
            Err(e) => Err(e),
        },
    }
}

/// How a protocol handler resource resolves: its URL is resolved.
pub open spec fn handler_resolve(h: ProtocolHandlerView, man: AbsUrlView) -> Result<
    ProtocolHandlerView,
    ErrorView,
> {
    match field_resolve(h.url, man) {
        Ok(a) => Ok(ProtocolHandlerView { url: UrlView::Absolute(a), ..h }),
        Err(e) => Err(e),
    }
}

/// How an icon resource resolves: its source is resolved.
pub open spec fn icon_resolve(i: IconView, man: AbsUrlView) -> Result<IconView, ErrorView> {
    match field_resolve(i.src, man) {
        Ok(a) => Ok(IconView { src: UrlView::Absolute(a), ..i }),
        Err(e) => Err(e),
    }
}

/// How a screenshot resource resolves: its source is resolved.
pub open spec fn screenshot_resolve(s: ScreenshotView, man: AbsUrlView) -> Result<
    ScreenshotView,
    ErrorView,
> {
    match field_resolve(s.src, man) {
        Ok(a) => Ok(ScreenshotView { src: UrlView::Absolute(a), ..s }),
        Err(e) => Err(e),
    }
}

/// Resolving a sequence of records, stopping at the first error.
pub open spec fn seq_resolve<T>(s: Seq<T>, f: spec_fn(T) -> Result<T, ErrorView>) -> Result<
    Seq<T>,
    ErrorView,
>
    decreases s.len(),
{
    if s.len() == 0 {
        Ok(Seq::empty())
    } else {
        match f(s[0]) {
            Err(e) => Err(e),
            Ok(t) => match seq_resolve(s.drop_first(), f) {
                Err(e) => Err(e),
                Ok(rest) => Ok(seq![t] + rest),
            },
        }
    }
}

/// The resolver for external application resources.
pub open spec fn app_resolver(man: AbsUrlView) -> spec_fn(ExternalApplicationView) -> Result<
    ExternalApplicationView,
    ErrorView,
> {
    |a: ExternalApplicationView| app_resolve(a, man)
}

/// The resolver for protocol handler resources.
pub open spec fn handler_resolver(man: AbsUrlView) -> spec_fn(ProtocolHandlerView) -> Result<
    ProtocolHandlerView,
    ErrorView,
> {
    |h: ProtocolHandlerView| handler_resolve(h, man)
}

/// The resolver for icon resources.
pub open spec fn icon_resolver(man: AbsUrlView) -> spec_fn(IconView) -> Result<
    IconView,
    ErrorView,
> {
    |i: IconView| icon_resolve(i, man)
}

/// The resolver for screenshot resources.
pub open spec fn screenshot_resolver(man: AbsUrlView) -> spec_fn(ScreenshotView) -> Result<
    ScreenshotView,
    ErrorView,
> {
    |s: ScreenshotView| screenshot_resolve(s, man)
}

/// How a shortcut resource resolves: its URL is resolved, then the
/// sources of all its icons.
pub open spec fn shortcut_resolve(s: ShortcutView, man: AbsUrlView) -> Result<
    ShortcutView,
    ErrorView,
> {
    match field_resolve(s.url, man) {
        Err(e) => Err(e),
        Ok(a) => match seq_resolve(s.icons, icon_resolver(man)) {
            Err(e) => Err(e),
            Ok(icons) => Ok(ShortcutView { url: UrlView::Absolute(a), icons, ..s }),
        },
    }
}

/// The resolver for shortcut resources.
pub open spec fn shortcut_resolver(man: AbsUrlView) -> spec_fn(ShortcutView) -> Result<
    ShortcutView,
    ErrorView,
> {
    |s: ShortcutView| shortcut_resolve(s, man)
}

/// How the optional share target resolves: its action is resolved when
/// the share target is present.
pub open spec fn share_opt_resolve(s: Option<ShareTargetView>, man: AbsUrlView) -> Result<
    Option<ShareTargetView>,
    ErrorView,
> {
    match s {
        None => Ok(None),
        Some(st) => match field_resolve(st.action, man) {
            Ok(a) => Ok(Some(ShareTargetView { action: UrlView::Absolute(a), ..st })),
            Err(e) => Err(e),
        },
    }
}

/// The absolute URL inside a tri-state URL known to be absolute.
pub open spec fn abs_of(u: UrlView) -> AbsUrlView {
    match u {
        UrlView::Absolute(a) => a,
        _ => arbitrary(),
    }
}

/// The reference string inside a tri-state URL known to be relative.
pub open spec fn rel_of(u: UrlView) -> Seq<char> {
    match u {
        UrlView::Relative(s) => s,
        _ => arbitrary(),
    }
}

/// The first URL in a sequence of records that falls outside the
/// scope, in document order.  Records whose URL is not absolute are
/// passed over; after resolution every URL is absolute.
pub open spec fn first_out_of_scope<T>(
    s: Seq<T>,
    url_of: spec_fn(T) -> UrlView,
    scope: AbsUrlView,
) -> Option<AbsUrlView>
    decreases s.len(),
{
    if s.len() == 0 {
        None
    } else {
        match url_of(s[0]) {
            UrlView::Absolute(a) => if !within_scope(a, scope) {
                Some(a)
            } else {
                first_out_of_scope(s.drop_first(), url_of, scope)
            },
            _ => first_out_of_scope(s.drop_first(), url_of, scope),
        }
    }
}

/// The URL slot of a protocol handler, for scope checking.
pub open spec fn handler_url_of() -> spec_fn(ProtocolHandlerView) -> UrlView {
    |x: ProtocolHandlerView| x.url
}

/// The URL slot of a shortcut, for scope checking.
pub open spec fn shortcut_url_of() -> spec_fn(ShortcutView) -> UrlView {
    |x: ShortcutView| x.url
}

/// The validation pass over a resolved document: the start URL must
/// share the document URL's origin and lie within the scope, and every
/// protocol handler URL, shortcut URL and the share-target action must
/// lie within the scope.  Icons and screenshots are exempt.  The first
/// violation in this order is reported.
pub open spec fn validate(
    start: AbsUrlView,
    scope: AbsUrlView,
    handlers: Seq<ProtocolHandlerView>,
    shortcuts: Seq<ShortcutView>,
    share: Option<ShareTargetView>,
    doc: AbsUrlView,
) -> Option<ErrorView> {
    if !origin_eq(start, doc) {
        Some(ErrorView::NotSameOrigin { url1: start, url2: doc })
    } else if !within_scope(start, scope) {
        Some(ErrorView::NotWithinScope { url: start, scope })
    } else {
        match first_out_of_scope(handlers, handler_url_of(), scope) {
            Some(u) => Some(ErrorView::NotWithinScope { url: u, scope }),
            None => match first_out_of_scope(shortcuts, shortcut_url_of(), scope) {
                Some(u) => Some(ErrorView::NotWithinScope { url: u, scope }),
                None => match share {
                    Some(st) => match st.action {
                        UrlView::Absolute(a) => if !within_scope(a, scope) {
                            Some(ErrorView::NotWithinScope { url: a, scope })
                        } else {
                            None
                        },
                        _ => None,
                    },
                    None => None,
                },
            },
        }
    }
}

/// What processing a manifest document yields: either the document
/// with every URL field rewritten to an absolute URL, or the first
/// error, in the fixed order of the engine — start URL, scope,
/// external applications, protocol handlers, shortcuts and their
/// icons, share target, icons, screenshots, then the origin check on
/// the start URL and the scope checks.
pub open spec fn process_spec(m: ManifestView, doc: AbsUrlView, man: AbsUrlView) -> Result<
    ManifestView,
    ErrorView,
> {
    match start_resolve(m.start_url, doc, man) {
        Err(e) => Err(e),
        Ok(start) => match scope_resolve(m.scope, start, man) {
            Err(e) => Err(e),
            Ok(scope) => match seq_resolve(m.related_applications, app_resolver(man)) {
                Err(e) => Err(e),
                Ok(apps) => match seq_resolve(m.protocol_handlers, handler_resolver(man)) {
                    Err(e) => Err(e),
                    Ok(handlers) => match seq_resolve(m.shortcuts, shortcut_resolver(man)) {
                        Err(e) => Err(e),
                        Ok(shortcuts) => match share_opt_resolve(m.share_target, man) {
                            Err(e) => Err(e),
                            Ok(share) => match seq_resolve(m.icons, icon_resolver(man)) {
                                Err(e) => Err(e),
                                Ok(icons) => match seq_resolve(
                                    m.screenshots,
                                    screenshot_resolver(man),
                                ) {
                                    Err(e) => Err(e),
                                    Ok(screenshots) => match validate(
                                        start,
                                        scope,
                                        handlers,
                                        shortcuts,
                                        share,
                                        doc,
                                    ) {
                                        Some(e) => Err(e),
                                        None => Ok(
                                            ManifestView {
                                                start_url: UrlView::Absolute(start),
                                                scope: UrlView::Absolute(scope),
                                                related_applications: apps,
                                                protocol_handlers: handlers,
                                                shortcuts,
                                                share_target: share,
                                                icons,
                                                screenshots,
                                                ..m
                                            },
                                        ),
                                    },
                                },
                            },
                        },
                    },
                },
            },
        },
    }
}

/// Resolving a sequence whose first `i` records resolve cleanly either
/// succeeds record by record, or fails with the error of the first
/// failing record.
pub proof fn lemma_seq_resolve_prefix<T>(s: Seq<T>, f: spec_fn(T) -> Result<T, ErrorView>, i: int)
    requires
        0 <= i <= s.len(),
        forall|j: int| 0 <= j < i ==> #[trigger] f(s[j]) is Ok,
    ensures
        i == s.len() ==> (seq_resolve(s, f) matches Ok(t) && t.len() == s.len() && forall|j: int|
            0 <= j < s.len() ==> t[j] == #[trigger] f(s[j])->Ok_0),
        (i < s.len() && f(s[i]) is Err) ==> seq_resolve(s, f) == Result::<Seq<T>, ErrorView>::Err(
            f(s[i])->Err_0,
        ),
    decreases s.len(),
{
    if s.len() == 0 {
    } else if i == 0 {
    } else {
        lemma_seq_resolve_prefix(s.drop_first(), f, i - 1);
        assert(forall|j: int| 0 <= j < s.len() - 1 ==> s.drop_first()[j] == s[j + 1]);
        if i == s.len() {
            let t0 = f(s[0])->Ok_0;
            let rest = seq_resolve(s.drop_first(), f)->Ok_0;
            let t = seq![t0] + rest;
            assert(seq_resolve(s, f) == Result::<Seq<T>, ErrorView>::Ok(t));
            assert forall|j: int| 0 <= j < s.len() implies t[j] == #[trigger] f(s[j])->Ok_0 by {
                if j > 0 {
                    assert(t[j] == rest[j - 1]);
                }
            }
        }
    }
}

/// A sequence that resolves cleanly does so record by record.
pub proof fn lemma_seq_resolve_ok<T>(s: Seq<T>, f: spec_fn(T) -> Result<T, ErrorView>)
    requires
        seq_resolve(s, f) is Ok,
    ensures
        (seq_resolve(s, f)->Ok_0).len() == s.len(),
        forall|j: int| 0 <= j < s.len() ==> #[trigger] f(s[j]) is Ok,
        forall|j: int| 0 <= j < s.len() ==> (seq_resolve(s, f)->Ok_0)[j] == f(s[j])->Ok_0,
    decreases s.len(),
{
    if s.len() == 0 {
    } else {
        lemma_seq_resolve_ok(s.drop_first(), f);
        assert(forall|j: int| 0 <= j < s.len() - 1 ==> s.drop_first()[j] == s[j + 1]);
        assert forall|j: int| 0 <= j < s.len() implies #[trigger] f(s[j]) is Ok by {
            if j > 0 {
                assert(f(s.drop_first()[j - 1]) is Ok);
            }
        }
        let t0 = f(s[0])->Ok_0;
        let rest = seq_resolve(s.drop_first(), f)->Ok_0;
        let t = seq![t0] + rest;
        assert(seq_resolve(s, f) == Result::<Seq<T>, ErrorView>::Ok(t));
        assert forall|j: int| 0 <= j < s.len() implies (seq_resolve(s, f)->Ok_0)[j] == f(
            s[j],
        )->Ok_0 by {
            if j > 0 {
                assert(t[j] == rest[j - 1]);
            }
        }
    }
}

/// Scope-checking a sequence whose first `i` records pass either finds
/// no violation, or reports the URL of the first violating record.
pub proof fn lemma_first_out_of_scope_prefix<T>(
    s: Seq<T>,
    url_of: spec_fn(T) -> UrlView,
    scope: AbsUrlView,
    i: int,
)
    requires
        0 <= i <= s.len(),
        forall|j: int| 0 <= j < i ==> (#[trigger] url_of(s[j]) is Absolute ==> within_scope(
            abs_of(url_of(s[j])),
            scope,
        )),
    ensures
        i == s.len() ==> first_out_of_scope(s, url_of, scope) is None,
        (i < s.len() && url_of(s[i]) is Absolute && !within_scope(abs_of(url_of(s[i])), scope))
            ==> first_out_of_scope(s, url_of, scope) == Some(abs_of(url_of(s[i]))),
    decreases s.len(),
{
    if s.len() == 0 {
    } else if i == 0 {
    } else {
        lemma_first_out_of_scope_prefix(s.drop_first(), url_of, scope, i - 1);
        assert(forall|j: int| 0 <= j < s.len() - 1 ==> s.drop_first()[j] == s[j + 1]);
    }
}

/// Rewrite one URL field in place: an absolute URL is left unchanged, a
/// relative reference is joined against the manifest URL, and an
/// unknown URL is rejected.
fn resolve_in_place(u: &mut Url, man: &AbsoluteUrl) -> (r: Result<(), ManifestError>)
    ensures
        (r is Ok) == (field_resolve(old(u)@, man@) is Ok),
        r is Ok ==> final(u)@ == UrlView::Absolute(field_resolve(old(u)@, man@)->Ok_0),
        r matches Err(e) ==> (field_resolve(old(u)@, man@) matches Err(ev) && e@ == ev),
{
    let joined = match &*u {
        Url::Absolute(_) => {
            return Ok(());
        },
        Url::Unknown => {
            return Err(ManifestError::InvalidUnknownUrl);
        },
        Url::Relative(s) => match man.join(s.as_str()) {
            Ok(a) => a,
            Err(e) => {
                return Err(e);
            },
        },
    };
    *u = Url::Absolute(joined);
    Ok(())
}

/// Rewrite the source of every icon in the list, stopping at the first
/// error.
fn resolve_icon_list(v: &mut Vec<IconResource>, man: &AbsoluteUrl) -> (r: Result<
    (),
    ManifestError,
>)
    ensures
        (r is Ok) == (seq_resolve(old(v).deep_view(), icon_resolver(man@)) is Ok),
        r is Ok ==> final(v).deep_view() == seq_resolve(old(v).deep_view(), icon_resolver(man@))
            ->Ok_0,
        r matches Err(e) ==> (seq_resolve(old(v).deep_view(), icon_resolver(man@)) matches Err(ev)
            && e@ == ev),
{
    let ghost s0 = v.deep_view();
    let ghost f = icon_resolver(man@);
    let n = v.len();
    let mut i: usize = 0;
    while i < n
        invariant
            i <= n,
            n == v@.len(),
            v@.len() == s0.len(),
            s0 == old(v).deep_view(),
            f == icon_resolver(man@),
            forall|j: int| i <= j < v@.len() ==> v.deep_view()[j] == s0[j],
            forall|j: int| 0 <= j < i ==> #[trigger] f(s0[j]) is Ok && v.deep_view()[j] == f(
                s0[j],
            )->Ok_0,
        decreases n - i,
    {
        let ghost prev = v.deep_view();
        let el = &mut v[i];
        match resolve_in_place(&mut el.src, man) {
            Ok(()) => {},
            Err(e) => {
                proof {
                    assert(prev[i as int] == s0[i as int]);
                    assert(f(s0[i as int]) == icon_resolve(s0[i as int], man@));
                    assert(f(s0[i as int]) is Err && f(s0[i as int])->Err_0 == e@);
                    lemma_seq_resolve_prefix(s0, f, i as int);
                    assert(seq_resolve(s0, f) == Result::<Seq<IconView>, ErrorView>::Err(e@));
                }
                return Err(e);
            },
        }
        proof {
            assert(v.deep_view() =~= prev.update(i as int, v@[i as int].deep_view()));
            assert(v.deep_view()[i as int] =~= f(s0[i as int])->Ok_0);
        }
        i += 1;
    }
    proof {
        lemma_seq_resolve_prefix(s0, f, n as int);
        assert(v.deep_view() =~= seq_resolve(s0, f)->Ok_0);
    }
    Ok(())
}

/// Rewrite the source of every screenshot in the list, stopping at the
/// first error.
fn resolve_screenshot_list(v: &mut Vec<ScreenshotResource>, man: &AbsoluteUrl) -> (r: Result<
    (),
    ManifestError,
>)
    ensures
        (r is Ok) == (seq_resolve(old(v).deep_view(), screenshot_resolver(man@)) is Ok),
        r is Ok ==> final(v).deep_view() == seq_resolve(
            old(v).deep_view(),
            screenshot_resolver(man@),
        )->Ok_0,
        r matches Err(e) ==> (seq_resolve(old(v).deep_view(), screenshot_resolver(man@)) matches
            Err(ev) && e@ == ev),
{
    let ghost s0 = v.deep_view();
    let ghost f = screenshot_resolver(man@);
    let n = v.len();
    let mut i: usize = 0;
    while i < n
        invariant
            i <= n,
            n == v@.len(),
            v@.len() == s0.len(),
            s0 == old(v).deep_view(),
            f == screenshot_resolver(man@),
            forall|j: int| i <= j < v@.len() ==> v.deep_view()[j] == s0[j],
            forall|j: int| 0 <= j < i ==> #[trigger] f(s0[j]) is Ok && v.deep_view()[j] == f(
                s0[j],
            )->Ok_0,
        decreases n - i,
    {
        let ghost prev = v.deep_view();
        let el = &mut v[i];
        match resolve_in_place(&mut el.src, man) {
            Ok(()) => {},
            Err(e) => {
                proof {
                    assert(prev[i as int] == s0[i as int]);
                    assert(f(s0[i as int]) == screenshot_resolve(s0[i as int], man@));
                    assert(f(s0[i as int]) is Err && f(s0[i as int])->Err_0 == e@);
                    lemma_seq_resolve_prefix(s0, f, i as int);
                    assert(seq_resolve(s0, f) == Result::<Seq<ScreenshotView>, ErrorView>::Err(
                        e@,
                    ));
                }
                return Err(e);
            },
        }
        proof {
            assert(v.deep_view() =~= prev.update(i as int, v@[i as int].deep_view()));
            assert(v.deep_view()[i as int] =~= f(s0[i as int])->Ok_0);
        }
        i += 1;
    }
    proof {
        lemma_seq_resolve_prefix(s0, f, n as int);
        assert(v.deep_view() =~= seq_resolve(s0, f)->Ok_0);
    }
    Ok(())
}

/// Rewrite the URL of every protocol handler in the list, stopping at
/// the first error.
fn resolve_handler_list(v: &mut Vec<ProtocolHandlerResource>, man: &AbsoluteUrl) -> (r: Result<
    (),
    ManifestError,
>)
    ensures
        (r is Ok) == (seq_resolve(old(v).deep_view(), handler_resolver(man@)) is Ok),
        r is Ok ==> final(v).deep_view() == seq_resolve(
            old(v).deep_view(),
            handler_resolver(man@),
        )->Ok_0,
        r matches Err(e) ==> (seq_resolve(old(v).deep_view(), handler_resolver(man@)) matches Err(
            ev,
        ) && e@ == ev),
{
    let ghost s0 = v.deep_view();
    let ghost f = handler_resolver(man@);
    let n = v.len();
    let mut i: usize = 0;
    while i < n
        invariant
            i <= n,
            n == v@.len(),
            v@.len() == s0.len(),
            s0 == old(v).deep_view(),
            f == handler_resolver(man@),
            forall|j: int| i <= j < v@.len() ==> v.deep_view()[j] == s0[j],
            forall|j: int| 0 <= j < i ==> #[trigger] f(s0[j]) is Ok && v.deep_view()[j] == f(
                s0[j],
            )->Ok_0,
        decreases n - i,
    {
        let ghost prev = v.deep_view();
        let el = &mut v[i];
        match resolve_in_place(&mut el.url, man) {
            Ok(()) => {},
            Err(e) => {
                proof {
                    assert(prev[i as int] == s0[i as int]);
                    assert(f(s0[i as int]) == handler_resolve(s0[i as int], man@));
                    assert(f(s0[i as int]) is Err && f(s0[i as int])->Err_0 == e@);
                    lemma_seq_resolve_prefix(s0, f, i as int);
                    assert(seq_resolve(s0, f) == Result::<Seq<ProtocolHandlerView>, ErrorView>::Err(
                        e@,
                    ));
                }
                return Err(e);
            },
        }
        proof {
            assert(v.deep_view() =~= prev.update(i as int, v@[i as int].deep_view()));
            assert(v.deep_view()[i as int] =~= f(s0[i as int])->Ok_0);
        }
        i += 1;
    }
    proof {
        lemma_seq_resolve_prefix(s0, f, n as int);
        assert(v.deep_view() =~= seq_resolve(s0, f)->Ok_0);
    }
    Ok(())
}

/// Rewrite the optional URL of every external application in the list,
/// stopping at the first error.
fn resolve_app_list(v: &mut Vec<ExternalApplicationResource>, man: &AbsoluteUrl) -> (r: Result<
    (),
    ManifestError,
>)
    ensures
        (r is Ok) == (seq_resolve(old(v).deep_view(), app_resolver(man@)) is Ok),
        r is Ok ==> final(v).deep_view() == seq_resolve(old(v).deep_view(), app_resolver(man@))
            ->Ok_0,
        r matches Err(e) ==> (seq_resolve(old(v).deep_view(), app_resolver(man@)) matches Err(ev)
            && e@ == ev),
{
    let ghost s0 = v.deep_view();
    let ghost f = app_resolver(man@);
    let n = v.len();
    let mut i: usize = 0;
    while i < n
        invariant
            i <= n,
            n == v@.len(),
            v@.len() == s0.len(),
            s0 == old(v).deep_view(),
            f == app_resolver(man@),
            forall|j: int| i <= j < v@.len() ==> v.deep_view()[j] == s0[j],
            forall|j: int| 0 <= j < i ==> #[trigger] f(s0[j]) is Ok && v.deep_view()[j] == f(
                s0[j],
            )->Ok_0,
        decreases n - i,
    {
        let ghost prev = v.deep_view();
        let el = &mut v[i];
        match &mut el.url {
            None => {},
            Some(u) => match resolve_in_place(u, man) {
                Ok(()) => {},
                Err(e) => {
                    proof {
                        assert(prev[i as int] == s0[i as int]);
                        assert(f(s0[i as int]) == app_resolve(s0[i as int], man@));
                        assert(f(s0[i as int]) is Err && f(s0[i as int])->Err_0 == e@);
                        lemma_seq_resolve_prefix(s0, f, i as int);
                        assert(seq_resolve(s0, f) == Result::<
                            Seq<ExternalApplicationView>,
                            ErrorView,
                        >::Err(e@));
                    }
                    return Err(e);
                },
            },
        }
        proof {
            assert(v.deep_view() =~= prev.update(i as int, v@[i as int].deep_view()));
            assert(v.deep_view()[i as int] =~= f(s0[i as int])->Ok_0);
        }
        i += 1;
    }
    proof {
        lemma_seq_resolve_prefix(s0, f, n as int);
        assert(v.deep_view() =~= seq_resolve(s0, f)->Ok_0);
    }
    Ok(())
}

/// Rewrite the URL of every shortcut and the sources of its icons,
/// stopping at the first error.
fn resolve_shortcut_list(v: &mut Vec<ShortcutResource>, man: &AbsoluteUrl) -> (r: Result<
    (),
    ManifestError,
>)
    ensures
        (r is Ok) == (seq_resolve(old(v).deep_view(), shortcut_resolver(man@)) is Ok),
        r is Ok ==> final(v).deep_view() == seq_resolve(
            old(v).deep_view(),
            shortcut_resolver(man@),
        )->Ok_0,
        r matches Err(e) ==> (seq_resolve(old(v).deep_view(), shortcut_resolver(man@)) matches Err(
            ev,
        ) && e@ == ev),
{
    let ghost s0 = v.deep_view();
    let ghost f = shortcut_resolver(man@);
    let n = v.len();
    let mut i: usize = 0;
    while i < n
        invariant
            i <= n,
            n == v@.len(),
            v@.len() == s0.len(),
            s0 == old(v).deep_view(),
            f == shortcut_resolver(man@),
            forall|j: int| i <= j < v@.len() ==> v.deep_view()[j] == s0[j],
            forall|j: int| 0 <= j < i ==> #[trigger] f(s0[j]) is Ok && v.deep_view()[j] == f(
                s0[j],
            )->Ok_0,
        decreases n - i,
    {
        let ghost prev = v.deep_view();
        let el = &mut v[i];
        match resolve_in_place(&mut el.url, man) {
            Ok(()) => {},
            Err(e) => {
                proof {
                    assert(prev[i as int] == s0[i as int]);
                    assert(f(s0[i as int]) == shortcut_resolve(s0[i as int], man@));
                    assert(f(s0[i as int]) is Err && f(s0[i as int])->Err_0 == e@);
                    lemma_seq_resolve_prefix(s0, f, i as int);
                    assert(seq_resolve(s0, f) == Result::<Seq<ShortcutView>, ErrorView>::Err(e@));
                }
                return Err(e);
            },
        }
        match resolve_icon_list(&mut el.icons, man) {
            Ok(()) => {},
            Err(e) => {
                proof {
                    assert(prev[i as int] == s0[i as int]);
                    assert(f(s0[i as int]) == shortcut_resolve(s0[i as int], man@));
                    assert(f(s0[i as int]) is Err && f(s0[i as int])->Err_0 == e@);
                    lemma_seq_resolve_prefix(s0, f, i as int);
                    assert(seq_resolve(s0, f) == Result::<Seq<ShortcutView>, ErrorView>::Err(e@));
                }
                return Err(e);
            },
        }
        proof {
            assert(v.deep_view() =~= prev.update(i as int, v@[i as int].deep_view()));
            assert(v.deep_view()[i as int] =~= f(s0[i as int])->Ok_0);
        }
        i += 1;
    }
    proof {
        lemma_seq_resolve_prefix(s0, f, n as int);
        assert(v.deep_view() =~= seq_resolve(s0, f)->Ok_0);
    }
    Ok(())
}

impl WebAppManifest {
    /// Process the manifest: resolve every URL field against the right
    /// base and validate origin and scope.
    ///
    /// Relative references resolve against the manifest URL.  An
    /// unknown start URL becomes the document URL; an unknown scope
    /// becomes the directory of the resolved start URL; an unknown URL
    /// anywhere else is rejected.  The resolved start URL must share
    /// the document URL's origin and lie within the scope, and every
    /// protocol handler URL, shortcut URL and the share-target action
    /// must lie within the scope; icons and screenshots are exempt.
    ///
    /// On success every URL field of the document holds an absolute
    /// URL.  On error the document is left partially rewritten and
    /// should be discarded.
    #[verifier::loop_isolation(false)]
    #[verifier::rlimit(100)]
    pub fn process(&mut self, document_url: &AbsoluteUrl, manifest_url: &AbsoluteUrl) -> (r:
        Result<(), ManifestError>)
        ensures
            (r is Ok) == (process_spec(old(self).deep_view(), document_url@, manifest_url@)
                is Ok),
            r is Ok ==> final(self).deep_view() == process_spec(
                old(self).deep_view(),
                document_url@,
                manifest_url@,
            )->Ok_0,
            r matches Err(e) ==> (process_spec(old(self).deep_view(), document_url@, manifest_url@)
                matches Err(ev) && e@ == ev),
    {
        let ghost m0 = self.deep_view();
        let ghost docv = document_url@;
        let ghost manv = manifest_url@;

        // Start URL: a relative reference joins against the manifest
        // URL; an unknown start URL is the document URL verbatim.
        let new_start: Option<AbsoluteUrl> = match &self.start_url {
            Url::Relative(s) => match manifest_url.join(s.as_str()) {
                Ok(a) => Some(a),
                Err(e) => {
                    return Err(e);
                },
            },
            Url::Unknown => Some(document_url.duplicate()),
            Url::Absolute(_) => None,
        };
        if let Some(a) = new_start {
            self.start_url = Url::Absolute(a);
        }
        let ghost startr = start_resolve(m0.start_url, docv, manv);
        proof {
            assert(startr is Ok);
            assert(self.start_url@ == UrlView::Absolute(startr->Ok_0));
        }

        // Scope: a relative reference joins against the manifest URL;
        // an unknown scope is the directory of the resolved start URL.
        let new_scope: Option<AbsoluteUrl> = match &self.scope {
            Url::Relative(s) => match manifest_url.join(s.as_str()) {
                Ok(a) => Some(a),
                Err(e) => {
                    return Err(e);
                },
            },
            Url::Unknown => {
                let start_ref = match &self.start_url {
                    Url::Absolute(a) => a,
                    _ => vstd::pervasive::unreached(),
                };
                match start_ref.join(".") {
                    Ok(a) => Some(a),
                    Err(e) => {
                        return Err(e);
                    },
                }
            },
            Url::Absolute(_) => None,
        };
        if let Some(a) = new_scope {
            self.scope = Url::Absolute(a);
        }
        let ghost scoper = scope_resolve(m0.scope, startr->Ok_0, manv);
        proof {
            assert(scoper is Ok);
            assert(self.scope@ == UrlView::Absolute(scoper->Ok_0));
        }

        // URL fields of the resource collections, in document order.
        let ghost appsr = seq_resolve(m0.related_applications, app_resolver(manv));
        match resolve_app_list(&mut self.related_applications, manifest_url) {
            Ok(()) => {},
            Err(e) => {
                return Err(e);
            },
        }
        let ghost handlersr = seq_resolve(m0.protocol_handlers, handler_resolver(manv));
        match resolve_handler_list(&mut self.protocol_handlers, manifest_url) {
            Ok(()) => {},
            Err(e) => {
                return Err(e);
            },
        }
        let ghost shortcutsr = seq_resolve(m0.shortcuts, shortcut_resolver(manv));
        match resolve_shortcut_list(&mut self.shortcuts, manifest_url) {
            Ok(()) => {},
            Err(e) => {
                return Err(e);
            },
        }
        let ghost sharer = share_opt_resolve(m0.share_target, manv);
        match &mut self.share_target {
            None => {},
            Some(st) => match resolve_in_place(&mut st.action, manifest_url) {
                Ok(()) => {},
                Err(e) => {
                    return Err(e);
                },
            },
        }
        proof {
            assert(sharer is Ok);
            assert(self.share_target.deep_view() == sharer->Ok_0);
        }
        let ghost iconsr = seq_resolve(m0.icons, icon_resolver(manv));
        match resolve_icon_list(&mut self.icons, manifest_url) {
            Ok(()) => {},
            Err(e) => {
                return Err(e);
            },
        }
        let ghost screenshotsr = seq_resolve(m0.screenshots, screenshot_resolver(manv));
        match resolve_screenshot_list(&mut self.screenshots, manifest_url) {
            Ok(()) => {},
            Err(e) => {
                return Err(e);
            },
        }

        let ghost mres = ManifestView {
            start_url: UrlView::Absolute(startr->Ok_0),
            scope: UrlView::Absolute(scoper->Ok_0),
            related_applications: appsr->Ok_0,
            protocol_handlers: handlersr->Ok_0,
            shortcuts: shortcutsr->Ok_0,
            share_target: sharer->Ok_0,
            icons: iconsr->Ok_0,
            screenshots: screenshotsr->Ok_0,
            ..m0
        };
        proof {
            assert(self.deep_view() =~= mres);
        }

        // Validation: the start URL must share the document URL's
        // origin and lie within the scope.
        let start_ref = match &self.start_url {
            Url::Absolute(a) => a,
            _ => vstd::pervasive::unreached(),
        };
        let scope_ref = match &self.scope {
            Url::Absolute(a) => a,
            _ => vstd::pervasive::unreached(),
        };
        let ghost startv = startr->Ok_0;
        let ghost scopev = scoper->Ok_0;
        if !start_ref.same_origin(document_url) {
            return Err(
                ManifestError::NotSameOrigin {
                    url1: start_ref.duplicate(),
                    url2: document_url.duplicate(),
                },
            );
        }
        if !start_ref.is_within_scope(scope_ref) {
            return Err(
                ManifestError::NotWithinScope {
                    url: start_ref.duplicate(),
                    scope: scope_ref.duplicate(),
                },
            );
        }

        // Every protocol handler URL must lie within the scope.
        proof {
            lemma_seq_resolve_ok(m0.protocol_handlers, handler_resolver(manv));
        }
        let hn = self.protocol_handlers.len();
        let mut i: usize = 0;
        while i < hn
            invariant
                i <= hn,
                hn == self.protocol_handlers@.len(),
                forall|j: int| 0 <= j < self.protocol_handlers@.len()
                    ==> #[trigger] self.protocol_handlers.deep_view()[j].url is Absolute,
                forall|j: int| 0 <= j < i ==> within_scope(
                    abs_of(#[trigger] self.protocol_handlers.deep_view()[j].url),
                    scopev,
                ),
                self.deep_view() == mres,
                scope_ref@ == scopev,
            decreases hn - i,
        {
            proof {
                assert(self.protocol_handlers.deep_view()[i as int]
                    == self.protocol_handlers@[i as int].deep_view());
            }
            let h = &self.protocol_handlers[i];
            let hu = match &h.url {
                Url::Absolute(a) => a,
                _ => vstd::pervasive::unreached(),
            };
            if !hu.is_within_scope(scope_ref) {
                proof {
                    let hdv = self.protocol_handlers.deep_view();
                    assert(hdv[i as int] == self.protocol_handlers@[i as int].deep_view());
                    assert(hdv[i as int].url == UrlView::Absolute(hu@));
                    lemma_first_out_of_scope_prefix(hdv, handler_url_of(), scopev, i as int);
                }
                return Err(
                    ManifestError::NotWithinScope {
                        url: hu.duplicate(),
                        scope: scope_ref.duplicate(),
                    },
                );
            }
            i += 1;
        }
        proof {
            lemma_first_out_of_scope_prefix(
                self.protocol_handlers.deep_view(),
                handler_url_of(),
                scopev,
                hn as int,
            );
        }

        // Every shortcut URL must lie within the scope.
        proof {
            lemma_seq_resolve_ok(m0.shortcuts, shortcut_resolver(manv));
        }
        let sn = self.shortcuts.len();
        let mut k: usize = 0;
        while k < sn
            invariant
                k <= sn,
                sn == self.shortcuts@.len(),
                forall|j: int| 0 <= j < self.shortcuts@.len()
                    ==> #[trigger] self.shortcuts.deep_view()[j].url is Absolute,
                forall|j: int| 0 <= j < k ==> within_scope(
                    abs_of(#[trigger] self.shortcuts.deep_view()[j].url),
                    scopev,
                ),
                self.deep_view() == mres,
                scope_ref@ == scopev,
            decreases sn - k,
        {
            proof {
                assert(self.shortcuts.deep_view()[k as int]
                    == self.shortcuts@[k as int].deep_view());
            }
            let sh = &self.shortcuts[k];
            let su = match &sh.url {
                Url::Absolute(a) => a,
                _ => vstd::pervasive::unreached(),
            };
            if !su.is_within_scope(scope_ref) {
                proof {
                    let sdv = self.shortcuts.deep_view();
                    assert(sdv[k as int] == self.shortcuts@[k as int].deep_view());
                    assert(sdv[k as int].url == UrlView::Absolute(su@));
                    lemma_first_out_of_scope_prefix(sdv, shortcut_url_of(), scopev, k as int);
                }
                return Err(
                    ManifestError::NotWithinScope {
                        url: su.duplicate(),
                        scope: scope_ref.duplicate(),
                    },
                );
            }
            k += 1;
        }
        proof {
            lemma_first_out_of_scope_prefix(
                self.shortcuts.deep_view(),
                shortcut_url_of(),
                scopev,
                sn as int,
            );
        }

        // The share-target action must lie within the scope.
        match &self.share_target {
            None => {},
            Some(st) => {
                let au = match &st.action {
                    Url::Absolute(a) => a,
                    _ => vstd::pervasive::unreached(),
                };
                if !au.is_within_scope(scope_ref) {
                    return Err(
                        ManifestError::NotWithinScope {
                            url: au.duplicate(),
                            scope: scope_ref.duplicate(),
                        },
                    );
                }
            },
        }

        proof {
            assert(validate(startv, scopev, handlersr->Ok_0, shortcutsr->Ok_0, sharer->Ok_0, docv)
                is None);
            assert(self.deep_view() =~= process_spec(m0, docv, manv)->Ok_0);
        }
        Ok(())
    }
}

} // verus!
