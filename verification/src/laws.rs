//! Laws of the resolution and validation engine.
//!
//! Each proof function here states a property of [`process_spec`], the
//! model that [`crate::WebAppManifest::process`] is proved to follow
//! exactly.

use vstd::prelude::*;

verus! {

use crate::errors::ErrorView;
use crate::manifest::{
    abs_of, app_resolve, app_resolver, first_out_of_scope, handler_resolve, handler_resolver,
    handler_url_of, icon_resolve, icon_resolver, lemma_seq_resolve_ok, process_spec, rel_of,
    scope_resolve, screenshot_resolve, screenshot_resolver, seq_resolve, share_opt_resolve,
    shortcut_resolve, shortcut_resolver, shortcut_url_of, start_resolve, ManifestView,
};
use crate::types::{abs_url_join, origin_eq, within_scope, AbsUrlView, UrlView};

/// A sequence whose every record resolves to itself resolves to
/// itself.
proof fn lemma_seq_resolve_identity<T>(s: Seq<T>, f: spec_fn(T) -> Result<T, ErrorView>)
    requires
        forall|j: int| 0 <= j < s.len() ==> #[trigger] f(s[j]) == Result::<T, ErrorView>::Ok(s[j]),
    ensures
        seq_resolve(s, f) == Result::<Seq<T>, ErrorView>::Ok(s),
    decreases s.len(),
{
    if s.len() == 0 {
        assert(s =~= Seq::<T>::empty());
    } else {
        assert(forall|j: int| 0 <= j < s.len() - 1 ==> s.drop_first()[j] == s[j + 1]);
        lemma_seq_resolve_identity(s.drop_first(), f);
        assert(seq![s[0]] + s.drop_first() =~= s);
    }
}

/// Law: processing an already-successfully-processed document again
/// with the same context URLs is a no-op — every URL field is already
/// absolute and passes through unchanged, and every check passes
/// again.
pub proof fn lemma_process_idempotent(m: ManifestView, doc: AbsUrlView, man: AbsUrlView)
    requires
        process_spec(m, doc, man) is Ok,
    ensures
        process_spec(process_spec(m, doc, man)->Ok_0, doc, man) == process_spec(m, doc, man),
{
    let m2 = process_spec(m, doc, man)->Ok_0;

    lemma_seq_resolve_ok(m.related_applications, app_resolver(man));
    let apps = seq_resolve(m.related_applications, app_resolver(man))->Ok_0;
    assert forall|j: int| 0 <= j < apps.len() implies #[trigger] app_resolver(man)(apps[j])
        == Result::<_, ErrorView>::Ok(apps[j]) by {
        let orig = m.related_applications[j];
        assert(apps[j] == app_resolve(orig, man)->Ok_0);
    }
    lemma_seq_resolve_identity(apps, app_resolver(man));

    lemma_seq_resolve_ok(m.protocol_handlers, handler_resolver(man));
    let handlers = seq_resolve(m.protocol_handlers, handler_resolver(man))->Ok_0;
    assert forall|j: int| 0 <= j < handlers.len() implies #[trigger] handler_resolver(man)(
        handlers[j],
    ) == Result::<_, ErrorView>::Ok(handlers[j]) by {
        let orig = m.protocol_handlers[j];
        assert(handlers[j] == handler_resolve(orig, man)->Ok_0);
    }
    lemma_seq_resolve_identity(handlers, handler_resolver(man));

    lemma_seq_resolve_ok(m.shortcuts, shortcut_resolver(man));
    let shortcuts = seq_resolve(m.shortcuts, shortcut_resolver(man))->Ok_0;
    assert forall|j: int| 0 <= j < shortcuts.len() implies #[trigger] shortcut_resolver(man)(
        shortcuts[j],
    ) == Result::<_, ErrorView>::Ok(shortcuts[j]) by {
        let orig = m.shortcuts[j];
        assert(shortcuts[j] == shortcut_resolve(orig, man)->Ok_0);
        lemma_seq_resolve_ok(orig.icons, icon_resolver(man));
        let icons = seq_resolve(orig.icons, icon_resolver(man))->Ok_0;
        assert forall|l: int| 0 <= l < icons.len() implies #[trigger] icon_resolver(man)(icons[l])
            == Result::<_, ErrorView>::Ok(icons[l]) by {
            assert(icons[l] == icon_resolve(orig.icons[l], man)->Ok_0);
        }
        lemma_seq_resolve_identity(icons, icon_resolver(man));
    }
    lemma_seq_resolve_identity(shortcuts, shortcut_resolver(man));

    lemma_seq_resolve_ok(m.icons, icon_resolver(man));
    let icons = seq_resolve(m.icons, icon_resolver(man))->Ok_0;
    assert forall|j: int| 0 <= j < icons.len() implies #[trigger] icon_resolver(man)(icons[j])
        == Result::<_, ErrorView>::Ok(icons[j]) by {
        assert(icons[j] == icon_resolve(m.icons[j], man)->Ok_0);
    }
    lemma_seq_resolve_identity(icons, icon_resolver(man));

    lemma_seq_resolve_ok(m.screenshots, screenshot_resolver(man));
    let screenshots = seq_resolve(m.screenshots, screenshot_resolver(man))->Ok_0;
    assert forall|j: int| 0 <= j < screenshots.len() implies #[trigger] screenshot_resolver(man)(
        screenshots[j],
    ) == Result::<_, ErrorView>::Ok(screenshots[j]) by {
        assert(screenshots[j] == screenshot_resolve(m.screenshots[j], man)->Ok_0);
    }
    lemma_seq_resolve_identity(screenshots, screenshot_resolver(man));

    assert(process_spec(m2, doc, man) == Result::<ManifestView, ErrorView>::Ok(m2)) by {
        assert(m2 =~= process_spec(m2, doc, man)->Ok_0);
    }
}

/// Law: a document whose start URL is unknown resolves its start URL
/// to the document URL verbatim.
pub proof fn lemma_unknown_start_resolves_to_document_url(
    m: ManifestView,
    doc: AbsUrlView,
    man: AbsUrlView,
)
    requires
        m.start_url is Unknown,
        process_spec(m, doc, man) is Ok,
    ensures
        (process_spec(m, doc, man)->Ok_0).start_url == UrlView::Absolute(doc),
{
}

/// Law: a document whose scope is unknown resolves its scope to the
/// directory of the resolved start URL — the result of joining `.`
/// against it.
pub proof fn lemma_unknown_scope_defaults_to_start_directory(
    m: ManifestView,
    doc: AbsUrlView,
    man: AbsUrlView,
)
    requires
        m.scope is Unknown,
        process_spec(m, doc, man) is Ok,
    ensures
        (process_spec(m, doc, man)->Ok_0).scope is Absolute,
        Some(abs_of((process_spec(m, doc, man)->Ok_0).scope)) == abs_url_join(
            abs_of((process_spec(m, doc, man)->Ok_0).start_url),
            "."@,
        ),
{
}

/// Law: a relative icon source resolves against the manifest URL —
/// never against the document URL.
pub proof fn lemma_relative_icon_resolves_against_manifest(
    m: ManifestView,
    doc: AbsUrlView,
    man: AbsUrlView,
    i: int,
)
    requires
        process_spec(m, doc, man) is Ok,
        0 <= i < m.icons.len(),
        m.icons[i].src is Relative,
    ensures
        (process_spec(m, doc, man)->Ok_0).icons[i].src is Absolute,
        Some(abs_of((process_spec(m, doc, man)->Ok_0).icons[i].src)) == abs_url_join(
            man,
            rel_of(m.icons[i].src),
        ),
{
    lemma_seq_resolve_ok(m.icons, icon_resolver(man));
}

/// Law: a relative screenshot source resolves against the manifest
/// URL — never against the document URL.
pub proof fn lemma_relative_screenshot_resolves_against_manifest(
    m: ManifestView,
    doc: AbsUrlView,
    man: AbsUrlView,
    i: int,
)
    requires
        process_spec(m, doc, man) is Ok,
        0 <= i < m.screenshots.len(),
        m.screenshots[i].src is Relative,
    ensures
        (process_spec(m, doc, man)->Ok_0).screenshots[i].src is Absolute,
        Some(abs_of((process_spec(m, doc, man)->Ok_0).screenshots[i].src)) == abs_url_join(
            man,
            rel_of(m.screenshots[i].src),
        ),
{
    lemma_seq_resolve_ok(m.screenshots, screenshot_resolver(man));
}

/// Law: a relative protocol handler URL resolves against the manifest
/// URL — never against the document URL.
pub proof fn lemma_relative_handler_resolves_against_manifest(
    m: ManifestView,
    doc: AbsUrlView,
    man: AbsUrlView,
    i: int,
)
    requires
        process_spec(m, doc, man) is Ok,
        0 <= i < m.protocol_handlers.len(),
        m.protocol_handlers[i].url is Relative,
    ensures
        (process_spec(m, doc, man)->Ok_0).protocol_handlers[i].url is Absolute,
        Some(abs_of((process_spec(m, doc, man)->Ok_0).protocol_handlers[i].url)) == abs_url_join(
            man,
            rel_of(m.protocol_handlers[i].url),
        ),
{
    lemma_seq_resolve_ok(m.protocol_handlers, handler_resolver(man));
}

/// Law: a relative shortcut URL resolves against the manifest URL —
/// never against the document URL.
pub proof fn lemma_relative_shortcut_resolves_against_manifest(
    m: ManifestView,
    doc: AbsUrlView,
    man: AbsUrlView,
    i: int,
)
    requires
        process_spec(m, doc, man) is Ok,
        0 <= i < m.shortcuts.len(),
        m.shortcuts[i].url is Relative,
    ensures
        (process_spec(m, doc, man)->Ok_0).shortcuts[i].url is Absolute,
        Some(abs_of((process_spec(m, doc, man)->Ok_0).shortcuts[i].url)) == abs_url_join(
            man,
            rel_of(m.shortcuts[i].url),
        ),
{
    lemma_seq_resolve_ok(m.shortcuts, shortcut_resolver(man));
}

/// Law: a relative external application URL resolves against the
/// manifest URL — never against the document URL.
pub proof fn lemma_relative_application_resolves_against_manifest(
    m: ManifestView,
    doc: AbsUrlView,
    man: AbsUrlView,
    i: int,
)
    requires
        process_spec(m, doc, man) is Ok,
        0 <= i < m.related_applications.len(),
        m.related_applications[i].url matches Some(u) && u is Relative,
    ensures
        (process_spec(m, doc, man)->Ok_0).related_applications[i].url matches Some(u) && u
            is Absolute && Some(abs_of(u)) == abs_url_join(
            man,
            rel_of(m.related_applications[i].url->0),
        ),
{
    lemma_seq_resolve_ok(m.related_applications, app_resolver(man));
}

/// Law: a relative share-target action resolves against the manifest
/// URL — never against the document URL.
pub proof fn lemma_relative_share_target_resolves_against_manifest(
    m: ManifestView,
    doc: AbsUrlView,
    man: AbsUrlView,
)
    requires
        process_spec(m, doc, man) is Ok,
        m.share_target matches Some(st) && st.action is Relative,
    ensures
        (process_spec(m, doc, man)->Ok_0).share_target matches Some(st) && st.action is Absolute
            && Some(abs_of(st.action)) == abs_url_join(
            man,
            rel_of(m.share_target->0.action),
        ),
{
}

/// Law: when every URL field resolves but the resolved start URL does
/// not lie within the resolved scope — its origin differs from the
/// scope's, or its path is not prefixed by the scope's path —
/// processing reports `NotWithinScope` naming exactly that URL and
/// that scope.
pub proof fn lemma_start_out_of_scope_reported(m: ManifestView, doc: AbsUrlView, man: AbsUrlView)
    requires
        start_resolve(m.start_url, doc, man) is Ok,
        scope_resolve(m.scope, start_resolve(m.start_url, doc, man)->Ok_0, man) is Ok,
        seq_resolve(m.related_applications, app_resolver(man)) is Ok,
        seq_resolve(m.protocol_handlers, handler_resolver(man)) is Ok,
        seq_resolve(m.shortcuts, shortcut_resolver(man)) is Ok,
        share_opt_resolve(m.share_target, man) is Ok,
        seq_resolve(m.icons, icon_resolver(man)) is Ok,
        seq_resolve(m.screenshots, screenshot_resolver(man)) is Ok,
        origin_eq(start_resolve(m.start_url, doc, man)->Ok_0, doc),
        !within_scope(
            start_resolve(m.start_url, doc, man)->Ok_0,
            scope_resolve(m.scope, start_resolve(m.start_url, doc, man)->Ok_0, man)->Ok_0,
        ),
    ensures
        process_spec(m, doc, man) == Result::<ManifestView, ErrorView>::Err(
            ErrorView::NotWithinScope {
                url: start_resolve(m.start_url, doc, man)->Ok_0,
                scope: scope_resolve(m.scope, start_resolve(m.start_url, doc, man)->Ok_0, man)
                    ->Ok_0,
            },
        ),
{
}

/// Law: when every URL field resolves, the start URL passes its
/// checks, and a protocol handler is the first scoped resource whose
/// resolved URL does not lie within the resolved scope, processing
/// reports `NotWithinScope` naming exactly that URL and that scope.
pub proof fn lemma_handler_out_of_scope_reported(
    m: ManifestView,
    doc: AbsUrlView,
    man: AbsUrlView,
    i: int,
)
    requires
        start_resolve(m.start_url, doc, man) is Ok,
        scope_resolve(m.scope, start_resolve(m.start_url, doc, man)->Ok_0, man) is Ok,
        seq_resolve(m.related_applications, app_resolver(man)) is Ok,
        seq_resolve(m.protocol_handlers, handler_resolver(man)) is Ok,
        seq_resolve(m.shortcuts, shortcut_resolver(man)) is Ok,
        share_opt_resolve(m.share_target, man) is Ok,
        seq_resolve(m.icons, icon_resolver(man)) is Ok,
        seq_resolve(m.screenshots, screenshot_resolver(man)) is Ok,
        origin_eq(start_resolve(m.start_url, doc, man)->Ok_0, doc),
        within_scope(
            start_resolve(m.start_url, doc, man)->Ok_0,
            scope_resolve(m.scope, start_resolve(m.start_url, doc, man)->Ok_0, man)->Ok_0,
        ),
        0 <= i < m.protocol_handlers.len(),
        forall|j: int| 0 <= j < i ==> within_scope(
            abs_of(
                #[trigger] (seq_resolve(m.protocol_handlers, handler_resolver(man))->Ok_0)[j].url,
            ),
            scope_resolve(m.scope, start_resolve(m.start_url, doc, man)->Ok_0, man)->Ok_0,
        ),
        !within_scope(
            abs_of((seq_resolve(m.protocol_handlers, handler_resolver(man))->Ok_0)[i].url),
            scope_resolve(m.scope, start_resolve(m.start_url, doc, man)->Ok_0, man)->Ok_0,
        ),
    ensures
        process_spec(m, doc, man) == Result::<ManifestView, ErrorView>::Err(
            ErrorView::NotWithinScope {
                url: abs_of((seq_resolve(m.protocol_handlers, handler_resolver(man))->Ok_0)[i].url),
                scope: scope_resolve(m.scope, start_resolve(m.start_url, doc, man)->Ok_0, man)
                    ->Ok_0,
            },
        ),
{
    let scope = scope_resolve(m.scope, start_resolve(m.start_url, doc, man)->Ok_0, man)->Ok_0;
    let handlers = seq_resolve(m.protocol_handlers, handler_resolver(man))->Ok_0;
    lemma_seq_resolve_ok(m.protocol_handlers, handler_resolver(man));
    assert forall|j: int| 0 <= j < i implies (#[trigger] handler_url_of()(handlers[j]) is Absolute
        ==> within_scope(abs_of(handler_url_of()(handlers[j])), scope)) by {
        assert(handlers[j].url is Absolute);
    }
    crate::manifest::lemma_first_out_of_scope_prefix(handlers, handler_url_of(), scope, i);
    assert(handlers[i].url is Absolute);
    assert(first_out_of_scope(handlers, handler_url_of(), scope) == Some(
        abs_of(handlers[i].url),
    ));
}

/// Law: when every URL field resolves, the start URL passes its
/// checks, every protocol handler lies within the scope, and a
/// shortcut is the first shortcut whose resolved URL does not lie
/// within the resolved scope, processing reports `NotWithinScope`
/// naming exactly that URL and that scope.
pub proof fn lemma_shortcut_out_of_scope_reported(
    m: ManifestView,
    doc: AbsUrlView,
    man: AbsUrlView,
    i: int,
)
    requires
        start_resolve(m.start_url, doc, man) is Ok,
        scope_resolve(m.scope, start_resolve(m.start_url, doc, man)->Ok_0, man) is Ok,
        seq_resolve(m.related_applications, app_resolver(man)) is Ok,
        seq_resolve(m.protocol_handlers, handler_resolver(man)) is Ok,
        seq_resolve(m.shortcuts, shortcut_resolver(man)) is Ok,
        share_opt_resolve(m.share_target, man) is Ok,
        seq_resolve(m.icons, icon_resolver(man)) is Ok,
        seq_resolve(m.screenshots, screenshot_resolver(man)) is Ok,
        origin_eq(start_resolve(m.start_url, doc, man)->Ok_0, doc),
        within_scope(
            start_resolve(m.start_url, doc, man)->Ok_0,
            scope_resolve(m.scope, start_resolve(m.start_url, doc, man)->Ok_0, man)->Ok_0,
        ),
        forall|j: int| 0 <= j < m.protocol_handlers.len() ==> within_scope(
            abs_of(
                #[trigger] (seq_resolve(m.protocol_handlers, handler_resolver(man))->Ok_0)[j].url,
            ),
            scope_resolve(m.scope, start_resolve(m.start_url, doc, man)->Ok_0, man)->Ok_0,
        ),
        0 <= i < m.shortcuts.len(),
        forall|j: int| 0 <= j < i ==> within_scope(
            abs_of(#[trigger] (seq_resolve(m.shortcuts, shortcut_resolver(man))->Ok_0)[j].url),
            scope_resolve(m.scope, start_resolve(m.start_url, doc, man)->Ok_0, man)->Ok_0,
        ),
        !within_scope(
            abs_of((seq_resolve(m.shortcuts, shortcut_resolver(man))->Ok_0)[i].url),
            scope_resolve(m.scope, start_resolve(m.start_url, doc, man)->Ok_0, man)->Ok_0,
        ),
    ensures
        process_spec(m, doc, man) == Result::<ManifestView, ErrorView>::Err(
            ErrorView::NotWithinScope {
                url: abs_of((seq_resolve(m.shortcuts, shortcut_resolver(man))->Ok_0)[i].url),
                scope: scope_resolve(m.scope, start_resolve(m.start_url, doc, man)->Ok_0, man)
                    ->Ok_0,
            },
        ),
{
    let scope = scope_resolve(m.scope, start_resolve(m.start_url, doc, man)->Ok_0, man)->Ok_0;
    let handlers = seq_resolve(m.protocol_handlers, handler_resolver(man))->Ok_0;
    lemma_seq_resolve_ok(m.protocol_handlers, handler_resolver(man));
    assert forall|j: int| 0 <= j < handlers.len() implies (#[trigger] handler_url_of()(
        handlers[j],
    ) is Absolute ==> within_scope(abs_of(handler_url_of()(handlers[j])), scope)) by {
        assert(handlers[j].url is Absolute);
    }
    crate::manifest::lemma_first_out_of_scope_prefix(
        handlers,
        handler_url_of(),
        scope,
        handlers.len() as int,
    );
    let shortcuts = seq_resolve(m.shortcuts, shortcut_resolver(man))->Ok_0;
    lemma_seq_resolve_ok(m.shortcuts, shortcut_resolver(man));
    assert forall|j: int| 0 <= j < i implies (#[trigger] shortcut_url_of()(shortcuts[j])
        is Absolute ==> within_scope(abs_of(shortcut_url_of()(shortcuts[j])), scope)) by {
        assert(shortcuts[j].url is Absolute);
    }
    crate::manifest::lemma_first_out_of_scope_prefix(shortcuts, shortcut_url_of(), scope, i);
    assert(shortcuts[i].url is Absolute);
    assert(first_out_of_scope(shortcuts, shortcut_url_of(), scope) == Some(
        abs_of(shortcuts[i].url),
    ));
}

/// Law: when every URL field resolves, the start URL passes its
/// checks, every protocol handler and shortcut lies within the scope,
/// and the resolved share-target action does not, processing reports
/// `NotWithinScope` naming exactly that URL and that scope.
pub proof fn lemma_share_target_out_of_scope_reported(
    m: ManifestView,
    doc: AbsUrlView,
    man: AbsUrlView,
)
    requires
        start_resolve(m.start_url, doc, man) is Ok,
        scope_resolve(m.scope, start_resolve(m.start_url, doc, man)->Ok_0, man) is Ok,
        seq_resolve(m.related_applications, app_resolver(man)) is Ok,
        seq_resolve(m.protocol_handlers, handler_resolver(man)) is Ok,
        seq_resolve(m.shortcuts, shortcut_resolver(man)) is Ok,
        share_opt_resolve(m.share_target, man) is Ok,
        seq_resolve(m.icons, icon_resolver(man)) is Ok,
        seq_resolve(m.screenshots, screenshot_resolver(man)) is Ok,
        origin_eq(start_resolve(m.start_url, doc, man)->Ok_0, doc),
        within_scope(
            start_resolve(m.start_url, doc, man)->Ok_0,
            scope_resolve(m.scope, start_resolve(m.start_url, doc, man)->Ok_0, man)->Ok_0,
        ),
        forall|j: int| 0 <= j < m.protocol_handlers.len() ==> within_scope(
            abs_of(
                #[trigger] (seq_resolve(m.protocol_handlers, handler_resolver(man))->Ok_0)[j].url,
            ),
            scope_resolve(m.scope, start_resolve(m.start_url, doc, man)->Ok_0, man)->Ok_0,
        ),
        forall|j: int| 0 <= j < m.shortcuts.len() ==> within_scope(
            abs_of(#[trigger] (seq_resolve(m.shortcuts, shortcut_resolver(man))->Ok_0)[j].url),
            scope_resolve(m.scope, start_resolve(m.start_url, doc, man)->Ok_0, man)->Ok_0,
        ),
        share_opt_resolve(m.share_target, man)->Ok_0 matches Some(st) && !within_scope(
            abs_of(st.action),
            scope_resolve(m.scope, start_resolve(m.start_url, doc, man)->Ok_0, man)->Ok_0,
        ),
    ensures
        process_spec(m, doc, man) == Result::<ManifestView, ErrorView>::Err(
            ErrorView::NotWithinScope {
                url: abs_of((share_opt_resolve(m.share_target, man)->Ok_0)->0.action),
                scope: scope_resolve(m.scope, start_resolve(m.start_url, doc, man)->Ok_0, man)
                    ->Ok_0,
            },
        ),
{
    let scope = scope_resolve(m.scope, start_resolve(m.start_url, doc, man)->Ok_0, man)->Ok_0;
    let handlers = seq_resolve(m.protocol_handlers, handler_resolver(man))->Ok_0;
    lemma_seq_resolve_ok(m.protocol_handlers, handler_resolver(man));
    assert forall|j: int| 0 <= j < handlers.len() implies (#[trigger] handler_url_of()(
        handlers[j],
    ) is Absolute ==> within_scope(abs_of(handler_url_of()(handlers[j])), scope)) by {
        assert(handlers[j].url is Absolute);
    }
    crate::manifest::lemma_first_out_of_scope_prefix(
        handlers,
        handler_url_of(),
        scope,
        handlers.len() as int,
    );
    let shortcuts = seq_resolve(m.shortcuts, shortcut_resolver(man))->Ok_0;
    lemma_seq_resolve_ok(m.shortcuts, shortcut_resolver(man));
    assert forall|j: int| 0 <= j < shortcuts.len() implies (#[trigger] shortcut_url_of()(
        shortcuts[j],
    ) is Absolute ==> within_scope(abs_of(shortcut_url_of()(shortcuts[j])), scope)) by {
        assert(shortcuts[j].url is Absolute);
    }
    crate::manifest::lemma_first_out_of_scope_prefix(
        shortcuts,
        shortcut_url_of(),
        scope,
        shortcuts.len() as int,
    );
}

/// Law: when every URL field resolves but the resolved start URL's
/// origin differs from the document URL's, processing reports
/// `NotSameOrigin` naming exactly those two URLs.
pub proof fn lemma_origin_mismatch_reported(m: ManifestView, doc: AbsUrlView, man: AbsUrlView)
    requires
        start_resolve(m.start_url, doc, man) is Ok,
        scope_resolve(m.scope, start_resolve(m.start_url, doc, man)->Ok_0, man) is Ok,
        seq_resolve(m.related_applications, app_resolver(man)) is Ok,
        seq_resolve(m.protocol_handlers, handler_resolver(man)) is Ok,
        seq_resolve(m.shortcuts, shortcut_resolver(man)) is Ok,
        share_opt_resolve(m.share_target, man) is Ok,
        seq_resolve(m.icons, icon_resolver(man)) is Ok,
        seq_resolve(m.screenshots, screenshot_resolver(man)) is Ok,
        !origin_eq(start_resolve(m.start_url, doc, man)->Ok_0, doc),
    ensures
        process_spec(m, doc, man) == Result::<ManifestView, ErrorView>::Err(
            ErrorView::NotSameOrigin {
                url1: start_resolve(m.start_url, doc, man)->Ok_0,
                url2: doc,
            },
        ),
{
}

} // verus!
