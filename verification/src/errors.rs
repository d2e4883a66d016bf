//! Errors reported while processing a manifest.

use vstd::prelude::*;

verus! {

use crate::types::{AbsUrlView, AbsoluteUrl, Url, UrlView};

/// The model of a manifest error.  The payload of a failed URL parse is
/// not modeled; every other payload is carried as the model of the URLs
/// involved.
pub ghost enum ErrorView {
    /// An underlying join or parse of a reference string failed.
    UrlParsing,
    /// An unknown URL appeared in a field where it has no meaning.
    InvalidUnknownUrl,
    /// Two URLs that must share an origin do not.
    NotSameOrigin { url1: AbsUrlView, url2: AbsUrlView },
    /// A URL falls outside the scope.
    NotWithinScope { url: AbsUrlView, scope: AbsUrlView },
    /// A URL that is not absolute was asked for its absolute form.
    NotAbsolute { url: UrlView },
    /// The unknown URL was asked for its text form.
    NotStringifyable { url: UrlView },
}

/// An error that can occur while processing a manifest.
#[derive(Debug, PartialEq, Eq, Clone)]
pub enum ManifestError {
    /// The URL parser encountered an error.
    UrlParsing {
        /// The underlying parse error.
        source: url::ParseError,
    },
    /// An unknown URL was provided in a context where only start-URL or
    /// scope semantics would give it a meaning.
    InvalidUnknownUrl,
    /// Two URLs are not in the same origin.
    NotSameOrigin {
        /// The first of the two URLs compared.
        url1: AbsoluteUrl,
        /// The second of the two URLs compared.
        url2: AbsoluteUrl,
    },
    /// A URL is not within the scope.
    NotWithinScope {
        /// The URL that falls outside the scope.
        url: AbsoluteUrl,
        /// The scope it was checked against.
        scope: AbsoluteUrl,
    },
    /// A URL cannot be converted to an absolute URL.
    NotAbsolute {
        /// The URL that is not absolute.
        url: Url,
    },
    /// A URL cannot be converted to text.
    NotStringifyable {
        /// The URL that has no text form.
        url: Url,
    },
}

impl View for ManifestError {
    type V = ErrorView;

    open spec fn view(&self) -> ErrorView {
        match self {
            ManifestError::UrlParsing { source } => ErrorView::UrlParsing,
            ManifestError::InvalidUnknownUrl => ErrorView::InvalidUnknownUrl,
            ManifestError::NotSameOrigin { url1, url2 } => ErrorView::NotSameOrigin {
                url1: url1@,
                url2: url2@,
            },
            ManifestError::NotWithinScope { url, scope } => ErrorView::NotWithinScope {
                url: url@,
                scope: scope@,
            },
            ManifestError::NotAbsolute { url } => ErrorView::NotAbsolute { url: url@ },
            ManifestError::NotStringifyable { url } => ErrorView::NotStringifyable { url: url@ },
        }
    }
}

impl DeepView for ManifestError {
    type V = ErrorView;

    open spec fn deep_view(&self) -> ErrorView {
        self.view()
    }
}

impl ManifestError {
    /// A short description of the error, for reporting.
    pub fn describe(&self) -> (r: &'static str)
        ensures
            r@.len() > 0,
    {
        let r = match self {
            ManifestError::UrlParsing { .. } => "error while parsing the URL",
            ManifestError::InvalidUnknownUrl => "provided unknown URL in invalid context",
            ManifestError::NotSameOrigin { .. } => "provided URLs are not in the same origin",
            ManifestError::NotWithinScope { .. } => "provided URL is not within the scope",
            ManifestError::NotAbsolute { .. } => (
                "provided URL cannot be converted to an absolute URL"
            ),
            ManifestError::NotStringifyable { .. } => (
                "provided URL cannot be converted to a string"
            ),
        };
        proof {
            reveal_strlit("error while parsing the URL");
            reveal_strlit("provided unknown URL in invalid context");
            reveal_strlit("provided URLs are not in the same origin");
            reveal_strlit("provided URL is not within the scope");
            reveal_strlit("provided URL cannot be converted to an absolute URL");
            reveal_strlit("provided URL cannot be converted to a string");
        }
        r
    }
}

} // verus!
