//! Which URLs may be emitted as deep links, and what a notification click or
//! an incoming deep link leads to.

use vstd::prelude::*;

use crate::click::{ActionModel, ClickAction, NotificationClick};
use crate::text::{ends_with, has_suffix, text_eq};

verus! {

/// The parts of a URL that the rules here read: scheme, host, path, and the
/// decoded name-value pairs of the query.
pub type UrlView = (Seq<char>, Option<Seq<char>>, Seq<char>, Seq<(Seq<char>, Seq<char>)>);

/// What `url::Url::parse` makes of a text, read as the URL's scheme, host,
/// path and query pairs; `None` where the text is no absolute URL.
pub uninterp spec fn parsed_url(text: Seq<char>) -> Option<UrlView>;

/// What `serde_json::from_str::<Vec<String>>` makes of a text: the strings of
/// a JSON array of strings; `None` where the text is not one.
pub uninterp spec fn json_string_list(text: Seq<char>) -> Option<Seq<Seq<char>>>;

/// The characters of each name and value of a list of pairs.
pub open spec fn pairs_view(q: Seq<(String, String)>) -> Seq<(Seq<char>, Seq<char>)> {
    q.map_values(|p: (String, String)| (p.0@, p.1@))
}

/// The parts of a parsed URL that the link and file-name rules read.
pub struct UrlParts {
    /// The scheme, without the `:`, in lower case.
    pub scheme: String,
    /// The host, where the URL has one.
    pub host: Option<String>,
    /// The path, percent-encoded.
    pub path: String,
    /// The name-value pairs of the query, decoded, in order.
    pub query: Vec<(String, String)>,
}

impl View for UrlParts {
    type V = UrlView;

    open spec fn view(&self) -> UrlView {
        (
            self.scheme@,
            match self.host {
                Some(h) => Some(h@),
                None => None,
            },
            self.path@,
            pairs_view(self.query@),
        )
    }
}

/// Relies on `url::Url::parse` for the parsing, read through `Url::scheme`,
/// `Url::host_str`, `Url::path` and `Url::query_pairs` of its result; a
/// failure is handed on as the parse error's text.
#[verifier::external_body]
pub(crate) fn parse_url(text: &str) -> (r: Result<UrlParts, String>)
    ensures
        match r {
            Ok(p) => parsed_url(text@) == Some(p@),
            Err(_) => parsed_url(text@) is None,
        },
{
    match url::Url::parse(text) {
        Ok(u) => Ok(UrlParts {
            scheme: u.scheme().to_string(),
            host: u.host_str().map(|h| h.to_string()),
            path: u.path().to_string(),
            query: u.query_pairs().map(|(k, v)| (k.into_owned(), v.into_owned())).collect(),
        }),
        Err(e) => Err(e.to_string()),
    }
}

/// Relies on `serde_json::from_str` to read a JSON array of strings.
#[verifier::external_body]
fn parse_string_list(text: &str) -> (r: Option<Vec<String>>)
    ensures
        match r {
            Some(v) => json_string_list(text@) == Some(v@.map_values(|s: String| s@)),
            None => json_string_list(text@) is None,
        },
{
    serde_json::from_str::<Vec<String>>(text).ok()
}

/// The application's own custom schemes, production and development.
pub open spec fn is_app_scheme(scheme: Seq<char>) -> bool {
    scheme == "cushion"@ || scheme == "cushion-dev"@
}

/// A parsed URL that a notification may carry as its deep link: one of the
/// app's schemes, or `https` on the app's domain, apex or any subdomain.
pub open spec fn link_allowed(parts: UrlView) -> bool {
    ||| is_app_scheme(parts.0)
    ||| parts.0 == "https"@ && match parts.1 {
        Some(h) => h == "cushion.so"@ || has_suffix(h, ".cushion.so"@),
        None => false,
    }
}

/// A URL text that parses and passes [`link_allowed`].
pub open spec fn valid_notification_url(url: Seq<char>) -> bool {
    match parsed_url(url) {
        Some(p) => link_allowed(p),
        None => false,
    }
}

/// Whether one of the app's custom schemes is `scheme`.
pub fn is_app_scheme_text(scheme: &str) -> (r: bool)
    ensures
        r == is_app_scheme(scheme@),
{
    text_eq(scheme, "cushion") || text_eq(scheme, "cushion-dev")
}

/// Whether a parsed URL may be emitted as a notification's deep link.
pub fn is_allowed_link(parts: &UrlParts) -> (r: bool)
    ensures
        r == link_allowed(parts@),
{
    if is_app_scheme_text(parts.scheme.as_str()) {
        return true;
    }
    if text_eq(parts.scheme.as_str(), "https") {
        match &parts.host {
            Some(h) => {
                return text_eq(h.as_str(), "cushion.so") || ends_with(h.as_str(), ".cushion.so");
            },
            None => {},
        }
    }
    false
}

/// Whether `url` is safe to emit as a notification's deep link.
pub fn is_valid_notification_url(url: &str) -> (r: bool)
    ensures
        r == valid_notification_url(url@),
{
    match parse_url(url) {
        Ok(p) => is_allowed_link(&p),
        Err(_) => false,
    }
}

/// What the default click handler does with a click.
pub enum ClickRoute {
    /// The notification was dismissed: nothing is opened.
    Dismissed,
    /// The app is brought to the front, with no destination.
    Focus,
    /// The URL failed the link rules: it is reported and dropped, and the app
    /// is brought to the front.
    RejectAndFocus(String),
    /// The URL is emitted as a deep link, then the app is brought to the front.
    NavigateAndFocus(String),
}

/// The abstract value of a [`ClickRoute`].
pub enum RouteModel {
    Dismissed,
    Focus,
    RejectAndFocus(Seq<char>),
    NavigateAndFocus(Seq<char>),
}

impl View for ClickRoute {
    type V = RouteModel;

    open spec fn view(&self) -> RouteModel {
        match self {
            ClickRoute::Dismissed => RouteModel::Dismissed,
            ClickRoute::Focus => RouteModel::Focus,
            ClickRoute::RejectAndFocus(u) => RouteModel::RejectAndFocus(u@),
            ClickRoute::NavigateAndFocus(u) => RouteModel::NavigateAndFocus(u@),
        }
    }
}

/// The route of a click of kind `action` whose recorded URL is `url`, given
/// whether that URL passes the link rules.
pub open spec fn route_for(action: ActionModel, url: Option<Seq<char>>, url_allowed: bool) -> RouteModel {
    match action {
        ActionModel::Dismiss => RouteModel::Dismissed,
        _ => match url {
            None => RouteModel::Focus,
            Some(u) => if url_allowed {
                RouteModel::NavigateAndFocus(u)
            } else {
                RouteModel::RejectAndFocus(u)
            },
        },
    }
}

/// Routes `click`, whose URL has been checked against the link rules with
/// outcome `url_allowed`.
pub fn route_checked_click(click: NotificationClick, url_allowed: bool) -> (r: ClickRoute)
    ensures
        r@ == route_for(click@.action, click@.url, url_allowed),
{
    match click.action {
        ClickAction::Dismiss => ClickRoute::Dismissed,
        _ => match click.url {
            None => ClickRoute::Focus,
            Some(u) => if url_allowed {
                ClickRoute::NavigateAndFocus(u)
            } else {
                ClickRoute::RejectAndFocus(u)
            },
        },
    }
}

/// Routes `click` by the default policy: a dismissal opens nothing; a URL is
/// emitted only where it passes the link rules; any other click brings the app
/// to the front.
pub fn route_click(click: NotificationClick) -> (r: ClickRoute)
    ensures
        r@ == route_for(
            click@.action,
            click@.url,
            match click@.url {
                Some(u) => valid_notification_url(u),
                None => false,
            },
        ),
{
    let allowed = match &click.url {
        Some(u) => is_valid_notification_url(u.as_str()),
        None => false,
    };
    route_checked_click(click, allowed)
}

/// What an incoming deep link leads to.
pub enum DeepLinkRoute {
    /// The payload held no URL.
    Ignore,
    /// The URL did not parse; it is reported.
    Unparsable(String),
    /// The URL's scheme is not one of the app's; the scheme is reported.
    RejectedScheme(String),
    /// The URL is emitted and the app is brought to the front.
    Open(String),
}

/// The abstract value of a [`DeepLinkRoute`].
pub enum LinkModel {
    Ignore,
    Unparsable(Seq<char>),
    RejectedScheme(Seq<char>),
    Open(Seq<char>),
}

impl View for DeepLinkRoute {
    type V = LinkModel;

    open spec fn view(&self) -> LinkModel {
        match self {
            DeepLinkRoute::Ignore => LinkModel::Ignore,
            DeepLinkRoute::Unparsable(u) => LinkModel::Unparsable(u@),
            DeepLinkRoute::RejectedScheme(s) => LinkModel::RejectedScheme(s@),
            DeepLinkRoute::Open(u) => LinkModel::Open(u@),
        }
    }
}

/// The route of an incoming deep link `url` that parsed to `parsed`.
pub open spec fn deep_link_for(url: Seq<char>, parsed: Option<UrlView>) -> LinkModel {
    match parsed {
        None => LinkModel::Unparsable(url),
        Some(p) => if is_app_scheme(p.0) {
            LinkModel::Open(url)
        } else {
            LinkModel::RejectedScheme(p.0)
        },
    }
}

/// The route of an incoming deep-link event payload: its first URL, when the
/// payload is a JSON array of strings that holds one.
pub open spec fn deep_link_for_payload(payload: Seq<char>) -> LinkModel {
    match json_string_list(payload) {
        Some(urls) => if urls.len() > 0 {
            deep_link_for(urls[0], parsed_url(urls[0]))
        } else {
            LinkModel::Ignore
        },
        None => LinkModel::Ignore,
    }
}

/// Routes the incoming deep link `url`, which parsed to `parsed`.
pub fn route_parsed_deep_link(url: String, parsed: Option<UrlParts>) -> (r: DeepLinkRoute)
    ensures
        r@ == deep_link_for(
            url@,
            match parsed {
                Some(p) => Some(p@),
                None => None,
            },
        ),
{
    match parsed {
        None => DeepLinkRoute::Unparsable(url),
        Some(p) => if is_app_scheme_text(p.scheme.as_str()) {
            DeepLinkRoute::Open(url)
        } else {
            DeepLinkRoute::RejectedScheme(p.scheme)
        },
    }
}

/// Routes an incoming deep-link event payload: only a URL with one of the
/// app's schemes is opened.
pub fn route_deep_link(payload: &str) -> (r: DeepLinkRoute)
    ensures
        r@ == deep_link_for_payload(payload@),
{
    match parse_string_list(payload) {
        Some(urls) => {
            if urls.len() == 0 {
                return DeepLinkRoute::Ignore;
            }
            let url = urls[0].clone();
            let parsed = parse_url(url.as_str()).ok();
            route_parsed_deep_link(url, parsed)
        },
        None => DeepLinkRoute::Ignore,
    }
}

} // verus!

verus! {

/// A dismissal never leads to navigation, whatever URL was recorded for the
/// notification and whether it passes the link rules.
pub proof fn lemma_dismiss_never_navigates(url: Option<Seq<char>>, url_allowed: bool)
    ensures
        route_for(ActionModel::Dismiss, url, url_allowed) == RouteModel::Dismissed,
{
}

/// A click with no URL, such as one on an identifier that was never shown,
/// opens the app without a destination, or does nothing for a dismissal; it
/// never navigates.
pub proof fn lemma_no_url_opens_app(action: ActionModel)
    ensures
        route_for(action, None, false) == (if action is Dismiss {
            RouteModel::Dismissed
        } else {
            RouteModel::Focus
        }),
{
}

/// A URL is emitted as a deep link only where it passes the link rules.
pub proof fn lemma_navigation_needs_allowed_url(action: ActionModel, url: Option<Seq<char>>)
    ensures
        route_for(action, url, match url {
            Some(u) => valid_notification_url(u),
            None => false,
        }) matches RouteModel::NavigateAndFocus(u) ==> url == Some(u) && valid_notification_url(u),
{
}

} // verus!
