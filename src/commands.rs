//! The operations offered to the web front end: URL scheme checks and the
//! "show a notification" request.

use vstd::prelude::*;
use vstd::string::StringExecFns;

use crate::click::opt_text;
use crate::manager::{NotificationManager, RenderRequest};
use crate::text::{before_colon, ends_with, has_suffix, text_before_colon, text_eq};

verus! {

/// What `str::to_lowercase` makes of a text.
pub uninterp spec fn lower_of(s: Seq<char>) -> Seq<char>;

/// Relies on `str::to_lowercase`: the result depends on the characters alone.
#[verifier::external_body]
fn lowercase(s: &str) -> (r: String)
    ensures
        r@ == lower_of(s@),
{
    s.to_lowercase()
}

/// A lower-case hexadecimal digit.
pub open spec fn is_lower_hex(c: char) -> bool {
    ('0' <= c && c <= '9') || ('a' <= c && c <= 'f')
}

/// A UUID in its hyphenated form: 36 characters, `-` at positions 8, 13, 18
/// and 23, lower-case hexadecimal digits elsewhere.
pub open spec fn is_hyphenated_uuid(s: Seq<char>) -> bool {
    &&& s.len() == 36
    &&& forall|i: int|
        0 <= i < 36 ==> if i == 8 || i == 13 || i == 18 || i == 23 {
            #[trigger] s[i] == '-'
        } else {
            is_lower_hex(s[i])
        }
}

/// Relies on `uuid::Uuid::new_v4` for a random identifier, written by its
/// `Display`, which gives the lower-case hyphenated form.
#[verifier::external_body]
fn new_uuid_text() -> (r: String)
    ensures
        is_hyphenated_uuid(r@),
{
    uuid::Uuid::new_v4().to_string()
}

/// The scheme of a URL text as the scheme checks read it: the text before
/// its first `:`, in lower case.
pub open spec fn scheme_of(url: Seq<char>) -> Seq<char> {
    lower_of(before_colon(url))
}

/// The schemes a notification's URL may have.
pub open spec fn notification_scheme_allowed(scheme: Seq<char>) -> bool {
    scheme == "cushion"@ || scheme == "cushion-dev"@ || scheme == "https"@
}

/// The message for a notification URL whose scheme is not allowed.
pub open spec fn notification_scheme_error(scheme: Seq<char>) -> Seq<char> {
    "Notification URL scheme '"@ + scheme + "' is not allowed. Allowed schemes: [\"cushion\", \"cushion-dev\", \"https\"]"@
}

/// The schemes an external URL may have to be opened.
pub open spec fn open_scheme_allowed(scheme: Seq<char>) -> bool {
    scheme == "http"@ || scheme == "https"@ || scheme == "mailto"@
}

/// The message for an external URL whose scheme is not allowed.
pub open spec fn open_scheme_error(scheme: Seq<char>) -> Seq<char> {
    "URL scheme '"@ + scheme + "' is not allowed. Allowed schemes: [\"http\", \"https\", \"mailto\"]"@
}

/// Checks an already extracted, lower-cased scheme against the schemes a
/// notification URL may have.
pub fn check_notification_scheme(scheme: &str) -> (r: Result<(), String>)
    ensures
        (r is Ok) == notification_scheme_allowed(scheme@),
        r matches Err(e) ==> e@ == notification_scheme_error(scheme@),
{
    if text_eq(scheme, "cushion") || text_eq(scheme, "cushion-dev") || text_eq(scheme, "https") {
        Ok(())
    } else {
        let mut msg = "Notification URL scheme '".to_owned();
        msg.append(scheme);
        msg.append("' is not allowed. Allowed schemes: [\"cushion\", \"cushion-dev\", \"https\"]");
        Err(msg)
    }
}

/// Checks that a notification URL uses an allowed scheme.
pub fn validate_notification_url(url: &str) -> (r: Result<(), String>)
    ensures
        (r is Ok) == notification_scheme_allowed(scheme_of(url@)),
        r matches Err(e) ==> e@ == notification_scheme_error(scheme_of(url@)),
{
    let scheme = lowercase(text_before_colon(url));
    check_notification_scheme(scheme.as_str())
}

/// Checks an already extracted, lower-cased scheme against the schemes an
/// external URL may have.
pub fn check_open_scheme(scheme: &str) -> (r: Result<(), String>)
    ensures
        (r is Ok) == open_scheme_allowed(scheme@),
        r matches Err(e) ==> e@ == open_scheme_error(scheme@),
{
    if text_eq(scheme, "http") || text_eq(scheme, "https") || text_eq(scheme, "mailto") {
        Ok(())
    } else {
        let mut msg = "URL scheme '".to_owned();
        msg.append(scheme);
        msg.append("' is not allowed. Allowed schemes: [\"http\", \"https\", \"mailto\"]");
        Err(msg)
    }
}

/// Checks that an external URL uses an allowed scheme before it is opened.
pub fn validate_url_scheme(url: &str) -> (r: Result<(), String>)
    ensures
        (r is Ok) == open_scheme_allowed(scheme_of(url@)),
        r matches Err(e) ==> e@ == open_scheme_error(scheme_of(url@)),
{
    let scheme = lowercase(text_before_colon(url));
    check_open_scheme(scheme.as_str())
}

/// Why a notification could not be shown.
pub enum NotificationError {
    /// The manager was used before it was initialized.
    NotInitialized,
    /// The notification's URL was refused; the message says why.
    InvalidUrl(String),
    /// The platform's notification service failed; the message is its own.
    BackendError(String),
    /// The build target has no notification backend.
    UnsupportedPlatform,
}

/// The text shown to the front end for `e`.
pub open spec fn error_message(e: NotificationError) -> Seq<char> {
    match e {
        NotificationError::NotInitialized => "Notification manager not initialized"@,
        NotificationError::InvalidUrl(m) => m@,
        NotificationError::BackendError(m) => m@,
        NotificationError::UnsupportedPlatform => "Notifications not supported on this platform"@,
    }
}

impl NotificationError {
    /// The text shown to the front end for this error.
    pub fn message(&self) -> (r: String)
        ensures
            r@ == error_message(*self),
    {
        match self {
            NotificationError::NotInitialized => "Notification manager not initialized".to_owned(),
            NotificationError::InvalidUrl(m) => m.clone(),
            NotificationError::BackendError(m) => m.clone(),
            NotificationError::UnsupportedPlatform => "Notifications not supported on this platform".to_owned(),
        }
    }
}

/// The outcome of showing a notification, from what the backend's render
/// call returned: its failure text becomes a backend error.
pub fn render_outcome(rendered: Result<(), String>) -> (r: Result<(), NotificationError>)
    ensures
        (r is Ok) == (rendered is Ok),
        rendered matches Err(m) ==> (r matches Err(NotificationError::BackendError(e)) && e@ == m@),
{
    match rendered {
        Ok(()) => Ok(()),
        Err(m) => Err(NotificationError::BackendError(m)),
    }
}

/// A notification identifier: `cushion-` and a random UUID.
pub open spec fn is_notification_id(id: Seq<char>) -> bool {
    exists|u: Seq<char>| is_hyphenated_uuid(u) && id == "cushion-"@ + u
}

/// A fresh notification identifier.
pub fn new_notification_id() -> (r: String)
    ensures
        is_notification_id(r@),
{
    let u = new_uuid_text();
    let mut id = "cushion-".to_owned();
    id.append(u.as_str());
    assert(id@ == "cushion-"@ + u@);
    id
}

/// A notification URL, where there is one, has an allowed scheme.
pub open spec fn url_scheme_ok(url: Option<Seq<char>>) -> bool {
    match url {
        Some(u) => notification_scheme_allowed(scheme_of(u)),
        None => true,
    }
}

/// Handles the front end's request to show a notification: checks the URL's
/// scheme, then that the manager is initialized, then records the URL under a
/// fresh identifier and hands back what the backend must render.
pub fn show_notification<C>(
    manager: Option<&mut NotificationManager<C>>,
    title: String,
    body: String,
    url: Option<String>,
) -> (r: Result<RenderRequest, NotificationError>)
    ensures
        !url_scheme_ok(opt_text(url)) ==> (r matches Err(NotificationError::InvalidUrl(e)) && e@
            == notification_scheme_error(scheme_of(url->0@))),
        url_scheme_ok(opt_text(url)) && manager is None ==> r matches Err(
            NotificationError::NotInitialized,
        ),
        url_scheme_ok(opt_text(url)) && manager is Some ==> (r matches Ok(req) && is_notification_id(
            req.id@,
        ) && req.title@ == title@ && req.body@ == body@),
        manager matches Some(m) ==> match r {
            Ok(req) => final(m)@ == m@.shown(req.id@, opt_text(url)),
            Err(_) => final(m)@ == m@,
        },
{
    match &url {
        Some(u) => match validate_notification_url(u.as_str()) {
            Ok(()) => {},
            Err(e) => return Err(NotificationError::InvalidUrl(e)),
        },
        None => {},
    }
    match manager {
        Some(m) => {
            let id = new_notification_id();
            Ok(m.show_notification(id, title, body, url))
        },
        None => Err(NotificationError::NotInitialized),
    }
}

/// The user agent the webview presents: a desktop browser's, marked as the
/// development or production build by the app's identifier.
pub open spec fn user_agent_for(identifier: Seq<char>) -> Seq<char> {
    "Mozilla/5.0 (Macintosh; Intel Mac OS X 10_15_7) AppleWebKit/537.36 (KHTML, like Gecko) Chrome/120.0.0.0 Safari/537.36 "@
        + if has_suffix(identifier, ".dev"@) {
        "CushionDesktop/dev"@
    } else {
        "CushionDesktop/prod"@
    }
}

/// The user agent for the app with bundle identifier `identifier`.
pub fn get_user_agent(identifier: &str) -> (r: String)
    ensures
        r@ == user_agent_for(identifier@),
{
    let mut agent = "Mozilla/5.0 (Macintosh; Intel Mac OS X 10_15_7) AppleWebKit/537.36 (KHTML, like Gecko) Chrome/120.0.0.0 Safari/537.36 ".to_owned();
    if ends_with(identifier, ".dev") {
        agent.append("CushionDesktop/dev");
    } else {
        agent.append("CushionDesktop/prod");
    }
    agent
}

} // verus!
