//! The decisions the platform notification backends make: how a native
//! interaction becomes a click action, and how the answer to a permission
//! prompt, or its absence, becomes "granted" or "denied".

use vstd::prelude::*;
use vstd::string::StringExecFns;

use crate::click::{ActionModel, ClickAction};
use crate::text::text_eq;

verus! {

/// The authorization status the macOS notification center reports for an app
/// that the user has allowed to post notifications.
pub const UN_AUTHORIZATION_STATUS_AUTHORIZED: i64 = 2;

/// Whether the user lets the app post notifications.
#[derive(Debug, Clone, Copy, PartialEq, Eq)]
pub enum Permission {
    Granted,
    Denied,
}

/// The text the front end receives for a permission.
pub open spec fn permission_text(p: Permission) -> Seq<char> {
    match p {
        Permission::Granted => "granted"@,
        Permission::Denied => "denied"@,
    }
}

impl Permission {
    /// The text the front end receives for this permission.
    pub fn as_text(&self) -> (r: String)
        ensures
            r@ == permission_text(*self),
    {
        match self {
            Permission::Granted => "granted".to_owned(),
            Permission::Denied => "denied".to_owned(),
        }
    }
}

/// The native action identifier of a tap on a notification's body.
pub open spec fn default_action_identifier() -> Seq<char> {
    "com.apple.UNNotificationDefaultActionIdentifier"@
}

/// The native action identifier of an explicit dismissal.
pub open spec fn dismiss_action_identifier() -> Seq<char> {
    "com.apple.UNNotificationDismissActionIdentifier"@
}

/// The click action for a native action identifier of the macOS
/// notification center: any identifier other than the body tap and the
/// dismissal names an action button.
pub open spec fn action_for_identifier(identifier: Seq<char>) -> ActionModel {
    if identifier == default_action_identifier() {
        ActionModel::Body
    } else if identifier == dismiss_action_identifier() {
        ActionModel::Dismiss
    } else {
        ActionModel::Button(identifier)
    }
}

/// Maps a native action identifier of the macOS notification center to a
/// click action.
pub fn action_from_identifier(identifier: String) -> (r: ClickAction)
    ensures
        r@ == action_for_identifier(identifier@),
{
    if text_eq(identifier.as_str(), "com.apple.UNNotificationDefaultActionIdentifier") {
        ClickAction::Body
    } else if text_eq(identifier.as_str(), "com.apple.UNNotificationDismissActionIdentifier") {
        ClickAction::Dismiss
    } else {
        ClickAction::Button(identifier)
    }
}

/// Maps the argument of a Windows toast activation to a click action: no
/// argument is a tap on the body, an argument names the button pressed.
pub fn action_from_toast(argument: Option<String>) -> (r: ClickAction)
    ensures
        r@ == match argument {
            None => ActionModel::Body,
            Some(b) => ActionModel::Button(b@),
        },
{
    match argument {
        None => ClickAction::Body,
        Some(b) => ClickAction::Button(b),
    }
}

/// What came back while waiting, with a bound, for the answer to a
/// permission prompt.
pub enum PromptReply {
    /// The prompt's completion handler ran.
    Answered { granted: bool, error: Option<String> },
    /// The wait ran out: the handler may never run when the host's event
    /// loop is not pumping.
    TimedOut,
    /// The handler went away without answering; the text describes it.
    Disconnected(String),
}

/// What to do after a permission prompt's reply.
pub enum PermissionStep {
    /// The request is over, with this outcome.
    Done(Result<Permission, String>),
    /// Ask for the current authorization status, without prompting.
    QueryStatus,
}

/// The message for a prompt whose handler went away without answering.
pub open spec fn disconnected_message(detail: Seq<char>) -> Seq<char> {
    "Failed to receive permission result: "@ + detail
}

/// Decides the outcome of a permission request from the prompt's reply: an
/// error text from the handler is the error, else its answer decides; when
/// the wait runs out, the current status is asked for instead.
pub fn request_notification_permission(reply: PromptReply) -> (r: PermissionStep)
    ensures
        match reply {
            PromptReply::Answered { granted, error: Some(e) } => r matches PermissionStep::Done(Err(m))
                && m@ == e@,
            PromptReply::Answered { granted, error: None } => r matches PermissionStep::Done(Ok(p))
                && p == (if granted {
                Permission::Granted
            } else {
                Permission::Denied
            }),
            PromptReply::TimedOut => r is QueryStatus,
            PromptReply::Disconnected(d) => r matches PermissionStep::Done(Err(m)) && m@
                == disconnected_message(d@),
        },
{
    match reply {
        PromptReply::Answered { granted, error } => match error {
            Some(e) => PermissionStep::Done(Err(e)),
            None => {
                let p = if granted {
                    Permission::Granted
                } else {
                    Permission::Denied
                };
                PermissionStep::Done(Ok(p))
            },
        },
        PromptReply::TimedOut => PermissionStep::QueryStatus,
        PromptReply::Disconnected(d) => {
            let mut m = "Failed to receive permission result: ".to_owned();
            m.append(d.as_str());
            PermissionStep::Done(Err(m))
        },
    }
}

/// The message when the current authorization status did not arrive in time.
pub open spec fn status_timeout_message() -> Seq<char> {
    "Failed to get notification settings"@
}

/// The permission for the authorization status the notification center
/// reported, `None` where none arrived in time: only an authorized app is
/// granted; an undetermined status counts as denied, since no prompt could
/// be shown.
pub fn authorization_status_result(status: Option<i64>) -> (r: Result<Permission, String>)
    ensures
        match status {
            Some(s) => r == Ok::<Permission, String>(
                if s == UN_AUTHORIZATION_STATUS_AUTHORIZED {
                    Permission::Granted
                } else {
                    Permission::Denied
                },
            ),
            None => r matches Err(m) && m@ == status_timeout_message(),
        },
{
    match status {
        Some(s) => if s == UN_AUTHORIZATION_STATUS_AUTHORIZED {
            Ok(Permission::Granted)
        } else {
            Ok(Permission::Denied)
        },
        None => Err("Failed to get notification settings".to_owned()),
    }
}

/// The platform the app is built for.
#[derive(Debug, Clone, Copy, PartialEq, Eq)]
pub enum Platform {
    MacOs,
    Windows,
    Linux,
    /// A platform with no notification backend.
    Other,
}

/// The permission a platform has without asking the user; `None` where the
/// user must be asked. Desktop apps on Windows and Linux need no consent; a
/// platform with no backend cannot post notifications at all.
pub open spec fn permission_without_prompt_for(platform: Platform) -> Option<Permission> {
    match platform {
        Platform::MacOs => None,
        Platform::Windows => Some(Permission::Granted),
        Platform::Linux => Some(Permission::Granted),
        Platform::Other => Some(Permission::Denied),
    }
}

/// The permission `platform` has without asking the user, if it has one.
pub fn permission_without_prompt(platform: Platform) -> (r: Option<Permission>)
    ensures
        r == permission_without_prompt_for(platform),
{
    match platform {
        Platform::MacOs => None,
        Platform::Windows => Some(Permission::Granted),
        Platform::Linux => Some(Permission::Granted),
        Platform::Other => Some(Permission::Denied),
    }
}

} // verus!
