//! The update that waits to be offered, and what the outcome of an update
//! check means to each of the places that make one.

use vstd::prelude::*;
use vstd::string::StringExecFns;

use crate::click::opt_text;

verus! {

/// The version of an update found by a background check, kept until the
/// window next gains focus.
pub struct PendingUpdate {
    version: Option<String>,
}

impl PendingUpdate {
    /// The version waiting to be offered.
    pub closed spec fn pending(&self) -> Option<Seq<char>> {
        opt_text(self.version)
    }

    /// Nothing pending.
    pub fn new() -> (r: Self)
        ensures
            r.pending() is None,
    {
        PendingUpdate { version: None }
    }

    /// Records `version` as pending, replacing any version recorded before.
    pub fn set(&mut self, version: String)
        ensures
            final(self).pending() == Some(version@),
    {
        self.version = Some(version);
    }

    /// Hands out the pending version and clears it.
    pub fn take(&mut self) -> (r: Option<String>)
        ensures
            opt_text(r) == old(self).pending(),
            final(self).pending() is None,
    {
        let r = self.version.take();
        r
    }
}

impl Default for PendingUpdate {
    fn default() -> (r: Self)
        ensures
            r.pending() is None,
    {
        PendingUpdate::new()
    }
}

/// The outcome of asking the update server for a newer version.
pub enum UpdateCheck {
    /// A newer version is available.
    Available(String),
    /// The app is up to date.
    UpToDate,
    /// The check failed; the text describes why.
    CheckFailed(String),
    /// The updater could not be set up; the text describes why.
    SetupFailed(String),
}

/// The message for a failed check.
pub open spec fn check_failed_message(detail: Seq<char>) -> Seq<char> {
    "Update check failed: "@ + detail
}

/// The message for an updater that could not be set up.
pub open spec fn setup_failed_message(detail: Seq<char>) -> Seq<char> {
    "Failed to initialize updater: "@ + detail
}

/// The message for an update that could not be installed.
pub open spec fn install_failed_message(detail: Seq<char>) -> Seq<char> {
    "Failed to install update: "@ + detail
}

/// The message when an install is asked for and no update is available.
pub open spec fn no_update_message() -> Seq<char> {
    "No update available"@
}

fn prefixed(prefix: &str, detail: &str) -> (r: String)
    ensures
        r@ == prefix@ + detail@,
{
    let mut m = prefix.to_owned();
    m.append(detail);
    m
}

/// The answer to the front end's update check: the newer version, if any,
/// or the failure's message.
pub fn update_check_result(check: UpdateCheck) -> (r: Result<Option<String>, String>)
    ensures
        match check {
            UpdateCheck::Available(v) => r matches Ok(Some(w)) && w@ == v@,
            UpdateCheck::UpToDate => r matches Ok(None),
            UpdateCheck::CheckFailed(d) => r matches Err(m) && m@ == check_failed_message(d@),
            UpdateCheck::SetupFailed(d) => r matches Err(m) && m@ == setup_failed_message(d@),
        },
{
    match check {
        UpdateCheck::Available(v) => Ok(Some(v)),
        UpdateCheck::UpToDate => Ok(None),
        UpdateCheck::CheckFailed(d) => Err(prefixed("Update check failed: ", d.as_str())),
        UpdateCheck::SetupFailed(d) => Err(prefixed("Failed to initialize updater: ", d.as_str())),
    }
}

/// The version a silent background check reports: failures report nothing.
pub fn silent_update_version(check: UpdateCheck) -> (r: Option<String>)
    ensures
        opt_text(r) == match check {
            UpdateCheck::Available(v) => Some(v@),
            _ => None,
        },
{
    match check {
        UpdateCheck::Available(v) => Some(v),
        _ => None,
    }
}

/// Whether the front end's install request goes on to download: with the
/// version to install, or the message it ends with.
pub fn install_target(check: UpdateCheck) -> (r: Result<String, String>)
    ensures
        match check {
            UpdateCheck::Available(v) => r matches Ok(w) && w@ == v@,
            UpdateCheck::UpToDate => r matches Err(m) && m@ == no_update_message(),
            UpdateCheck::CheckFailed(d) => r matches Err(m) && m@ == check_failed_message(d@),
            UpdateCheck::SetupFailed(d) => r matches Err(m) && m@ == setup_failed_message(d@),
        },
{
    match check {
        UpdateCheck::Available(v) => Ok(v),
        UpdateCheck::UpToDate => Err("No update available".to_owned()),
        UpdateCheck::CheckFailed(d) => Err(prefixed("Update check failed: ", d.as_str())),
        UpdateCheck::SetupFailed(d) => Err(prefixed("Failed to initialize updater: ", d.as_str())),
    }
}

/// The answer to the front end's install request, from what the download and
/// install returned.
pub fn install_result(installed: Result<(), String>) -> (r: Result<(), String>)
    ensures
        (r is Ok) == (installed is Ok),
        installed matches Err(d) ==> (r matches Err(m) && m@ == install_failed_message(d@)),
{
    match installed {
        Ok(()) => Ok(()),
        Err(d) => Err(prefixed("Failed to install update: ", d.as_str())),
    }
}

/// What the update dialog shows after a check.
pub enum UpdateDialog {
    /// Offer to install this version.
    Offer(String),
    /// Tell the user the app is up to date.
    UpToDate,
    /// Show this error.
    Error(String),
    /// Show nothing.
    Nothing,
}

/// The dialog's "up to date" text.
pub open spec fn up_to_date_text() -> Seq<char> {
    "You're up to date!"@
}

/// The dialog's text for a failed check.
pub open spec fn check_error_text() -> Seq<char> {
    "Could not check for updates. Please check your internet connection and try again."@
}

/// The dialog's text for an updater that could not be set up.
pub open spec fn setup_error_text() -> Seq<char> {
    "Could not check for updates. Please try again later."@
}

/// The dialog's text for a failed install.
pub open spec fn install_error_text() -> Seq<char> {
    "Failed to install update. Please try again later."@
}

/// What the update dialog shows after `check`. An available update is always
/// offered; the other outcomes are shown only to a user who asked for the
/// check (`show_up_to_date`), and a background check stays silent.
pub fn update_dialog_for(check: UpdateCheck, show_up_to_date: bool) -> (r: UpdateDialog)
    ensures
        match check {
            UpdateCheck::Available(v) => r matches UpdateDialog::Offer(w) && w@ == v@,
            UpdateCheck::UpToDate => if show_up_to_date {
                r is UpToDate
            } else {
                r is Nothing
            },
            UpdateCheck::CheckFailed(_) => if show_up_to_date {
                r matches UpdateDialog::Error(m) && m@ == check_error_text()
            } else {
                r is Nothing
            },
            UpdateCheck::SetupFailed(_) => if show_up_to_date {
                r matches UpdateDialog::Error(m) && m@ == setup_error_text()
            } else {
                r is Nothing
            },
        },
{
    match check {
        UpdateCheck::Available(v) => UpdateDialog::Offer(v),
        UpdateCheck::UpToDate => if show_up_to_date {
            UpdateDialog::UpToDate
        } else {
            UpdateDialog::Nothing
        },
        UpdateCheck::CheckFailed(_) => if show_up_to_date {
            UpdateDialog::Error(
                "Could not check for updates. Please check your internet connection and try again.".to_owned(),
            )
        } else {
            UpdateDialog::Nothing
        },
        UpdateCheck::SetupFailed(_) => if show_up_to_date {
            UpdateDialog::Error("Could not check for updates. Please try again later.".to_owned())
        } else {
            UpdateDialog::Nothing
        },
    }
}

/// What the dialog shows after an install attempt that the user confirmed:
/// nothing on success, since the app restarts; else the install error.
pub fn install_dialog_for(installed: Result<(), String>) -> (r: Option<String>)
    ensures
        (r is None) == (installed is Ok),
        r matches Some(m) ==> m@ == install_error_text(),
{
    match installed {
        Ok(()) => None,
        Err(_) => Some("Failed to install update. Please try again later.".to_owned()),
    }
}

} // verus!
