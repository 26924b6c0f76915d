//! What a platform backend reports when the user interacts with a notification.

use vstd::prelude::*;

verus! {

/// The characters of an optional text.
pub open spec fn opt_text(o: Option<String>) -> Option<Seq<char>> {
    match o {
        Some(s) => Some(s@),
        None => None,
    }
}

/// The kind of interaction with a delivered notification.
#[derive(Debug, Clone)]
pub enum ClickAction {
    /// The user clicked the notification body.
    Body,
    /// The user dismissed the notification.
    Dismiss,
    /// The user clicked a custom action button, named by its native identifier.
    Button(String),
}

/// The abstract value of a [`ClickAction`].
pub enum ActionModel {
    Body,
    Dismiss,
    Button(Seq<char>),
}

impl View for ClickAction {
    type V = ActionModel;

    open spec fn view(&self) -> ActionModel {
        match self {
            ClickAction::Body => ActionModel::Body,
            ClickAction::Dismiss => ActionModel::Dismiss,
            ClickAction::Button(b) => ActionModel::Button(b@),
        }
    }
}

/// A click on a notification, with the deep link recorded for it.
#[derive(Debug, Clone)]
pub struct NotificationClick {
    /// The notification identifier.
    pub id: String,
    /// The deep link URL recorded for the notification, if any.
    pub url: Option<String>,
    /// The kind of interaction.
    pub action: ClickAction,
}

/// The abstract value of a [`NotificationClick`].
pub struct ClickModel {
    pub id: Seq<char>,
    pub url: Option<Seq<char>>,
    pub action: ActionModel,
}

impl View for NotificationClick {
    type V = ClickModel;

    open spec fn view(&self) -> ClickModel {
        ClickModel { id: self.id@, url: opt_text(self.url), action: self.action@ }
    }
}

} // verus!
