//! Navigation: back, home, recent tasks and the notification shade.

use vstd::prelude::*;
use crate::agent::actions::base::{description_of, fault_of, kind_name, validated};
use crate::agent::engine::traits::{opt_text, ActionError, ActionView};

verus! {

/// The back key.
#[derive(Debug, Clone, PartialEq, Eq)]
pub struct BackAction {
    pub description: Option<String>,
}

impl View for BackAction {
    type V = ActionView;

    open spec fn view(&self) -> ActionView {
        ActionView::Back { description: opt_text(self.description) }
    }
}

impl BackAction {
    pub fn action_type(&self) -> (r: String)
        ensures
            r@ == kind_name(self@),
    {
        "back".to_owned()
    }

    /// Always acceptable: there is no parameter to check.
    pub fn validate(&self) -> (r: Result<(), ActionError>)
        ensures
            validated(r, self@),
    {
        Ok(())
    }

    pub fn description(&self) -> (r: String)
        ensures
            r@ == description_of(self@),
    {
        match &self.description {
            Some(d) => d.clone(),
            None => "按下返回键".to_owned(),
        }
    }
}

/// The home key.
#[derive(Debug, Clone, PartialEq, Eq)]
pub struct HomeAction {
    pub description: Option<String>,
}

impl View for HomeAction {
    type V = ActionView;

    open spec fn view(&self) -> ActionView {
        ActionView::Home { description: opt_text(self.description) }
    }
}

impl HomeAction {
    pub fn action_type(&self) -> (r: String)
        ensures
            r@ == kind_name(self@),
    {
        "home".to_owned()
    }

    /// Always acceptable: there is no parameter to check.
    pub fn validate(&self) -> (r: Result<(), ActionError>)
        ensures
            validated(r, self@),
    {
        Ok(())
    }

    pub fn description(&self) -> (r: String)
        ensures
            r@ == description_of(self@),
    {
        match &self.description {
            Some(d) => d.clone(),
            None => "按下 Home 键".to_owned(),
        }
    }
}

/// The overview of recent tasks.
#[derive(Debug, Clone, PartialEq, Eq)]
pub struct RecentAction {
    pub description: Option<String>,
}

impl View for RecentAction {
    type V = ActionView;

    open spec fn view(&self) -> ActionView {
        ActionView::Recent { description: opt_text(self.description) }
    }
}

impl RecentAction {
    pub fn action_type(&self) -> (r: String)
        ensures
            r@ == kind_name(self@),
    {
        "recent".to_owned()
    }

    /// Always acceptable: there is no parameter to check.
    pub fn validate(&self) -> (r: Result<(), ActionError>)
        ensures
            validated(r, self@),
    {
        Ok(())
    }

    pub fn description(&self) -> (r: String)
        ensures
            r@ == description_of(self@),
    {
        match &self.description {
            Some(d) => d.clone(),
            None => "打开最近任务".to_owned(),
        }
    }
}

/// The notification shade, pulled down.
#[derive(Debug, Clone, PartialEq, Eq)]
pub struct NotificationAction {
    pub description: Option<String>,
}

impl View for NotificationAction {
    type V = ActionView;

    open spec fn view(&self) -> ActionView {
        ActionView::Notification { description: opt_text(self.description) }
    }
}

impl NotificationAction {
    pub fn action_type(&self) -> (r: String)
        ensures
            r@ == kind_name(self@),
    {
        "notification".to_owned()
    }

    /// Always acceptable: there is no parameter to check.
    pub fn validate(&self) -> (r: Result<(), ActionError>)
        ensures
            validated(r, self@),
    {
        Ok(())
    }

    pub fn description(&self) -> (r: String)
        ensures
            r@ == description_of(self@),
    {
        match &self.description {
            Some(d) => d.clone(),
            None => "打开通知栏".to_owned(),
        }
    }
}

} // verus!
