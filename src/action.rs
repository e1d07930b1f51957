//! Action descriptors: what a dispatch key is configured to do.
use vstd::prelude::*;
use crate::text::text_eq;

verus! {

/// The configured action for a dispatch key.
#[derive(Clone, Debug)]
pub enum ActionDescriptor {
    /// Run a shell command or script.
    RunScript { path: String },
    /// Restart a service under the external process manager.
    RestartService { service_name: String },
}

/// An action as plain values.
pub enum ActionView {
    RunScript(Seq<char>),
    RestartService(Seq<char>),
}

impl View for ActionDescriptor {
    type V = ActionView;

    open spec fn view(&self) -> ActionView {
        match self {
            ActionDescriptor::RunScript { path } => ActionView::RunScript(path@),
            ActionDescriptor::RestartService { service_name } => ActionView::RestartService(
                service_name@,
            ),
        }
    }
}

impl ActionDescriptor {
    /// A copy of this action, for use apart from the table that holds it.
    pub fn duplicate(&self) -> (r: ActionDescriptor)
        ensures
            r@ == self@,
    {
        match self {
            ActionDescriptor::RunScript { path } => ActionDescriptor::RunScript { path: path.clone() },
            ActionDescriptor::RestartService { service_name } => ActionDescriptor::RestartService {
                service_name: service_name.clone(),
            },
        }
    }

    /// Whether two actions are the same variant with the same argument.
    pub fn same_as(&self, other: &ActionDescriptor) -> (r: bool)
        ensures
            r == (self@ == other@),
    {
        match (self, other) {
            (ActionDescriptor::RunScript { path: a }, ActionDescriptor::RunScript { path: b }) => {
                text_eq(a.as_str(), b.as_str())
            },
            (
                ActionDescriptor::RestartService { service_name: a },
                ActionDescriptor::RestartService { service_name: b },
            ) => text_eq(a.as_str(), b.as_str()),
            _ => false,
        }
    }
}

} // verus!
