//! The inbound webhook payload, as the transport layer hands it over.
use vstd::prelude::*;

verus! {

/// The repository part of a webhook payload.
#[derive(Clone, Debug)]
pub struct Repository {
    /// The repository's full name, such as `org/app`.
    pub full_name: String,
}

/// A parsed push notification: its raw ref, if it carries one, and its
/// repository.
#[derive(Clone, Debug)]
pub struct WebhookPayload {
    /// The raw ref, such as `refs/heads/main`; absent on events that carry no
    /// branch.
    pub ref_name: Option<String>,
    pub repository: Repository,
}

/// The payload as plain sequences: the ref, if any, and the repository name.
pub struct PayloadView {
    pub ref_name: Option<Seq<char>>,
    pub full_name: Seq<char>,
}

impl View for WebhookPayload {
    type V = PayloadView;

    open spec fn view(&self) -> PayloadView {
        PayloadView {
            ref_name: match self.ref_name {
                Some(r) => Some(r@),
                None => None,
            },
            full_name: self.repository.full_name@,
        }
    }
}

} // verus!
