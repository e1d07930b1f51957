//! The dispatch coordinator: what an inbound webhook request leads to.
use vstd::prelude::*;
use crate::action::{ActionDescriptor, ActionView};
use crate::matcher::{dispatch_key, key_of, match_of, parse_webhook_info};
use crate::state::{PayloadView, WebhookPayload};
use crate::table::RoutingTable;
use crate::text::{opt_view, text_eq};

verus! {

/// What a request comes to. Every outcome is acknowledged with success; only
/// `Execute` starts an action, which runs apart from the request.
#[derive(Debug)]
pub enum Dispatch {
    /// A connectivity probe: acknowledged without matching or lookup.
    Ping,
    /// The event names no branch push.
    Unmatched,
    /// The key has no configured action.
    Unconfigured { key: String },
    /// The key's action is to be started.
    Execute { key: String, action: ActionDescriptor },
}

/// The event type that marks a connectivity probe.
pub open spec fn ping_event() -> Seq<char> {
    seq!['p', 'i', 'n', 'g']
}

/// Whether the event header, if present, names a probe.
pub open spec fn is_ping(event: Option<Seq<char>>) -> bool {
    event == Some(ping_event())
}

/// What the coordinator decides for an event type, a payload and a table.
pub open spec fn decision_of(
    event: Option<Seq<char>>,
    p: PayloadView,
    table: Map<Seq<char>, ActionView>,
) -> DecisionView {
    if is_ping(event) {
        DecisionView::Ping
    } else {
        match match_of(p) {
            None => DecisionView::Unmatched,
            Some((repo, branch)) => {
                let key = key_of(repo, branch);
                if table.contains_key(key) {
                    DecisionView::Execute(key, table[key])
                } else {
                    DecisionView::Unconfigured(key)
                }
            },
        }
    }
}

/// A decision as plain values.
pub enum DecisionView {
    Ping,
    Unmatched,
    Unconfigured(Seq<char>),
    Execute(Seq<char>, ActionView),
}

impl View for Dispatch {
    type V = DecisionView;

    open spec fn view(&self) -> DecisionView {
        match self {
            Dispatch::Ping => DecisionView::Ping,
            Dispatch::Unmatched => DecisionView::Unmatched,
            Dispatch::Unconfigured { key } => DecisionView::Unconfigured(key@),
            Dispatch::Execute { key, action } => DecisionView::Execute(key@, action@),
        }
    }
}

/// Decides what a request leads to: a probe is acknowledged at once; else the
/// payload is matched, and a match is looked up in the table.
pub fn decide(event: Option<&str>, payload: &WebhookPayload, table: &RoutingTable) -> (r: Dispatch)
    requires
        table.wf(),
    ensures
        r@ == decision_of(opt_view(event), payload@, table@),
{
    let ping = "ping";
    proof {
        reveal_strlit("ping");
        assert(ping@ =~= ping_event());
    }
    if let Some(e) = event {
        if text_eq(e, ping) {
            return Dispatch::Ping;
        }
    }
    match parse_webhook_info(payload) {
        None => Dispatch::Unmatched,
        Some((repo, branch)) => {
            let key = dispatch_key(repo.as_str(), branch.as_str());
            match table.lookup(key.as_str()) {
                Some(action) => Dispatch::Execute { key, action },
                None => Dispatch::Unconfigured { key },
            }
        },
    }
}

impl Dispatch {
    /// The body of the acknowledgement: empty for a probe, `ok` otherwise.
    pub fn response_body(&self) -> (r: String)
        ensures
            r@ == if self is Ping {
                Seq::<char>::empty()
            } else {
                seq!['o', 'k']
            },
    {
        match self {
            Dispatch::Ping => String::new(),
            _ => {
                proof {
                    reveal_strlit("ok");
                }
                let r = String::from_str("ok");
                assert(r@ =~= seq!['o', 'k']);
                r
            },
        }
    }
}

/// A probe never reaches matching or the table: whatever the payload and the
/// table, it is acknowledged as a probe.
pub proof fn lemma_ping_ignores_payload(
    p: PayloadView,
    q: PayloadView,
    t: Map<Seq<char>, ActionView>,
    u: Map<Seq<char>, ActionView>,
)
    ensures
        decision_of(Some(ping_event()), p, t) == decision_of(Some(ping_event()), q, u),
{
}

} // verus!
