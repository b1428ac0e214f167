//! The request scheduler of the analyzer host.
//!
//! Requests are accepted in any number, queued first in, first out, and run
//! one at a time. Each accepted request receives a ticket in order of
//! acceptance; the host hands out at most one call at a time, assigns each
//! call a fresh id, and turns the outcome of the call into exactly one reply.
//! The thread, the channel and the analyzer runtime live with the caller: it
//! performs each step the host hands back and reports how it went.
use vstd::prelude::*;
use std::collections::VecDeque;

verus! {

/// The closed set of request kinds the analyzer answers.
#[derive(Clone, Copy, Debug, PartialEq, Eq)]
pub enum RequestKind {
    Configure,
    FindRenameLocations,
    GetAssets,
    GetApplicableRefactors,
    GetEditsForRefactor,
    GetCodeFixes,
    GetCombinedCodeFix,
    GetCompletionDetails,
    GetCompletions,
    GetDefinition,
    GetDiagnostics,
    GetDocumentHighlights,
    GetEncodedSemanticClassifications,
    GetImplementation,
    GetNavigateToItems,
    GetNavigationTree,
    GetOutliningSpans,
    GetQuickInfo,
    FindReferences,
    GetSignatureHelpItems,
    GetSmartSelectionRange,
    GetSupportedCodeFixes,
    GetTypeDefinition,
    PrepareCallHierarchy,
    ProvideCallHierarchyIncomingCalls,
    ProvideCallHierarchyOutgoingCalls,
    ProvideInlayHints,
    Restart,
}

/// The `method` field with which a request of kind `k` is sent.
pub open spec fn wire_method(k: RequestKind) -> Seq<char> {
    match k {
        RequestKind::Configure => "configure"@,
        RequestKind::FindRenameLocations => "findRenameLocations"@,
        RequestKind::GetAssets => "getAssets"@,
        RequestKind::GetApplicableRefactors => "getApplicableRefactors"@,
        RequestKind::GetEditsForRefactor => "getEditsForRefactor"@,
        RequestKind::GetCodeFixes => "getCodeFixes"@,
        RequestKind::GetCombinedCodeFix => "getCombinedCodeFix"@,
        RequestKind::GetCompletionDetails => "getCompletionDetails"@,
        RequestKind::GetCompletions => "getCompletions"@,
        RequestKind::GetDefinition => "getDefinition"@,
        RequestKind::GetDiagnostics => "getDiagnostics"@,
        RequestKind::GetDocumentHighlights => "getDocumentHighlights"@,
        RequestKind::GetEncodedSemanticClassifications => "getEncodedSemanticClassifications"@,
        RequestKind::GetImplementation => "getImplementation"@,
        RequestKind::GetNavigateToItems => "getNavigateToItems"@,
        RequestKind::GetNavigationTree => "getNavigationTree"@,
        RequestKind::GetOutliningSpans => "getOutliningSpans"@,
        RequestKind::GetQuickInfo => "getQuickInfo"@,
        RequestKind::FindReferences => "findReferences"@,
        RequestKind::GetSignatureHelpItems => "getSignatureHelpItems"@,
        RequestKind::GetSmartSelectionRange => "getSmartSelectionRange"@,
        RequestKind::GetSupportedCodeFixes => "getSupportedCodeFixes"@,
        RequestKind::GetTypeDefinition => "getTypeDefinition"@,
        RequestKind::PrepareCallHierarchy => "prepareCallHierarchy"@,
        RequestKind::ProvideCallHierarchyIncomingCalls => "provideCallHierarchyIncomingCalls"@,
        RequestKind::ProvideCallHierarchyOutgoingCalls => "provideCallHierarchyOutgoingCalls"@,
        RequestKind::ProvideInlayHints => "provideInlayHints"@,
        RequestKind::Restart => "restart"@,
    }
}

impl RequestKind {
    /// The `method` field of the message sent to the analyzer.
    pub fn method_name(&self) -> (r: &'static str)
        ensures
            r@ == wire_method(*self),
    {
        match self {
            RequestKind::Configure => "configure",
            RequestKind::FindRenameLocations => "findRenameLocations",
            RequestKind::GetAssets => "getAssets",
            RequestKind::GetApplicableRefactors => "getApplicableRefactors",
            RequestKind::GetEditsForRefactor => "getEditsForRefactor",
            RequestKind::GetCodeFixes => "getCodeFixes",
            RequestKind::GetCombinedCodeFix => "getCombinedCodeFix",
            RequestKind::GetCompletionDetails => "getCompletionDetails",
            RequestKind::GetCompletions => "getCompletions",
            RequestKind::GetDefinition => "getDefinition",
            RequestKind::GetDiagnostics => "getDiagnostics",
            RequestKind::GetDocumentHighlights => "getDocumentHighlights",
            RequestKind::GetEncodedSemanticClassifications => "getEncodedSemanticClassifications",
            RequestKind::GetImplementation => "getImplementation",
            RequestKind::GetNavigateToItems => "getNavigateToItems",
            RequestKind::GetNavigationTree => "getNavigationTree",
            RequestKind::GetOutliningSpans => "getOutliningSpans",
            RequestKind::GetQuickInfo => "getQuickInfo",
            RequestKind::FindReferences => "findReferences",
            RequestKind::GetSignatureHelpItems => "getSignatureHelpItems",
            RequestKind::GetSmartSelectionRange => "getSmartSelectionRange",
            RequestKind::GetSupportedCodeFixes => "getSupportedCodeFixes",
            RequestKind::GetTypeDefinition => "getTypeDefinition",
            RequestKind::PrepareCallHierarchy => "prepareCallHierarchy",
            RequestKind::ProvideCallHierarchyIncomingCalls => "provideCallHierarchyIncomingCalls",
            RequestKind::ProvideCallHierarchyOutgoingCalls => "provideCallHierarchyOutgoingCalls",
            RequestKind::ProvideInlayHints => "provideInlayHints",
            RequestKind::Restart => "restart",
        }
    }
}

/// How a request ended, as seen by its waiter.
#[derive(Clone, Debug, PartialEq, Eq)]
pub enum BridgeError {
    /// The request completed after its token was tripped.
    CancelDelivered,
    /// The host thread is gone.
    TransportClosed,
    /// The analyzer threw out of its entry point.
    AnalyzerScriptError(String),
    /// The analyzer returned without responding.
    NoResponse,
    /// The response could not be shaped into the expected type.
    DecodeError,
    /// The response broke an expectation of the bridge.
    InvariantViolation,
    /// The asset is not in the registry.
    MissingAsset,
    /// The specifier is not known.
    UnknownSpecifier,
}

/// How an analyzer call came back.
#[derive(Clone, Debug)]
pub enum CallOutcome {
    /// The entry point returned.
    Returned,
    /// The entry point threw, with this message.
    Threw(String),
}

/// A request waiting for its turn.
pub struct Queued<T> {
    pub ticket: u64,
    pub kind: RequestKind,
    pub payload: T,
}

/// A call the host hands out: the caller bootstraps the analyzer first where
/// `bootstrap` says so, then performs the call under `id`.
pub struct Call<T> {
    pub ticket: u64,
    pub id: u64,
    pub kind: RequestKind,
    pub payload: T,
    pub bootstrap: bool,
}

/// The reply to one request.
pub struct Reply {
    pub ticket: u64,
    pub result: Result<String, BridgeError>,
}

/// The scheduling state of one analyzer host.
pub struct Host<T> {
    queue: VecDeque<Queued<T>>,
    active: Option<(u64, u64)>,
    started: bool,
    last_id: u64,
    next_ticket: u64,
    response: Option<String>,
    replied: Ghost<Seq<u64>>,
}

/// The tickets of the queued requests, front first.
pub open spec fn tickets<T>(q: Seq<Queued<T>>) -> Seq<u64> {
    q.map_values(|e: Queued<T>| e.ticket)
}

/// The tickets `0, 1, ..., n - 1`.
pub open spec fn first_tickets(n: nat) -> Seq<u64> {
    Seq::new(n, |i: int| i as u64)
}

impl<T> Host<T> {
    /// The tickets of the replies delivered so far, in delivery order.
    pub closed spec fn replies(&self) -> Seq<u64> {
        self.replied@
    }

    /// The tickets of the requests still waiting, front first.
    pub closed spec fn waiting(&self) -> Seq<u64> {
        tickets(self.queue@)
    }

    /// The ticket of the request whose call is under way, if any.
    pub closed spec fn in_flight(&self) -> Option<u64> {
        match self.active {
            Some(a) => Some(a.0),
            None => None,
        }
    }

    /// How many requests have been accepted.
    pub closed spec fn accepted(&self) -> nat {
        self.next_ticket as nat
    }

    /// The id given to the most recent call.
    pub closed spec fn last_call_id(&self) -> u64 {
        self.last_id
    }

    /// Whether the analyzer has been bootstrapped since it was last created.
    pub closed spec fn is_started(&self) -> bool {
        self.started
    }

    /// The response stashed by the current call, if any.
    pub closed spec fn stashed(&self) -> Option<Seq<char>> {
        match self.response {
            Some(d) => Some(d@),
            None => None,
        }
    }

    /// The tickets of the requests in flight, as a sequence of at most one.
    pub open spec fn in_flight_seq(&self) -> Seq<u64> {
        match self.in_flight() {
            Some(t) => seq![t],
            None => Seq::empty(),
        }
    }

    /// Every accepted request is, exactly once, replied to, in flight or
    /// waiting, and in order of acceptance.
    pub open spec fn wf(&self) -> bool {
        self.replies() + self.in_flight_seq() + self.waiting() == first_tickets(self.accepted())
    }

    /// A host with nothing accepted and the analyzer not yet bootstrapped.
    pub fn new() -> (r: Host<T>)
        ensures
            r.wf(),
            r.accepted() == 0,
            r.replies() == Seq::<u64>::empty(),
            r.in_flight() is None,
            r.waiting() == Seq::<u64>::empty(),
            !r.is_started(),
            r.last_call_id() == 0,
            r.stashed() is None,
    {
        let r = Host {
            queue: VecDeque::new(),
            active: None,
            started: false,
            last_id: 0,
            next_ticket: 0,
            response: None,
            replied: Ghost(Seq::empty()),
        };
        assert(r.waiting() =~= Seq::<u64>::empty());
        assert(first_tickets(0) =~= Seq::<u64>::empty());
        assert(r.replies() + r.in_flight_seq() + r.waiting() =~= Seq::<u64>::empty());
        r
    }

    /// How many requests have been accepted.
    pub fn accepted_count(&self) -> (r: u64)
        ensures
            r == self.accepted(),
    {
        self.next_ticket
    }

    /// The id of the most recent call.
    pub fn last_id(&self) -> (r: u64)
        ensures
            r == self.last_call_id(),
    {
        self.last_id
    }

    /// Accepts a request at the back of the queue and returns its ticket.
    pub fn enqueue(&mut self, kind: RequestKind, payload: T) -> (ticket: u64)
        requires
            old(self).wf(),
            old(self).accepted() < u64::MAX,
        ensures
            final(self).wf(),
            ticket == old(self).accepted(),
            final(self).accepted() == old(self).accepted() + 1,
            final(self).waiting() == old(self).waiting().push(ticket),
            final(self).replies() == old(self).replies(),
            final(self).in_flight() == old(self).in_flight(),
            final(self).is_started() == old(self).is_started(),
            final(self).last_call_id() == old(self).last_call_id(),
            final(self).stashed() == old(self).stashed(),
    {
        let ticket = self.next_ticket;
        let ghost q0 = self.queue@;
        self.queue.push_back(Queued { ticket, kind, payload });
        self.next_ticket = ticket + 1;
        assert(tickets(self.queue@) =~= tickets(q0).push(ticket));
        assert(first_tickets(self.next_ticket as nat) =~= first_tickets(ticket as nat).push(ticket));
        assert(self.replies() + self.in_flight_seq() + self.waiting() =~= (old(self).replies()
            + old(self).in_flight_seq() + old(self).waiting()).push(ticket));
        ticket
    }

    /// Hands out the next call: nothing while a call is under way or nothing
    /// waits; else the front request, under the next id. A restart resets
    /// the bootstrap latch; any other kind asks for a bootstrap first where
    /// none happened since the analyzer was created.
    pub fn begin(&mut self) -> (r: Option<Call<T>>)
        requires
            old(self).wf(),
            old(self).last_call_id() < u64::MAX,
        ensures
            final(self).wf(),
            final(self).accepted() == old(self).accepted(),
            final(self).replies() == old(self).replies(),
            (old(self).in_flight() is Some || old(self).waiting().len() == 0) ==> r is None
                && final(self).waiting() == old(self).waiting()
                && final(self).in_flight() == old(self).in_flight()
                && final(self).is_started() == old(self).is_started()
                && final(self).last_call_id() == old(self).last_call_id(),
            (old(self).in_flight() is None && old(self).waiting().len() > 0) ==> r is Some,
            r is Some ==> ({
                let c = r->0;
                &&& old(self).in_flight() is None
                &&& c.ticket == old(self).waiting()[0]
                &&& final(self).waiting() == old(self).waiting().drop_first()
                &&& final(self).in_flight() == Some(c.ticket)
                &&& c.id == old(self).last_call_id() + 1
                &&& final(self).last_call_id() == c.id
                &&& c.bootstrap == (!old(self).is_started() && c.kind != RequestKind::Restart)
                &&& final(self).is_started() == (c.kind != RequestKind::Restart)
                &&& final(self).stashed() is None
            }),
    {
        if self.active.is_some() {
            return None;
        }
        let ghost q0 = self.queue@;
        match self.queue.pop_front() {
            None => None,
            Some(front) => {
                let id = self.last_id + 1;
                self.last_id = id;
                let is_restart = match front.kind {
                    RequestKind::Restart => true,
                    _ => false,
                };
                let bootstrap = !self.started && !is_restart;
                self.started = !is_restart;
                self.active = Some((front.ticket, id));
                self.response = None;
                assert(tickets(self.queue@) =~= tickets(q0).drop_first());
                assert(seq![front.ticket] + tickets(self.queue@) =~= tickets(q0));
                assert(self.replies() + self.in_flight_seq() + self.waiting() =~= old(self).replies()
                    + old(self).in_flight_seq() + old(self).waiting());
                Some(Call { ticket: front.ticket, id, kind: front.kind, payload: front.payload, bootstrap })
            },
        }
    }

    /// Stashes what the analyzer responded for the enclosing call.
    pub fn respond(&mut self, data: String)
        requires
            old(self).wf(),
        ensures
            final(self).wf(),
            final(self).stashed() == Some(data@),
            final(self).accepted() == old(self).accepted(),
            final(self).replies() == old(self).replies(),
            final(self).waiting() == old(self).waiting(),
            final(self).in_flight() == old(self).in_flight(),
            final(self).is_started() == old(self).is_started(),
            final(self).last_call_id() == old(self).last_call_id(),
    {
        self.response = Some(data);
    }

    /// Ends the call under way and turns it into its reply: what the analyzer
    /// responded, `NoResponse` where it responded nothing, or
    /// `AnalyzerScriptError` where it threw.
    pub fn finish(&mut self, outcome: CallOutcome) -> (r: Reply)
        requires
            old(self).wf(),
            old(self).in_flight() is Some,
        ensures
            final(self).wf(),
            r.ticket == old(self).in_flight()->0,
            final(self).replies() == old(self).replies().push(r.ticket),
            final(self).in_flight() is None,
            final(self).waiting() == old(self).waiting(),
            final(self).accepted() == old(self).accepted(),
            final(self).is_started() == old(self).is_started(),
            final(self).last_call_id() == old(self).last_call_id(),
            final(self).stashed() is None,
            match outcome {
                CallOutcome::Threw(m) => r.result == Err::<String, BridgeError>(BridgeError::AnalyzerScriptError(m)),
                CallOutcome::Returned => match old(self).stashed() {
                    Some(d) => r.result is Ok && r.result->Ok_0@ == d,
                    None => r.result == Err::<String, BridgeError>(BridgeError::NoResponse),
                },
            },
    {
        let (ticket, _id) = self.active.unwrap();
        let response = self.response.take();
        self.active = None;
        self.replied = Ghost(self.replied@.push(ticket));
        assert(self.replies() + self.in_flight_seq() + self.waiting() =~= old(self).replies()
            + old(self).in_flight_seq() + old(self).waiting());
        let result = match outcome {
            CallOutcome::Threw(m) => Err(BridgeError::AnalyzerScriptError(m)),
            CallOutcome::Returned => match response {
                Some(d) => Ok(d),
                None => Err(BridgeError::NoResponse),
            },
        };
        Reply { ticket, result }
    }
}

/// Replies come in order of acceptance: the `k`-th reply delivered answers
/// the `k`-th request accepted. So of two requests accepted in the order
/// `a`, `b`, the reply to `a` is delivered before the reply to `b`, and no
/// request is answered twice.
pub proof fn lemma_replies_in_acceptance_order<T>(h: &Host<T>, a: int, b: int)
    requires
        h.wf(),
        0 <= a < b < h.replies().len(),
    ensures
        h.replies()[a] == a,
        h.replies()[b] == b,
        h.replies()[a] < h.replies()[b],
{
    let all = h.replies() + h.in_flight_seq() + h.waiting();
    assert(all == first_tickets(h.accepted()));
    assert(all[a] == h.replies()[a]);
    assert(all[b] == h.replies()[b]);
    assert(all[a] == a as u64);
    assert(all[b] == b as u64);
}

/// Every accepted request ends in exactly one reply: its ticket is, exactly
/// once, among the replies, the call in flight or the queue; and once the
/// host is idle with an empty queue, every accepted request has its reply.
pub proof fn lemma_reply_closure<T>(h: &Host<T>, t: int)
    requires
        h.wf(),
        0 <= t < h.accepted(),
    ensures
        h.in_flight() is None && h.waiting().len() == 0 ==> h.replies().len() == h.accepted()
            && h.replies()[t] == t,
        (h.replies() + h.in_flight_seq() + h.waiting())[t] == t,
        forall|i: int, j: int|
            0 <= i < j < (h.replies() + h.in_flight_seq() + h.waiting()).len() ==> (h.replies()
                + h.in_flight_seq() + h.waiting())[i] != (h.replies() + h.in_flight_seq()
                + h.waiting())[j],
{
    let all = h.replies() + h.in_flight_seq() + h.waiting();
    assert(all == first_tickets(h.accepted()));
    if h.in_flight() is None && h.waiting().len() == 0 {
        assert(all =~= h.replies());
    }
}

} // verus!
