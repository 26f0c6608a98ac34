use vstd::prelude::*;

use crate::event::{Event, EventV};
use crate::outcome::{spec_stringify, stringify};

verus! {

/// The file a sender was invoked with: its display name and its full
/// contents, read from the caller's source before the session starts.
pub struct FilePayload {
    pub name: String,
    pub data: Vec<u8>,
}

/// The states of one send session, in protocol order, ending in exactly one
/// of the three terminal states.
#[derive(Clone, Copy, PartialEq, Eq, Structural, Debug)]
pub enum SendPhase {
    Idle,
    RendezvousConnecting,
    CodeIssued,
    TransitNegotiating,
    Connected,
    Transferring,
    Completed,
    Cancelled,
    Failed,
}

/// The single outcome of one send session: exactly one of success,
/// cancellation, or an opaque error string.
pub enum SendOutcome {
    Completed,
    Cancelled,
    Failed(String),
}

/// Every event of `t` is a `Progress` event with `current <= total` and with
/// the given constant total.
pub open spec fn progress_only(t: Seq<EventV>, total: u64) -> bool {
    forall|i: int|
        0 <= i < t.len() ==> ({
            &&& (#[trigger] t[i]) matches EventV::Progress { current, total: reported }
            &&& current <= reported
            &&& reported == total
        })
}

/// One send session: the decision core of the sender orchestrator. The host
/// drives it by reporting the result of each collaborator operation; the
/// session answers with the milestone event to emit, records the emitted
/// trace, and settles on exactly one terminal outcome.
pub struct SendSession {
    pub phase: SendPhase,
    /// The selected file, if any; `None` models an empty selection.
    pub file: Option<FilePayload>,
    /// Declared length of the payload, as handed to the transit collaborator.
    pub file_size: u64,
    /// The pairing code issued by the rendezvous service, once received.
    pub pairing_code: Option<String>,
    /// The projected error message; present exactly in the `Failed` phase.
    pub error: Option<String>,
    /// The milestone events emitted so far, in emission order.
    pub events: Ghost<Seq<EventV>>,
}

impl SendSession {
    /// The emitted trace is a prefix of the sender's milestone order:
    /// `Code`, then `ConnectedToRelay`, then only `Progress` events.
    pub open spec fn trace_ok(self) -> bool {
        let t = self.events@;
        ||| t.len() == 0
        ||| {
            &&& self.pairing_code matches Some(c)
            &&& t[0] == (EventV::Code { code: c@ })
            &&& (t.len() == 1 || {
                &&& t[1] == EventV::ConnectedToRelay
                &&& progress_only(t.skip(2), self.file_size)
            })
        }
    }

    /// No further transitions happen from a terminal phase.
    pub open spec fn is_terminal(self) -> bool {
        self.phase is Completed || self.phase is Cancelled || self.phase is Failed
    }

    /// Session invariant: the declared length matches the payload, the error
    /// field is set exactly in the `Failed` phase, and the emitted trace has
    /// the shape that the current phase demands.
    pub open spec fn wf(self) -> bool {
        &&& (self.file matches Some(f) ==> self.file_size == f.data@.len())
        &&& self.trace_ok()
        &&& match self.phase {
            SendPhase::Idle => self.events@.len() == 0 && self.pairing_code is None
                && self.error is None && self.file is Some,
            SendPhase::RendezvousConnecting => self.events@.len() == 0
                && self.pairing_code is None && self.error is None && self.file is Some,
            SendPhase::CodeIssued | SendPhase::TransitNegotiating => self.events@.len() == 1
                && self.error is None && self.file is Some,
            SendPhase::Connected => self.events@.len() == 2 && self.error is None
                && self.file is Some,
            SendPhase::Transferring => self.events@.len() >= 3 && self.error is None
                && self.file is Some,
            SendPhase::Completed => self.error is None,
            SendPhase::Cancelled => self.error is None,
            SendPhase::Failed => self.error is Some,
        }
    }

    /// Opens a send session. An empty selection fails immediately, before any
    /// network activity and with no event emitted; otherwise the session is
    /// idle, holding the payload and its declared length.
    pub fn new(file: Option<FilePayload>) -> (s: SendSession)
        ensures
            s.wf(),
            s.events@ == Seq::<EventV>::empty(),
            match file {
                Some(f) => {
                    &&& s.phase == SendPhase::Idle
                    &&& s.file matches Some(g) && g.name@ == f.name@ && g.data@ == f.data@
                    &&& s.file_size == f.data@.len()
                },
                None => {
                    &&& s.phase == SendPhase::Failed
                    &&& s.file is None
                    &&& s.error matches Some(m) && m@ == "no file selected"@
                },
            },
    {
        match file {
            Some(f) => {
                let size: u64 = f.data.len() as u64;
                SendSession {
                    phase: SendPhase::Idle,
                    file: Some(f),
                    file_size: size,
                    pairing_code: None,
                    error: None,
                    events: Ghost(Seq::empty()),
                }
            },
            None => SendSession {
                phase: SendPhase::Failed,
                file: None,
                file_size: 0,
                pairing_code: None,
                error: Some(String::from_str("no file selected")),
                events: Ghost(Seq::empty()),
            },
        }
    }

    /// Begins the session: the host is about to open the rendezvous
    /// connection, declaring a party size of two.
    pub fn start(&mut self)
        requires
            old(self).wf(),
            old(self).phase == SendPhase::Idle,
        ensures
            final(self).wf(),
            (*final(self)) == (SendSession {
                phase: SendPhase::RendezvousConnecting,
                ..*old(self)
            }),
    {
        self.phase = SendPhase::RendezvousConnecting;
    }

    /// The rendezvous connection finished. On success the service issued a
    /// pairing code, which is emitted as the `Code` milestone — before any
    /// transit activity, so the caller can share it at once; on failure the
    /// session fails with the projected error and emits nothing.
    pub fn on_rendezvous(&mut self, r: Result<String, String>) -> (ev: Option<Event>)
        requires
            old(self).wf(),
            old(self).phase == SendPhase::RendezvousConnecting,
        ensures
            final(self).wf(),
            final(self).file == old(self).file,
            final(self).file_size == old(self).file_size,
            match r {
                Ok(issued) => {
                    &&& final(self).phase == SendPhase::CodeIssued
                    &&& final(self).pairing_code matches Some(c) && c@ == issued@
                    &&& ev matches Some(e) && e@ == (EventV::Code { code: issued@ })
                    &&& final(self).events@ == old(self).events@.push(
                        EventV::Code { code: issued@ },
                    )
                },
                Err(e) => {
                    &&& final(self).phase == SendPhase::Failed
                    &&& final(self).events@ == old(self).events@
                    &&& ev is None
                    &&& final(self).error matches Some(m) && m@ == spec_stringify(e@)
                },
            },
    {
        match r {
            Ok(issued) => {
                self.phase = SendPhase::CodeIssued;
                self.pairing_code = Some(issued.clone());
                let e = crate::event::code(issued);
                proof {
                    self.events@ = self.events@.push(e@);
                }
                Some(e)
            },
            Err(e) => {
                self.phase = SendPhase::Failed;
                self.error = Some(stringify(e.as_str()));
                None
            },
        }
    }

    /// The wait for the peer's arrival finished. On success the collaborator
    /// produced an authenticated session handle and transit negotiation
    /// begins; no event is emitted either way.
    pub fn on_peer(&mut self, r: Result<(), String>)
        requires
            old(self).wf(),
            old(self).phase == SendPhase::CodeIssued,
        ensures
            final(self).wf(),
            final(self).events@ == old(self).events@,
            final(self).file == old(self).file,
            final(self).file_size == old(self).file_size,
            final(self).pairing_code == old(self).pairing_code,
            match r {
                Ok(_) => final(self).phase == SendPhase::TransitNegotiating
                    && final(self).error is None,
                Err(e) => final(self).phase == SendPhase::Failed
                    && (final(self).error matches Some(m) && m@ == spec_stringify(e@)),
            },
    {
        match r {
            Ok(_) => {
                self.phase = SendPhase::TransitNegotiating;
            },
            Err(e) => {
                self.phase = SendPhase::Failed;
                self.error = Some(stringify(e.as_str()));
            },
        }
    }

    /// The transit collaborator signalled a negotiated channel: emit the
    /// `ConnectedToRelay` milestone.
    pub fn on_connected(&mut self) -> (ev: Event)
        requires
            old(self).wf(),
            old(self).phase == SendPhase::TransitNegotiating,
        ensures
            final(self).wf(),
            final(self).phase == SendPhase::Connected,
            ev@ == EventV::ConnectedToRelay,
            final(self).events@ == old(self).events@.push(EventV::ConnectedToRelay),
            final(self).file == old(self).file,
            final(self).file_size == old(self).file_size,
            final(self).pairing_code == old(self).pairing_code,
            final(self).error is None,
    {
        self.phase = SendPhase::Connected;
        let e = crate::event::connected();
        proof {
            self.events@ = self.events@.push(e@);
        }
        e
    }

    /// Forwards one progress callback invocation from the collaborator as a
    /// `Progress` event; every invocation is forwarded, none is deduplicated
    /// or rate-limited. A conformant collaborator reports `current <= total`
    /// with the declared payload length as the total.
    pub fn on_progress(&mut self, current: u64, total: u64) -> (ev: Event)
        requires
            old(self).wf(),
            old(self).phase == SendPhase::Connected || old(self).phase
                == SendPhase::Transferring,
            current <= total,
            total == old(self).file_size,
        ensures
            final(self).wf(),
            final(self).phase == SendPhase::Transferring,
            ev@ == (EventV::Progress { current, total }),
            final(self).events@ == old(self).events@.push(EventV::Progress { current, total }),
            final(self).file == old(self).file,
            final(self).file_size == old(self).file_size,
            final(self).pairing_code == old(self).pairing_code,
            final(self).error is None,
    {
        self.phase = SendPhase::Transferring;
        let e = crate::event::progress(current, total);
        proof {
            let t = old(self).events@;
            assert(t.push(e@).skip(2) =~= t.skip(2).push(e@));
            self.events@ = t.push(e@);
        }
        e
    }

    /// The collaborator's send operation returned: on success the session
    /// completes; on failure it fails with the projected error. The returned
    /// outcome is the session's single result.
    pub fn on_send_done(&mut self, r: Result<(), String>) -> (out: SendOutcome)
        requires
            old(self).wf(),
            old(self).phase == SendPhase::TransitNegotiating || old(self).phase
                == SendPhase::Connected || old(self).phase == SendPhase::Transferring,
        ensures
            final(self).wf(),
            final(self).events@ == old(self).events@,
            final(self).file == old(self).file,
            final(self).file_size == old(self).file_size,
            final(self).pairing_code == old(self).pairing_code,
            match r {
                Ok(_) => final(self).phase == SendPhase::Completed
                    && out == SendOutcome::Completed,
                Err(e) => {
                    &&& final(self).phase == SendPhase::Failed
                    &&& final(self).error matches Some(m) && m@ == spec_stringify(e@)
                    &&& out matches SendOutcome::Failed(m2) && m2@ == spec_stringify(e@)
                },
            },
    {
        match r {
            Ok(_) => {
                self.phase = SendPhase::Completed;
                SendOutcome::Completed
            },
            Err(e) => {
                self.phase = SendPhase::Failed;
                let m = stringify(e.as_str());
                self.error = Some(m.clone());
                SendOutcome::Failed(m)
            },
        }
    }

    /// Observes the cancellation signal at a suspension point: in any
    /// non-terminal phase the session moves to `Cancelled` without emitting
    /// any further event. Once a terminal phase is reached, resolving the
    /// signal has no observable effect: there is no second terminal
    /// transition.
    pub fn cancel(&mut self)
        requires
            old(self).wf(),
        ensures
            final(self).wf(),
            old(self).is_terminal() ==> (*final(self)) == (*old(self)),
            !old(self).is_terminal() ==> (*final(self)) == (SendSession {
                phase: SendPhase::Cancelled,
                ..*old(self)
            }),
    {
        match self.phase {
            SendPhase::Completed | SendPhase::Cancelled | SendPhase::Failed => {},
            _ => {
                self.phase = SendPhase::Cancelled;
            },
        }
    }

    /// The session's single terminal outcome: success, cancellation, or the
    /// projected error string — exactly one of the three, per invocation.
    pub fn outcome(&self) -> (out: SendOutcome)
        requires
            self.wf(),
            self.is_terminal(),
        ensures
            self.phase == SendPhase::Completed ==> out == SendOutcome::Completed,
            self.phase == SendPhase::Cancelled ==> out == SendOutcome::Cancelled,
            self.phase == SendPhase::Failed ==> (out matches SendOutcome::Failed(m)
                && self.error matches Some(em) && m@ == em@),
    {
        match self.phase {
            SendPhase::Completed => SendOutcome::Completed,
            SendPhase::Cancelled => SendOutcome::Cancelled,
            _ => match &self.error {
                Some(m) => SendOutcome::Failed(m.clone()),
                None => vstd::pervasive::unreached(),
            },
        }
    }
}

/// Event-order law for send sessions: the emitted trace is always a prefix of
/// `Code, ConnectedToRelay, Progress*`. `Code` only ever stands first,
/// `ConnectedToRelay` only ever second — so each milestone is emitted at most
/// once — every `Progress` event comes after both, and the receiver-side
/// milestones never appear.
pub proof fn lemma_send_event_order(s: SendSession)
    requires
        s.wf(),
    ensures
        forall|i: int|
            0 <= i < s.events@.len() && (#[trigger] s.events@[i]) is Code ==> i == 0,
        forall|i: int|
            0 <= i < s.events@.len() && (#[trigger] s.events@[i]) is ConnectedToRelay ==> i
                == 1,
        forall|i: int|
            0 <= i < s.events@.len() && (#[trigger] s.events@[i]) is Progress ==> i >= 2,
        forall|i: int|
            0 <= i < s.events@.len() ==> !((#[trigger] s.events@[i]) is ServerWelcome)
                && !(s.events@[i] is FileMetadata),
{
    let t = s.events@;
    assert forall|i: int| 2 <= i < t.len() implies (#[trigger] t[i]) is Progress by {
        assert(t[i] == t.skip(2)[i - 2]);
        assert(progress_only(t.skip(2), s.file_size));
    }
}

/// Progress law for send sessions: every emitted `Progress` event satisfies
/// `current <= total`, and the total is the same in all of them — the
/// sender's declared payload length.
pub proof fn lemma_send_progress_invariant(s: SendSession)
    requires
        s.wf(),
    ensures
        forall|i: int|
            0 <= i < s.events@.len() ==> ((#[trigger] s.events@[i]) matches EventV::Progress {
                current,
                total,
            } ==> current <= total && total == s.file_size),
{
    let t = s.events@;
    assert forall|i: int|
        0 <= i < t.len() && (#[trigger] t[i]) is Progress implies (t[i]->Progress_current
        <= t[i]->Progress_total && t[i]->Progress_total == s.file_size) by {
        lemma_send_event_order(s);
        assert(t[i] == t.skip(2)[i - 2]);
        assert(progress_only(t.skip(2), s.file_size));
    }
}

/// Cancellation-race law for send sessions: in every phase before transit
/// negotiation has completed, the emitted trace holds no `ConnectedToRelay`
/// and no `Progress` event. Since `cancel` moves such a session to
/// `Cancelled` with the trace unchanged, a cancellation that wins the race
/// ends the session with neither event ever emitted.
pub proof fn lemma_cancel_before_transit(s: SendSession)
    requires
        s.wf(),
        s.phase == SendPhase::Idle || s.phase == SendPhase::RendezvousConnecting || s.phase
            == SendPhase::CodeIssued || s.phase == SendPhase::TransitNegotiating,
    ensures
        forall|i: int|
            0 <= i < s.events@.len() ==> !((#[trigger] s.events@[i]) is ConnectedToRelay)
                && !(s.events@[i] is Progress),
{
    assert(s.events@.len() <= 1);
}

} // verus!
