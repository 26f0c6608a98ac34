use vstd::prelude::*;

use crate::TransferDescriptor;
use crate::event::{Event, EventV};
use crate::outcome::{spec_stringify, stringify};
use crate::sender::{progress_only, SendSession};

verus! {

/// The states of one receive session, in protocol order, ending in exactly
/// one of the three terminal states.
#[derive(Clone, Copy, PartialEq, Eq, Structural, Debug)]
pub enum ReceivePhase {
    Idle,
    RendezvousConnecting,
    WelcomeReceived,
    OfferReceived,
    Connected,
    Transferring,
    Completed,
    Cancelled,
    Failed,
}

/// The file payload a successful receive session returns: the received
/// bytes together with the offered name and size. Owned exclusively by the
/// caller once returned.
pub struct ReceiveResult {
    pub data: Vec<u8>,
    pub filename: String,
    pub filesize: u64,
}

/// Mathematical model of a `ReceiveResult`.
pub struct ReceiveResultV {
    pub data: Seq<u8>,
    pub filename: Seq<char>,
    pub filesize: u64,
}

impl View for ReceiveResult {
    type V = ReceiveResultV;

    open spec fn view(&self) -> ReceiveResultV {
        ReceiveResultV { data: self.data@, filename: self.filename@, filesize: self.filesize }
    }
}

/// The single outcome of one receive session: exactly one of the received
/// file, cancellation, or an opaque error string.
pub enum ReceiveOutcome {
    Completed(ReceiveResult),
    Cancelled,
    Failed(String),
}

/// One receive session: the decision core of the receiver orchestrator,
/// keyed by a caller-supplied pairing code. The host drives it by reporting
/// the result of each collaborator operation; the session answers with the
/// milestone event to emit, records the emitted trace, and settles on
/// exactly one terminal outcome.
pub struct ReceiveSession {
    pub phase: ReceivePhase,
    /// The pairing code this session was invoked with.
    pub pairing_code: String,
    /// The rendezvous service's welcome text, once received (empty if the
    /// service provided none).
    pub welcome: Option<String>,
    /// The offered file's name and size, once the offer was received.
    pub offer: Option<TransferDescriptor>,
    /// The projected error message; present exactly in the `Failed` phase.
    pub error: Option<String>,
    /// The milestone events emitted so far, in emission order.
    pub events: Ghost<Seq<EventV>>,
    /// The returned result; present exactly once the session has completed.
    pub result: Ghost<Option<ReceiveResultV>>,
}

impl ReceiveSession {
    /// The emitted trace is a prefix of the receiver's milestone order:
    /// `ServerWelcome`, then `FileMetadata`, then `ConnectedToRelay`, then
    /// only `Progress` events.
    pub open spec fn trace_ok(self) -> bool {
        let t = self.events@;
        ||| t.len() == 0
        ||| {
            &&& self.welcome matches Some(w)
            &&& t[0] == (EventV::ServerWelcome { message: w@ })
            &&& (t.len() == 1 || {
                &&& self.offer matches Some(d)
                &&& t[1] == (EventV::FileMetadata {
                    file_name: d.file_name@,
                    file_size: d.file_size,
                })
                &&& (t.len() == 2 || {
                    &&& t[2] == EventV::ConnectedToRelay
                    &&& progress_only(t.skip(3), d.file_size)
                })
            })
        }
    }

    /// No further transitions happen from a terminal phase.
    pub open spec fn is_terminal(self) -> bool {
        self.phase is Completed || self.phase is Cancelled || self.phase is Failed
    }

    /// Session invariant: the error field is set exactly in the `Failed`
    /// phase, a result exists exactly in the `Completed` phase and carries
    /// the offered name and size, and the emitted trace has the shape that
    /// the current phase demands.
    pub open spec fn wf(self) -> bool {
        &&& self.trace_ok()
        &&& (!(self.phase is Completed) ==> self.result@ is None)
        &&& match self.phase {
            ReceivePhase::Idle | ReceivePhase::RendezvousConnecting => self.events@.len() == 0
                && self.welcome is None && self.offer is None && self.error is None,
            ReceivePhase::WelcomeReceived => self.events@.len() == 1 && self.offer is None
                && self.error is None,
            ReceivePhase::OfferReceived => self.events@.len() == 2 && self.error is None,
            ReceivePhase::Connected => self.events@.len() == 3 && self.error is None,
            ReceivePhase::Transferring => self.events@.len() >= 4 && self.error is None,
            ReceivePhase::Completed => self.error is None && ({
                &&& self.offer matches Some(d)
                &&& self.result@ matches Some(r)
                &&& r.filename == d.file_name@
                &&& r.filesize == d.file_size
            }),
            ReceivePhase::Cancelled => self.error is None,
            ReceivePhase::Failed => self.error is Some,
        }
    }

    /// Opens a receive session for the given pairing code.
    pub fn new(pairing_code: String) -> (s: ReceiveSession)
        ensures
            s.wf(),
            s.phase == ReceivePhase::Idle,
            s.pairing_code@ == pairing_code@,
            s.events@ == Seq::<EventV>::empty(),
    {
        ReceiveSession {
            phase: ReceivePhase::Idle,
            pairing_code,
            welcome: None,
            offer: None,
            error: None,
            events: Ghost(Seq::empty()),
            result: Ghost(None),
        }
    }

    /// Begins the session: the host is about to open the rendezvous
    /// connection with the supplied pairing code.
    pub fn start(&mut self)
        requires
            old(self).wf(),
            old(self).phase == ReceivePhase::Idle,
        ensures
            final(self).wf(),
            (*final(self)) == (ReceiveSession {
                phase: ReceivePhase::RendezvousConnecting,
                ..*old(self)
            }),
    {
        self.phase = ReceivePhase::RendezvousConnecting;
    }

    /// The rendezvous connection finished. On success the service's welcome
    /// text — empty if it provided none — is emitted as the `ServerWelcome`
    /// milestone; on failure (for instance an unknown or expired code) the
    /// session fails with the projected error before any event is emitted.
    pub fn on_rendezvous(&mut self, r: Result<Option<String>, String>) -> (ev: Option<Event>)
        requires
            old(self).wf(),
            old(self).phase == ReceivePhase::RendezvousConnecting,
        ensures
            final(self).wf(),
            final(self).pairing_code == old(self).pairing_code,
            final(self).offer is None,
            match r {
                Ok(w) => {
                    &&& final(self).phase == ReceivePhase::WelcomeReceived
                    &&& final(self).welcome matches Some(wt) && wt@ == (match w {
                        Some(text) => text@,
                        None => Seq::<char>::empty(),
                    })
                    &&& ev matches Some(e) && e@ == (EventV::ServerWelcome {
                        message: final(self).welcome->Some_0@,
                    })
                    &&& final(self).events@ == old(self).events@.push(
                        EventV::ServerWelcome { message: final(self).welcome->Some_0@ },
                    )
                },
                Err(e) => {
                    &&& final(self).phase == ReceivePhase::Failed
                    &&& final(self).events@ == old(self).events@
                    &&& ev is None
                    &&& final(self).error matches Some(m) && m@ == spec_stringify(e@)
                },
            },
    {
        match r {
            Ok(w) => {
                self.phase = ReceivePhase::WelcomeReceived;
                let text = match w {
                    Some(text) => text,
                    None => String::new(),
                };
                self.welcome = Some(text.clone());
                let e = crate::event::server_welcome(text);
                proof {
                    self.events@ = self.events@.push(e@);
                }
                Some(e)
            },
            Err(e) => {
                self.phase = ReceivePhase::Failed;
                self.error = Some(stringify(e.as_str()));
                None
            },
        }
    }

    /// The request for the file offer finished. An offer yields the
    /// `FileMetadata` milestone; a collaborator that reports no offer fails
    /// the session, surfacing an empty message; a collaborator error fails
    /// it with the projected error.
    pub fn on_offer(&mut self, r: Result<Option<TransferDescriptor>, String>) -> (ev: Option<
        Event,
    >)
        requires
            old(self).wf(),
            old(self).phase == ReceivePhase::WelcomeReceived,
        ensures
            final(self).wf(),
            final(self).pairing_code == old(self).pairing_code,
            final(self).welcome == old(self).welcome,
            match r {
                Ok(offer) => match offer {
                    Some(d) => {
                        &&& final(self).phase == ReceivePhase::OfferReceived
                        &&& final(self).offer matches Some(held) && held.file_name@
                            == d.file_name@ && held.file_size == d.file_size
                        &&& ev matches Some(e) && e@ == (EventV::FileMetadata {
                            file_name: d.file_name@,
                            file_size: d.file_size,
                        })
                        &&& final(self).events@ == old(self).events@.push(
                            EventV::FileMetadata {
                                file_name: d.file_name@,
                                file_size: d.file_size,
                            },
                        )
                    },
                    None => {
                        &&& final(self).phase == ReceivePhase::Failed
                        &&& final(self).events@ == old(self).events@
                        &&& ev is None
                        &&& final(self).error matches Some(m) && m@ == Seq::<char>::empty()
                    },
                },
                Err(e) => {
                    &&& final(self).phase == ReceivePhase::Failed
                    &&& final(self).events@ == old(self).events@
                    &&& ev is None
                    &&& final(self).error matches Some(m) && m@ == spec_stringify(e@)
                },
            },
    {
        match r {
            Ok(Some(d)) => {
                self.phase = ReceivePhase::OfferReceived;
                let name = d.file_name.clone();
                let size = d.file_size;
                self.offer = Some(d);
                let e = crate::event::file_metadata(name, size);
                proof {
                    self.events@ = self.events@.push(e@);
                }
                Some(e)
            },
            Ok(None) => {
                self.phase = ReceivePhase::Failed;
                self.error = Some(String::new());
                None
            },
            Err(e) => {
                self.phase = ReceivePhase::Failed;
                self.error = Some(stringify(e.as_str()));
                None
            },
        }
    }

    /// The transit collaborator signalled a negotiated channel: emit the
    /// `ConnectedToRelay` milestone.
    pub fn on_connected(&mut self) -> (ev: Event)
        requires
            old(self).wf(),
            old(self).phase == ReceivePhase::OfferReceived,
        ensures
            final(self).wf(),
            final(self).phase == ReceivePhase::Connected,
            ev@ == EventV::ConnectedToRelay,
            final(self).events@ == old(self).events@.push(EventV::ConnectedToRelay),
            final(self).pairing_code == old(self).pairing_code,
            final(self).welcome == old(self).welcome,
            final(self).offer == old(self).offer,
            final(self).error is None,
    {
        self.phase = ReceivePhase::Connected;
        let e = crate::event::connected();
        proof {
            self.events@ = self.events@.push(e@);
        }
        e
    }

    /// Forwards one progress callback invocation from the collaborator as a
    /// `Progress` event; every invocation is forwarded, none is deduplicated
    /// or rate-limited. A conformant collaborator reports `current <= total`
    /// with the offered file size as the total.
    pub fn on_progress(&mut self, current: u64, total: u64) -> (ev: Event)
        requires
            old(self).wf(),
            old(self).phase == ReceivePhase::Connected || old(self).phase
                == ReceivePhase::Transferring,
            current <= total,
            old(self).offer matches Some(d) && total == d.file_size,
        ensures
            final(self).wf(),
            final(self).phase == ReceivePhase::Transferring,
            ev@ == (EventV::Progress { current, total }),
            final(self).events@ == old(self).events@.push(EventV::Progress { current, total }),
            final(self).pairing_code == old(self).pairing_code,
            final(self).welcome == old(self).welcome,
            final(self).offer == old(self).offer,
            final(self).error is None,
    {
        self.phase = ReceivePhase::Transferring;
        let e = crate::event::progress(current, total);
        proof {
            let t = old(self).events@;
            assert(t.push(e@).skip(3) =~= t.skip(3).push(e@));
            self.events@ = t.push(e@);
        }
        e
    }

    /// The accept operation returned: on success the session completes and
    /// returns the received bytes together with the offered name and size;
    /// on failure it fails with the projected error. The returned outcome is
    /// the session's single result.
    pub fn on_stream_done(&mut self, r: Result<Vec<u8>, String>) -> (out: ReceiveOutcome)
        requires
            old(self).wf(),
            old(self).phase == ReceivePhase::OfferReceived || old(self).phase
                == ReceivePhase::Connected || old(self).phase == ReceivePhase::Transferring,
        ensures
            final(self).wf(),
            final(self).events@ == old(self).events@,
            final(self).pairing_code == old(self).pairing_code,
            final(self).welcome == old(self).welcome,
            final(self).offer == old(self).offer,
            match r {
                Ok(data) => {
                    &&& final(self).phase == ReceivePhase::Completed
                    &&& old(self).offer matches Some(d)
                    &&& out matches ReceiveOutcome::Completed(res) && res@
                        == (ReceiveResultV {
                        data: data@,
                        filename: d.file_name@,
                        filesize: d.file_size,
                    })
                    &&& final(self).result@ matches Some(rv) && rv == (ReceiveResultV {
                        data: data@,
                        filename: d.file_name@,
                        filesize: d.file_size,
                    })
                },
                Err(e) => {
                    &&& final(self).phase == ReceivePhase::Failed
                    &&& final(self).error matches Some(m) && m@ == spec_stringify(e@)
                    &&& out matches ReceiveOutcome::Failed(m2) && m2@ == spec_stringify(e@)
                },
            },
    {
        match r {
            Ok(data) => {
                self.phase = ReceivePhase::Completed;
                let (filename, filesize): (String, u64) = match &self.offer {
                    Some(d) => (d.file_name.clone(), d.file_size),
                    None => vstd::pervasive::unreached(),
                };
                let res = ReceiveResult { data, filename, filesize };
                proof {
                    self.result@ = Some(res@);
                }
                ReceiveOutcome::Completed(res)
            },
            Err(e) => {
                self.phase = ReceivePhase::Failed;
                let m = stringify(e.as_str());
                self.error = Some(m.clone());
                ReceiveOutcome::Failed(m)
            },
        }
    }

    /// Observes the cancellation signal at a suspension point: in any
    /// non-terminal phase the session moves to `Cancelled` without emitting
    /// any further event. Once a terminal phase is reached, resolving the
    /// signal has no observable effect: there is no second terminal
    /// transition.
    pub fn cancel(&mut self)
        requires
            old(self).wf(),
        ensures
            final(self).wf(),
            old(self).is_terminal() ==> (*final(self)) == (*old(self)),
            !old(self).is_terminal() ==> (*final(self)) == (ReceiveSession {
                phase: ReceivePhase::Cancelled,
                ..*old(self)
            }),
    {
        match self.phase {
            ReceivePhase::Completed | ReceivePhase::Cancelled | ReceivePhase::Failed => {},
            _ => {
                self.phase = ReceivePhase::Cancelled;
            },
        }
    }

    /// The session's outcome after a cancellation or a failure. (A completed
    /// session's outcome, carrying the received file, is returned by
    /// `on_stream_done`.)
    pub fn outcome(&self) -> (out: ReceiveOutcome)
        requires
            self.wf(),
            self.phase == ReceivePhase::Cancelled || self.phase == ReceivePhase::Failed,
        ensures
            self.phase == ReceivePhase::Cancelled ==> out is Cancelled,
            self.phase == ReceivePhase::Failed ==> (out matches ReceiveOutcome::Failed(m)
                && self.error matches Some(em) && m@ == em@),
    {
        match self.phase {
            ReceivePhase::Cancelled => ReceiveOutcome::Cancelled,
            _ => match &self.error {
                Some(m) => ReceiveOutcome::Failed(m.clone()),
                None => vstd::pervasive::unreached(),
            },
        }
    }
}

/// Event-order law for receive sessions: the emitted trace is always a
/// prefix of `ServerWelcome, FileMetadata, ConnectedToRelay, Progress*`.
/// Each milestone only ever stands at its one position — so each is emitted
/// at most once — every `Progress` event comes after all three, and the
/// sender-side `Code` milestone never appears.
pub proof fn lemma_receive_event_order(s: ReceiveSession)
    requires
        s.wf(),
    ensures
        forall|i: int|
            0 <= i < s.events@.len() && (#[trigger] s.events@[i]) is ServerWelcome ==> i == 0,
        forall|i: int|
            0 <= i < s.events@.len() && (#[trigger] s.events@[i]) is FileMetadata ==> i == 1,
        forall|i: int|
            0 <= i < s.events@.len() && (#[trigger] s.events@[i]) is ConnectedToRelay ==> i
                == 2,
        forall|i: int|
            0 <= i < s.events@.len() && (#[trigger] s.events@[i]) is Progress ==> i >= 3,
        forall|i: int| 0 <= i < s.events@.len() ==> !((#[trigger] s.events@[i]) is Code),
{
    let t = s.events@;
    assert forall|i: int| 3 <= i < t.len() implies (#[trigger] t[i]) is Progress by {
        assert(t[i] == t.skip(3)[i - 3]);
        assert(s.offer matches Some(d) && progress_only(t.skip(3), d.file_size));
    }
}

/// Progress law for receive sessions: every emitted `Progress` event
/// satisfies `current <= total`, and the total is the same in all of them —
/// the offered file size.
pub proof fn lemma_receive_progress_invariant(s: ReceiveSession)
    requires
        s.wf(),
    ensures
        forall|i: int|
            0 <= i < s.events@.len() ==> ((#[trigger] s.events@[i]) matches EventV::Progress {
                current,
                total,
            } ==> ({
                &&& current <= total
                &&& s.offer matches Some(d)
                &&& total == d.file_size
            })),
{
    let t = s.events@;
    assert forall|i: int|
        0 <= i < t.len() && (#[trigger] t[i]) is Progress implies ({
        &&& t[i]->Progress_current <= t[i]->Progress_total
        &&& s.offer matches Some(d)
        &&& t[i]->Progress_total == d.file_size
    }) by {
        lemma_receive_event_order(s);
        assert(t[i] == t.skip(3)[i - 3]);
        assert(s.offer matches Some(d) && progress_only(t.skip(3), d.file_size));
    }
}

/// Cancellation-race law for receive sessions: in every phase before transit
/// negotiation has completed, the emitted trace holds no `ConnectedToRelay`
/// and no `Progress` event. Since `cancel` moves such a session to
/// `Cancelled` with the trace unchanged, a cancellation that wins the race
/// ends the session with neither event ever emitted.
pub proof fn lemma_cancel_before_transit(s: ReceiveSession)
    requires
        s.wf(),
        s.phase == ReceivePhase::Idle || s.phase == ReceivePhase::RendezvousConnecting
            || s.phase == ReceivePhase::WelcomeReceived || s.phase
            == ReceivePhase::OfferReceived,
    ensures
        forall|i: int|
            0 <= i < s.events@.len() ==> !((#[trigger] s.events@[i]) is ConnectedToRelay)
                && !(s.events@[i] is Progress),
{
    assert(s.events@.len() <= 2);
}

/// Round-trip integrity: when a collaborator pair relays a send session's
/// offer and payload faithfully — the receiver's offer carries the sender's
/// declared name and size, and the delivered bytes are the sender's payload —
/// the completed receive session's result reproduces the sender's file
/// exactly: same bytes, same name, and a size equal to the payload's length.
pub proof fn lemma_round_trip(snd: SendSession, rcv: ReceiveSession)
    requires
        snd.wf(),
        rcv.wf(),
        snd.file matches Some(f),
        rcv.phase is Completed,
        rcv.offer matches Some(d) && d.file_name@ == snd.file->Some_0.name@ && d.file_size
            == snd.file_size,
        rcv.result@ matches Some(r) && r.data == snd.file->Some_0.data@,
    ensures
        rcv.result@ matches Some(r) && r.data == snd.file->Some_0.data@ && r.filename
            == snd.file->Some_0.name@ && r.filesize == snd.file_size && r.filesize
            == snd.file->Some_0.data@.len(),
{
}

} // verus!
