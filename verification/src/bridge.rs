use vstd::prelude::*;
use crate::point::Point;
use crate::protocol::{
    accept_create, accept_delete, accept_read, accept_update, dispatch, PointError, PointRequest,
    PointResponse,
};
use crate::store::KeyedStore;

verus! {

/// Where one call stands on a bridge. The two capacity-1 channels of the
/// bridge (requests toward the worker, responses back) hold at most one
/// message each, and a call occupies them in turn, so the pair is a single
/// slot moving through these phases. `Closed` is absorbing: the worker has
/// exited (cancellation observed, or a connection or storage failure) and
/// both channels are gone.
#[derive(Clone, Copy, PartialEq, Eq, Structural, Debug)]
pub enum BridgeState {
    /// No call outstanding; the caller may send.
    Idle,
    /// A request sits in the request channel, not yet taken by the worker.
    Requested(PointRequest),
    /// The worker has taken the request and owes its response.
    Serving(PointRequest),
    /// The response to the recorded request sits in the response channel.
    Responded(PointRequest, PointResponse),
    /// The worker has exited and dropped both channels.
    Closed,
}

/// The synchronous-call facade's mailbox discipline: one request slot and one
/// response slot, each of capacity one, shared between a blocking caller and
/// the worker that owns the real asynchronous client. The type records only
/// what the channels hold; the blocking itself is the caller's side of each
/// transition below becoming enabled.
#[derive(Clone, Copy, PartialEq, Eq, Structural, Debug)]
pub struct ActorBridge {
    pub state: BridgeState,
}

impl ActorBridge {
    /// The caller may send only when no call is outstanding in any phase.
    pub open spec fn can_send(self) -> bool {
        self.state is Idle
    }

    /// The request the bridge is committed to answering, in whichever phase.
    pub open spec fn in_flight(self) -> Option<PointRequest> {
        match self.state {
            BridgeState::Requested(req) => Some(req),
            BridgeState::Serving(req) => Some(req),
            BridgeState::Responded(req, _) => Some(req),
            _ => None,
        }
    }

    /// The request-response pair whose response waits in the response slot.
    pub open spec fn pending_answer(self) -> Option<(PointRequest, PointResponse)> {
        match self.state {
            BridgeState::Responded(req, resp) => Some((req, resp)),
            _ => None,
        }
    }

    pub open spec fn is_closed(self) -> bool {
        self.state is Closed
    }

    /// A fresh bridge with both channels empty.
    pub fn new() -> (b: ActorBridge)
        ensures
            b.state == BridgeState::Idle,
    {
        ActorBridge { state: BridgeState::Idle }
    }

    /// The caller offers a request. It is accepted exactly when the request
    /// slot is free and the bridge is alive; otherwise nothing changes (the
    /// real caller blocks at this point until the slot frees, or its send is
    /// dropped by a closed channel).
    pub fn try_send(&mut self, req: PointRequest) -> (ok: bool)
        ensures
            old(self).can_send() ==> ok && final(self).state == BridgeState::Requested(req),
            !old(self).can_send() ==> !ok && *final(self) == *old(self),
    {
        match self.state {
            BridgeState::Idle => {
                self.state = BridgeState::Requested(req);
                true
            },
            _ => false,
        }
    }

    /// The worker's receive, at the moment it returns: the pending request if
    /// one waits, or `None` when the channel is closed. Any other phase would
    /// keep the worker suspended, so those are ruled out here.
    pub fn take(&mut self) -> (r: Option<PointRequest>)
        requires
            old(self).state is Requested || old(self).state is Closed,
        ensures
            old(self).state matches BridgeState::Requested(req) ==> r == Some(req)
                && final(self).state == BridgeState::Serving(req),
            old(self).state is Closed ==> r == None::<PointRequest> && *final(self) == *old(self),
    {
        match self.state {
            BridgeState::Requested(req) => {
                self.state = BridgeState::Serving(req);
                Some(req)
            },
            _ => None,
        }
    }

    /// The worker sends exactly one response for the request it took.
    pub fn respond(&mut self, resp: PointResponse)
        requires
            old(self).state is Serving,
        ensures
            old(self).state matches BridgeState::Serving(req) ==> final(self).state
                == BridgeState::Responded(req, resp),
    {
        match self.state {
            BridgeState::Serving(req) => {
                self.state = BridgeState::Responded(req, resp);
            },
            _ => {},
        }
    }

    /// The caller's receive, at the moment it returns: the waiting response,
    /// or `None` when the worker has exited. Any other phase would keep the
    /// caller blocked, so those are ruled out here.
    pub fn recv(&mut self) -> (r: Option<PointResponse>)
        requires
            old(self).state is Responded || old(self).state is Closed,
        ensures
            old(self).state matches BridgeState::Responded(req, resp) ==> r == Some(resp)
                && final(self).state == BridgeState::Idle,
            old(self).state is Closed ==> r == None::<PointResponse> && *final(self) == *old(self),
    {
        match self.state {
            BridgeState::Responded(_, resp) => {
                self.state = BridgeState::Idle;
                Some(resp)
            },
            _ => None,
        }
    }

    /// The worker exits — it observed the cancellation signal, or its
    /// connection or the remote call failed — dropping both channels.
    pub fn close(&mut self)
        ensures
            final(self).state == BridgeState::Closed,
    {
        self.state = BridgeState::Closed;
    }
}

/// Backpressure law: while a call is outstanding on a bridge, in whichever
/// phase, no further request can be accepted; a caller attempting a second
/// call can only wait until the first call's response has been received.
pub proof fn lemma_bridge_backpressure(b: ActorBridge)
    ensures
        b.in_flight() is Some ==> !b.can_send(),
{
}

/// Ordering law: a response waiting in the response slot answers exactly the
/// one request the bridge is committed to, and until that response is
/// received the next request cannot even be sent. Hence two calls issued
/// sequentially on one bridge get their responses in program order: the
/// second call's request enters only after the first call's response has
/// left.
pub proof fn lemma_bridge_ordering(b: ActorBridge, req: PointRequest, resp: PointResponse)
    ensures
        b.pending_answer() == Some((req, resp)) ==> b.in_flight() == Some(req),
        b.in_flight() is Some ==> !b.can_send(),
{
}

/// A bridge driven end to end within one address space: the caller's send,
/// the worker's service of the request against a keyed store, and the
/// caller's receive, composed sequentially. This is the executable form of
/// one blocking call on the facade; distributing the middle step onto a
/// dedicated worker thread and a remote server changes where the steps run,
/// not what they do.
///
/// A storage failure has no response variant to travel back on, so it ends
/// the worker, and the caller sees `Internal` — as it does for cancellation
/// or a lost connection.
pub struct BridgeSession {
    pub bridge: ActorBridge,
    pub store: KeyedStore,
}

impl BridgeSession {
    /// Between calls the bridge is never mid-flight: idle, or closed for
    /// good.
    pub open spec fn wf(self) -> bool {
        self.bridge.state is Idle || self.bridge.state is Closed
    }

    /// The session accepts further calls.
    pub open spec fn is_open(self) -> bool {
        self.bridge.state is Idle
    }

    /// The entries the backing store holds.
    pub open spec fn contents(self) -> Map<u64, Point> {
        self.store@
    }

    /// Open a session against a store.
    pub fn connect(store: KeyedStore) -> (s: BridgeSession)
        ensures
            s.is_open(),
            s.contents() == store@,
    {
        BridgeSession { bridge: ActorBridge::new(), store }
    }

    /// Drive the worker's half of one call: take the request, serve it
    /// against the store, and send the response — or exit on a storage
    /// failure, dropping the channels. Returns what the caller's blocking
    /// receive then yields.
    fn serve_and_recv(&mut self) -> (r: Option<PointResponse>)
        requires
            old(self).bridge.state is Requested || old(self).bridge.state is Closed,
        ensures
            final(self).wf(),
            old(self).bridge.state is Closed ==> *final(self) == *old(self) && r
                == None::<PointResponse>,
            old(self).bridge.state matches BridgeState::Requested(req) ==> {
                &&& req matches PointRequest::Create(v) ==> (r matches Some(resp) && resp matches
                    PointResponse::Create(id) && final(self).is_open() && final(self).store@ == old(self).store@.insert(id, v))
                &&& req matches PointRequest::Read(id) ==> {
                    &&& final(self).store@ == old(self).store@
                    &&& old(self).store@.contains_key(id) ==> r == Some(
                        PointResponse::Read(old(self).store@[id]),
                    ) && final(self).is_open()
                    &&& !old(self).store@.contains_key(id) ==> r == None::<PointResponse> && final(self).bridge.is_closed()
                }
                &&& req matches PointRequest::Update(id, v) ==> {
                    &&& old(self).store@.contains_key(id) ==> r == Some(PointResponse::Update)
                        && final(self).is_open() && final(self).store@ == old(self).store@.insert(
                        id,
                        v,
                    )
                    &&& !old(self).store@.contains_key(id) ==> r == None::<PointResponse> && final(self).bridge.is_closed() && final(self).store@ == old(self).store@
                }
                &&& req matches PointRequest::Delete(id) ==> r == Some(PointResponse::Delete)
                    && final(self).is_open() && final(self).store@ == old(self).store@.remove(id)
            },
    {
        let taken = self.bridge.take();
        match taken {
            Some(req) => {
                match dispatch(&mut self.store, req) {
                    Ok(resp) => {
                        self.bridge.respond(resp);
                        self.bridge.recv()
                    },
                    Err(_) => {
                        self.bridge.close();
                        self.bridge.recv()
                    },
                }
            },
            None => self.bridge.recv(),
        }
    }

    /// Create through the bridge: one send, one response. On an open session
    /// the new identifier comes back and the store gains exactly that
    /// binding; on a closed one the call fails with `Internal` and nothing
    /// changes.
    pub fn create(&mut self, v: Point) -> (r: Result<u64, PointError>)
        requires
            old(self).wf(),
        ensures
            final(self).wf(),
            old(self).is_open() ==> (r matches Ok(id) && final(self).is_open() && final(self).contents() == old(self).contents().insert(id, v)),
            !old(self).is_open() ==> r == Err::<u64, PointError>(PointError::Internal) && *final(self) == *old(self),
    {
        let _ = self.bridge.try_send(PointRequest::Create(v));
        let resp = self.serve_and_recv();
        accept_create(resp)
    }

    /// Read through the bridge. On an open session a live identifier yields
    /// its value and the session stays open; an absent one ends the worker
    /// (the storage failure has no response variant to ride on), so the
    /// caller sees `Internal` and the session is closed. The store is never
    /// changed.
    pub fn read(&mut self, id: u64) -> (r: Result<Point, PointError>)
        requires
            old(self).wf(),
        ensures
            final(self).wf(),
            final(self).contents() == old(self).contents(),
            old(self).is_open() && old(self).contents().contains_key(id) ==> final(self).is_open()
                && r == Ok::<Point, PointError>(old(self).contents()[id]),
            old(self).is_open() && !old(self).contents().contains_key(id) ==> final(self).bridge.is_closed() && r == Err::<Point, PointError>(PointError::Internal),
            !old(self).is_open() ==> r == Err::<Point, PointError>(PointError::Internal) && *final(self) == *old(self),
    {
        let _ = self.bridge.try_send(PointRequest::Read(id));
        let resp = self.serve_and_recv();
        accept_read(resp)
    }

    /// Update through the bridge: on an open session a live identifier has
    /// its value replaced wholesale; an absent one closes the session as a
    /// read does, leaving the store unchanged.
    pub fn update(&mut self, id: u64, v: Point) -> (r: Result<(), PointError>)
        requires
            old(self).wf(),
        ensures
            final(self).wf(),
            old(self).is_open() && old(self).contents().contains_key(id) ==> final(self).is_open()
                && r == Ok::<(), PointError>(()) && final(self).contents() == old(self).contents().insert(id, v),
            old(self).is_open() && !old(self).contents().contains_key(id) ==> final(self).bridge.is_closed() && r == Err::<(), PointError>(PointError::Internal) && final(self).contents() == old(self).contents(),
            !old(self).is_open() ==> r == Err::<(), PointError>(PointError::Internal) && *final(self) == *old(self),
    {
        let _ = self.bridge.try_send(PointRequest::Update(id, v));
        let resp = self.serve_and_recv();
        accept_update(resp)
    }

    /// Delete through the bridge: on an open session it succeeds whether or
    /// not the identifier was live, and the entry is gone afterwards.
    pub fn delete(&mut self, id: u64) -> (r: Result<(), PointError>)
        requires
            old(self).wf(),
        ensures
            final(self).wf(),
            old(self).is_open() ==> final(self).is_open() && r == Ok::<(), PointError>(()) && final(self).contents() == old(self).contents().remove(id),
            !old(self).is_open() ==> r == Err::<(), PointError>(PointError::Internal) && *final(self) == *old(self),
    {
        let _ = self.bridge.try_send(PointRequest::Delete(id));
        let resp = self.serve_and_recv();
        accept_delete(resp)
    }

    /// The cancellation signal reaches the worker: it exits and drops both
    /// channels. Every later call fails with `Internal`; the store keeps its
    /// entries.
    pub fn cancel(&mut self)
        ensures
            final(self).bridge.is_closed(),
            final(self).contents() == old(self).contents(),
    {
        self.bridge.close();
    }
}

} // verus!
