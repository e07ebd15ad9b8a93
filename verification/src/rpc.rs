//! The RPC client: builds outgoing notifications and requests, assigns
//! correlation ids, and keeps the table of in-flight requests so each
//! response resolves its completion exactly once.

use vstd::prelude::*;
use std::collections::HashMap;
use crate::protocol::{notification_string, notification_text, request_string, request_text};
use crate::transport::XiPeer;

verus! {

broadcast use vstd::std_specs::hash::group_hash_axioms;

/// What a request, once answered, asks the caller to do with the response.
/// Held in the pending-request table under the request's correlation id,
/// and handed back exactly once when the matching response arrives.
pub enum PendingRequest {
    /// A `new_view` request: on completion the response carries the
    /// core-assigned view id for the given file, if any.
    NewView { filename: Option<String> },
}

/// The client side of the request/notification/response protocol. Each
/// outstanding request id is independent; ids grow monotonically and are
/// never reused.
pub struct Core {
    peer: XiPeer,
    next_id: u64,
    pending: HashMap<u64, PendingRequest>,
}

impl Core {
    /// Every message handed to the transport so far, oldest first.
    pub closed spec fn sent(&self) -> Seq<Seq<char>> {
        self.peer@
    }

    /// The correlation id the next request will take.
    pub closed spec fn next_id_spec(&self) -> u64 {
        self.next_id
    }

    /// The in-flight requests: correlation id to registered completion.
    pub closed spec fn pending_spec(&self) -> Map<u64, PendingRequest> {
        self.pending@
    }

    pub fn new(peer: XiPeer) -> (c: Core)
        ensures
            c.sent() == peer@,
            c.next_id_spec() == 0,
            c.pending_spec() == Map::<u64, PendingRequest>::empty(),
    {
        Core { peer, next_id: 0, pending: HashMap::new() }
    }

    /// Send a notification: serialize `{method, params}` and hand it to the
    /// transport. No response is expected and no error is surfaced if the
    /// message cannot be delivered.
    pub fn send_notification(&mut self, method: &str, params_json: &str)
        ensures
            final(self).sent() == old(self).sent().push(
                notification_text(method@, params_json@),
            ),
            final(self).next_id_spec() == old(self).next_id_spec(),
            final(self).pending_spec() == old(self).pending_spec(),
    {
        let msg = notification_string(method, params_json);
        self.peer.send(msg);
    }

    /// Send a request: allocate a fresh monotonically increasing correlation
    /// id, register the completion under it, serialize `{method, params, id}`
    /// and hand it to the transport. Returns the id the request took.
    pub fn send_request(&mut self, method: &str, params_json: &str, on_complete: PendingRequest)
        -> (id: u64)
        requires
            old(self).next_id_spec() < u64::MAX,
        ensures
            id == old(self).next_id_spec(),
            final(self).next_id_spec() == old(self).next_id_spec() + 1,
            final(self).pending_spec() == old(self).pending_spec().insert(id, on_complete),
            final(self).sent() == old(self).sent().push(
                request_text(method@, params_json@, id as int),
            ),
    {
        let id = self.next_id;
        self.next_id = self.next_id + 1;
        self.pending.insert(id, on_complete);
        let msg = request_string(method, params_json, id);
        self.peer.send(msg);
        id
    }

    /// The correlation id the next request will take. Ids are allocated in
    /// increasing order and never reused.
    pub fn next_request_id(&self) -> (id: u64)
        ensures
            id == self.next_id_spec(),
    {
        self.next_id
    }

    /// Resolve an incoming response id: pop and return the matching pending
    /// completion if there is one. A response whose id has no pending entry
    /// yields `None` and changes nothing — a duplicate or stale response is
    /// silently ignored.
    pub fn take_pending(&mut self, id: u64) -> (r: Option<PendingRequest>)
        ensures
            final(self).sent() == old(self).sent(),
            final(self).next_id_spec() == old(self).next_id_spec(),
            match r {
                Some(p) => old(self).pending_spec().contains_key(id) && p == old(self).pending_spec()[id] && final(self).pending_spec() == old(self).pending_spec().remove(id),
                None => !old(self).pending_spec().contains_key(id) && final(self).pending_spec()
                    == old(self).pending_spec(),
            },
    {
        self.pending.remove(&id)
    }
}

/// A registered completion is resolved exactly once: after a request
/// registers `on_complete` under a fresh id, the first delivery of a
/// response with that id finds exactly `on_complete`, and once it has been
/// popped a second delivery with the same id finds nothing.
pub proof fn lemma_response_resolves_once(
    pending: Map<u64, PendingRequest>,
    id: u64,
    on_complete: PendingRequest,
)
    ensures
        pending.insert(id, on_complete).contains_key(id),
        pending.insert(id, on_complete)[id] == on_complete,
        !pending.insert(id, on_complete).remove(id).contains_key(id),
{
}

} // verus!
