//! The hub: the single owner of the roster of live sessions.  All roster
//! mutation happens through [`Hub::step`], one event at a time, exactly as
//! the single command loop of the running server consumes its merged
//! event stream; the caller performs the returned actions (sends on the
//! sessions' outbound channels) and stops the loop when `step` says so.

use vstd::prelude::*;
use crate::msg::Msg;
use crate::msg::clone_bytes;

verus! {

/// A shutdown signal: `Soft` lets connected clients drain first; `Hard`
/// closes every remaining session at once.
pub enum Shutdown {
    Soft,
    Hard,
}

/// One event consumed by the hub's command loop.
pub enum HubEvent {
    /// A session that finished its handshake asks to be admitted.
    NewClient,
    /// Session `id` relayed a message from its client.
    ClientMsg(u64, Msg),
    /// The process received a shutdown signal.
    Signal(Shutdown),
}

/// One effect the command loop asks its caller to perform.
#[derive(Debug, PartialEq)]
pub enum HubAction {
    /// Hand the freshly assigned id back to the session being admitted.
    AssignId(u64),
    /// Enqueue the message on session `id`'s outbound channel.
    Send(u64, Msg),
    /// A message arrived tagged with an id that is not in the roster: a
    /// logic error.  It is reported and skipped; the roster is left
    /// unchanged rather than corrupted.
    ReportLogicError(u64),
}

/// Whether `id` is in the roster.
pub open spec fn roster_has(roster: Seq<u64>, id: u64) -> bool {
    exists|i: int| 0 <= i < roster.len() && roster[i] == id
}

/// The hub's state: the roster of admitted session ids, the next id to
/// assign, and whether a soft shutdown is draining.
pub struct Hub {
    pub clients: Vec<u64>,
    pub next_id: u64,
    pub shutting_down: bool,
}

impl Hub {
    /// The roster invariant: ids strictly increase in admission order
    /// (hence are pairwise distinct) and every id is below `next_id`
    /// (hence an id, once removed, is never reused).
    pub open spec fn wf(&self) -> bool {
        &&& forall|i: int, j: int|
            0 <= i < j < self.clients@.len() ==> self.clients@[i] < self.clients@[j]
        &&& forall|i: int| 0 <= i < self.clients@.len() ==> self.clients@[i] < self.next_id
    }

    /// A hub with no clients, ids starting at zero, not shutting down.
    pub fn new() -> (r: Hub)
        ensures
            r.wf(),
            r.clients@.len() == 0,
            r.next_id == 0,
            !r.shutting_down,
    {
        Hub { clients: Vec::new(), next_id: 0, shutting_down: false }
    }

    /// The position of `id` in the roster, if it is admitted.
    fn find_index(&self, id: u64) -> (r: Option<usize>)
        ensures
            match r {
                Some(i) => i < self.clients@.len() && self.clients@[i as int] == id,
                None => !roster_has(self.clients@, id),
            },
    {
        let n = self.clients.len();
        let mut i: usize = 0;
        while i < n
            invariant
                n == self.clients@.len(),
                0 <= i <= n,
                forall|j: int| 0 <= j < i ==> self.clients@[j] != id,
            decreases n - i,
        {
            if self.clients[i] == id {
                return Some(i);
            }
            i = i + 1;
        }
        None
    }

    /// Consumes one event and returns the actions the caller must
    /// perform, and whether the command loop is to terminate.
    ///
    /// - `NewClient`: the next id is assigned (monotonically, never
    ///   reused), handed back, and the session joins the roster.
    /// - `ClientMsg` with `Text`: the text is broadcast to every admitted
    ///   session's outbound channel, the sender included, in roster order.
    /// - `ClientMsg` with `Ping`: a `Pong` with the same payload goes to
    ///   the originating session only.
    /// - `ClientMsg` with `Close`: the session leaves the roster; when a
    ///   soft shutdown is draining and it was the last one, the loop ends.
    /// - `ClientMsg` whose id is not in the roster (a duplicate `Close`
    ///   among them): reported as a logic error and skipped, the roster
    ///   untouched.
    /// - `Signal(Soft)`: with no clients the loop ends at once, sending
    ///   nothing; otherwise nothing is sent and the hub drains.
    /// - `Signal(Hard)`: every admitted session is sent exactly one
    ///   `Close`, and the loop ends whatever the drain state.
    pub fn step(&mut self, event: HubEvent) -> (r: (Vec<HubAction>, bool))
        requires
            old(self).wf(),
            old(self).next_id < u64::MAX,
            event matches HubEvent::ClientMsg(_, m) ==> !(m is Binary) && !(m is Pong),
        ensures
            final(self).wf(),
            final(self).next_id >= old(self).next_id,
            event is NewClient ==> {
                &&& final(self).clients@ == old(self).clients@.push(old(self).next_id)
                &&& final(self).next_id == old(self).next_id + 1
                &&& final(self).shutting_down == old(self).shutting_down
                &&& r.0@.len() == 1
                &&& (r.0@[0] matches HubAction::AssignId(id) && id == old(self).next_id)
                &&& r.1 == false
            },
            event matches HubEvent::ClientMsg(id, m) ==> if roster_has(old(self).clients@, id) {
                &&& (m matches Msg::Text(t) ==> {
                    &&& final(self).clients@ == old(self).clients@
                    &&& final(self).next_id == old(self).next_id
                    &&& final(self).shutting_down == old(self).shutting_down
                    &&& r.0@.len() == old(self).clients@.len()
                    &&& forall|k: int|
                        0 <= k < r.0@.len() ==> (#[trigger] r.0@[k] matches HubAction::Send(
                            cid,
                            mm,
                        ) && cid == old(self).clients@[k] && (mm matches Msg::Text(tt) && tt@
                            == t@))
                    &&& r.1 == false
                })
                &&& (m matches Msg::Ping(p) ==> {
                    &&& final(self).clients@ == old(self).clients@
                    &&& final(self).next_id == old(self).next_id
                    &&& final(self).shutting_down == old(self).shutting_down
                    &&& r.0@.len() == 1
                    &&& (r.0@[0] matches HubAction::Send(cid, mm) && cid == id && (
                    mm matches Msg::Pong(pp) && pp@ == p@))
                    &&& r.1 == false
                })
                &&& (m is Close ==> {
                    &&& final(self).next_id == old(self).next_id
                    &&& final(self).shutting_down == old(self).shutting_down
                    &&& final(self).clients@.len() == old(self).clients@.len() - 1
                    &&& exists|i: int|
                        0 <= i < old(self).clients@.len() && old(self).clients@[i] == id
                            && final(self).clients@ == old(self).clients@.remove(i)
                    &&& !roster_has(final(self).clients@, id)
                    &&& r.0@.len() == 0
                    &&& r.1 == (old(self).shutting_down && final(self).clients@.len() == 0)
                })
            } else {
                &&& final(self).clients@ == old(self).clients@
                &&& final(self).next_id == old(self).next_id
                &&& final(self).shutting_down == old(self).shutting_down
                &&& r.0@.len() == 1
                &&& (r.0@[0] matches HubAction::ReportLogicError(rid) && rid == id)
                &&& r.1 == false
            },
            event matches HubEvent::Signal(s) ==> if s is Soft {
                if old(self).clients@.len() == 0 {
                    &&& final(self).clients@ == old(self).clients@
                    &&& final(self).next_id == old(self).next_id
                    &&& final(self).shutting_down == old(self).shutting_down
                    &&& r.0@.len() == 0
                    &&& r.1 == true
                } else {
                    &&& final(self).clients@ == old(self).clients@
                    &&& final(self).next_id == old(self).next_id
                    &&& final(self).shutting_down == true
                    &&& r.0@.len() == 0
                    &&& r.1 == false
                }
            } else {
                &&& final(self).clients@ == old(self).clients@
                &&& final(self).next_id == old(self).next_id
                &&& final(self).shutting_down == old(self).shutting_down
                &&& r.0@.len() == old(self).clients@.len()
                &&& forall|k: int|
                    0 <= k < r.0@.len() ==> (#[trigger] r.0@[k] matches HubAction::Send(cid, mm)
                        && cid == old(self).clients@[k] && mm is Close)
                &&& r.1 == true
            },
    {
        match event {
            HubEvent::NewClient => {
                let id = self.next_id;
                self.next_id = self.next_id + 1;
                self.clients.push(id);
                let mut actions: Vec<HubAction> = Vec::new();
                actions.push(HubAction::AssignId(id));
                (actions, false)
            },
            HubEvent::ClientMsg(id, msg) => {
                match self.find_index(id) {
                    None => {
                        let mut actions: Vec<HubAction> = Vec::new();
                        actions.push(HubAction::ReportLogicError(id));
                        (actions, false)
                    },
                    Some(pos) => {
                        match msg {
                            Msg::Text(t) => {
                                let mut actions: Vec<HubAction> = Vec::new();
                                let n = self.clients.len();
                                let mut i: usize = 0;
                                while i < n
                                    invariant
                                        n == self.clients@.len(),
                                        0 <= i <= n,
                                        actions@.len() == i,
                                        forall|k: int|
                                            0 <= k < i ==> (#[trigger] actions@[k] matches HubAction::Send(
                                                cid,
                                                mm,
                                            ) && cid == self.clients@[k] && (
                                            mm matches Msg::Text(tt) && tt@ == t@)),
                                    decreases n - i,
                                {
                                    actions.push(
                                        HubAction::Send(self.clients[i], Msg::Text(clone_bytes(&t))),
                                    );
                                    i = i + 1;
                                }
                                (actions, false)
                            },
                            Msg::Ping(p) => {
                                let mut actions: Vec<HubAction> = Vec::new();
                                actions.push(HubAction::Send(id, Msg::Pong(p)));
                                (actions, false)
                            },
                            Msg::Close => {
                                self.clients.remove(pos);
                                proof {
                                    assert forall|j: int|
                                        0 <= j < self.clients@.len() implies self.clients@[j]
                                        != id by {
                                        if j < pos {
                                            assert(self.clients@[j] == old(self).clients@[j]);
                                        } else {
                                            assert(self.clients@[j] == old(self).clients@[j + 1]);
                                        }
                                    }
                                }
                                let done = self.shutting_down && self.clients.len() == 0;
                                (Vec::new(), done)
                            },
                            Msg::Binary(_) => vstd::pervasive::unreached(),
                            Msg::Pong(_) => vstd::pervasive::unreached(),
                        }
                    },
                }
            },
            HubEvent::Signal(Shutdown::Soft) => {
                if self.clients.len() == 0 {
                    (Vec::new(), true)
                } else {
                    self.shutting_down = true;
                    (Vec::new(), false)
                }
            },
            HubEvent::Signal(Shutdown::Hard) => {
                let mut actions: Vec<HubAction> = Vec::new();
                let n = self.clients.len();
                let mut i: usize = 0;
                while i < n
                    invariant
                        n == self.clients@.len(),
                        0 <= i <= n,
                        actions@.len() == i,
                        forall|k: int|
                            0 <= k < i ==> (#[trigger] actions@[k] matches HubAction::Send(cid, mm)
                                && cid == self.clients@[k] && mm is Close),
                    decreases n - i,
                {
                    actions.push(HubAction::Send(self.clients[i], Msg::Close));
                    i = i + 1;
                }
                (actions, true)
            },
        }
    }
}

/// In any well-formed hub the admitted ids strictly increase in admission
/// (roster) order, and are therefore pairwise distinct; `Hub::new` and
/// every `Hub::step` maintain well-formedness, and `NewClient` appends
/// `next_id`, so ids are assigned in strictly increasing order and never
/// reused.
pub proof fn lemma_roster_ids_unique(h: &Hub)
    requires
        h.wf(),
    ensures
        forall|i: int, j: int|
            0 <= i < j < h.clients@.len() ==> h.clients@[i] < h.clients@[j],
        forall|i: int, j: int|
            0 <= i < j < h.clients@.len() ==> h.clients@[i] != h.clients@[j],
{
}

} // verus!
