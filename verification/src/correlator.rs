//! Pairing of outbound requests with inbound responses.
//!
//! Every request that awaits a response is entered under its correlation key
//! together with a one-shot slot for the response. An entry leaves the
//! correlator exactly once: when a response with its key arrives, when its
//! caller gives up (timeout or cancellation), or when the session closes.
//!
//! A key that is still waiting is never entered a second time: the second
//! request is refused. Each entry also carries a ticket, a number that no
//! other entry of this correlator ever had, so that a caller who gives up
//! late cannot remove the entry of a later request that reuses its key.

use vstd::prelude::*;

verus! {

/// `tokio::sync::oneshot::Sender`, opaque to the verifier.
#[verifier::external_type_specification]
#[verifier::external_body]
#[verifier::reject_recursive_types(T)]
pub struct ExSlotSender<T>(tokio::sync::oneshot::Sender<T>);

/// `tokio::sync::oneshot::Receiver`, opaque to the verifier.
#[verifier::external_type_specification]
#[verifier::external_body]
#[verifier::reject_recursive_types(T)]
pub struct ExSlotReceiver<T>(tokio::sync::oneshot::Receiver<T>);

/// `tokio::sync::oneshot::error::RecvError`, which the receiving end names as
/// the outcome of waiting on a slot whose sending end was dropped.
#[verifier::external_type_specification]
#[verifier::external_body]
pub struct ExSlotClosed(tokio::sync::oneshot::error::RecvError);

/// Calls `tokio::sync::oneshot::channel` for a JSON payload.
///
/// Trusted: nothing is claimed of the two ends.
#[verifier::external_body]
fn response_slot() -> (ends: (
    tokio::sync::oneshot::Sender<serde_json::Value>,
    tokio::sync::oneshot::Receiver<serde_json::Value>,
)) {
    tokio::sync::oneshot::channel()
}

/// Calls `tokio::sync::oneshot::Sender::send`.
///
/// Trusted: where the receiving end is gone the payload comes back as it
/// was handed in.
#[verifier::external_body]
fn complete(
    slot: tokio::sync::oneshot::Sender<serde_json::Value>,
    payload: serde_json::Value,
) -> (returned: Result<(), serde_json::Value>)
    ensures
        returned matches Err(back) ==> back == payload,
{
    slot.send(payload)
}

/// Names one entry of a correlator: the key it waits under and its ticket.
#[derive(Clone, Debug, PartialEq, Eq)]
pub struct CallToken {
    pub key: String,
    pub ticket: u64,
}

/// What a caller holds while it waits: the token of its entry and the
/// receiving end of the slot that the response is put into.
pub struct PendingWait {
    pub token: CallToken,
    pub receiver: tokio::sync::oneshot::Receiver<serde_json::Value>,
}

/// Why a request could not be entered.
#[derive(Clone, Copy, Debug, PartialEq, Eq)]
pub enum RegisterError {
    /// A request with the same key is still waiting.
    DuplicateIdentifier,
    /// The correlator has handed out every ticket it has.
    TicketsExhausted,
}

struct PendingCall {
    key: String,
    ticket: u64,
    slot: tokio::sync::oneshot::Sender<serde_json::Value>,
}

/// The waiting requests of one session.
pub struct RequestCorrelator {
    calls: Vec<PendingCall>,
    next_ticket: u64,
}

/// The waiting requests as mathematics: each key with the ticket of its
/// entry.
pub type Pending = Map<Seq<char>, u64>;

/// The pending map once a response for `key` has arrived.
pub open spec fn after_resolve(pending: Pending, key: Seq<char>) -> Pending {
    pending.remove(key)
}

/// Whether a response for `key` finds a waiting request.
pub open spec fn resolves(pending: Pending, key: Seq<char>) -> bool {
    pending.contains_key(key)
}

/// Whether the entry that a token names is still waiting.
pub open spec fn is_live(pending: Pending, key: Seq<char>, ticket: u64) -> bool {
    pending.contains_key(key) && pending[key] == ticket
}

/// The pending map once the caller that holds (`key`, `ticket`) has given up.
pub open spec fn after_evict(pending: Pending, key: Seq<char>, ticket: u64) -> Pending {
    if is_live(pending, key, ticket) {
        pending.remove(key)
    } else {
        pending
    }
}

spec fn entry_of(call: PendingCall) -> (Seq<char>, u64) {
    (call.key@, call.ticket)
}

spec fn entries_of(calls: Seq<PendingCall>) -> Seq<(Seq<char>, u64)> {
    calls.map_values(|call: PendingCall| entry_of(call))
}

spec fn distinct_keys(entries: Seq<(Seq<char>, u64)>) -> bool {
    forall|i: int, j: int| 0 <= i < j < entries.len() ==> entries[i].0 != entries[j].0
}

spec fn holds_key(entries: Seq<(Seq<char>, u64)>, key: Seq<char>) -> bool {
    exists|i: int| 0 <= i < entries.len() && #[trigger] entries[i].0 == key
}

spec fn index_of_key(entries: Seq<(Seq<char>, u64)>, key: Seq<char>) -> int {
    choose|i: int| 0 <= i < entries.len() && #[trigger] entries[i].0 == key
}

spec fn as_map(entries: Seq<(Seq<char>, u64)>) -> Pending {
    Map::new(
        |key: Seq<char>| holds_key(entries, key),
        |key: Seq<char>| entries[index_of_key(entries, key)].1,
    )
}

proof fn lemma_entry_in_map(entries: Seq<(Seq<char>, u64)>, i: int)
    requires
        distinct_keys(entries),
        0 <= i < entries.len(),
    ensures
        as_map(entries).contains_key(entries[i].0),
        as_map(entries)[entries[i].0] == entries[i].1,
{
    let key = entries[i].0;
    assert(holds_key(entries, key));
    let j = index_of_key(entries, key);
    assert(0 <= j < entries.len() && entries[j].0 == key);
    assert(i == j);
}

proof fn lemma_push_entry(entries: Seq<(Seq<char>, u64)>, key: Seq<char>, ticket: u64)
    requires
        distinct_keys(entries),
        !as_map(entries).contains_key(key),
    ensures
        distinct_keys(entries.push((key, ticket))),
        as_map(entries.push((key, ticket))) == as_map(entries).insert(key, ticket),
{
    let grown = entries.push((key, ticket));
    assert forall|i: int, j: int| 0 <= i < j < grown.len() implies grown[i].0 != grown[j].0 by {
        if j == entries.len() {
            if grown[i].0 == key {
                assert(entries[i].0 == key);
                assert(holds_key(entries, key));
            }
        }
    }
    assert forall|k: Seq<char>| #[trigger]
        as_map(grown).contains_key(k) <==> as_map(entries).insert(key, ticket).contains_key(
            k,
        ) by {
        if holds_key(grown, k) {
            let i = index_of_key(grown, k);
            if i < entries.len() {
                assert(entries[i].0 == k);
            }
        }
        if holds_key(entries, k) {
            let i = index_of_key(entries, k);
            assert(grown[i].0 == k);
        }
        if k == key {
            assert(grown[entries.len() as int].0 == k);
        }
    }
    assert forall|k: Seq<char>| #[trigger] as_map(grown).contains_key(k) implies as_map(grown)[k]
        == as_map(entries).insert(key, ticket)[k] by {
        let i = index_of_key(grown, k);
        lemma_entry_in_map(grown, i);
        if i < entries.len() {
            assert(entries[i].0 == k);
            lemma_entry_in_map(entries, i);
        }
    }
    assert(as_map(grown) =~= as_map(entries).insert(key, ticket));
}

proof fn lemma_remove_entry(entries: Seq<(Seq<char>, u64)>, at: int)
    requires
        distinct_keys(entries),
        0 <= at < entries.len(),
    ensures
        distinct_keys(entries.remove(at)),
        as_map(entries.remove(at)) == as_map(entries).remove(entries[at].0),
{
    let rest = entries.remove(at);
    let gone = entries[at].0;
    assert forall|i: int| 0 <= i < rest.len() implies #[trigger] rest[i] == entries[if i < at {
        i
    } else {
        i + 1
    }] by {}
    assert forall|i: int, j: int| 0 <= i < j < rest.len() implies rest[i].0 != rest[j].0 by {
        let a = if i < at { i } else { i + 1 };
        let b = if j < at { j } else { j + 1 };
        assert(rest[i] == entries[a] && rest[j] == entries[b]);
    }
    assert forall|k: Seq<char>| #[trigger]
        as_map(rest).contains_key(k) <==> as_map(entries).remove(gone).contains_key(k) by {
        if holds_key(rest, k) {
            let i = index_of_key(rest, k);
            let a = if i < at { i } else { i + 1 };
            assert(rest[i] == entries[a]);
            assert(entries[a].0 == k);
            assert(holds_key(entries, k));
            if k == gone {
                assert(a != at);
            }
        }
        if holds_key(entries, k) && k != gone {
            let a = index_of_key(entries, k);
            let i = if a < at { a } else { a - 1 };
            assert(rest[i] == entries[a]);
            assert(rest[i].0 == k);
        }
    }
    assert forall|k: Seq<char>| #[trigger] as_map(rest).contains_key(k) implies as_map(rest)[k]
        == as_map(entries).remove(gone)[k] by {
        let i = index_of_key(rest, k);
        let a = if i < at { i } else { i + 1 };
        assert(rest[i] == entries[a]);
        lemma_entry_in_map(rest, i);
        lemma_entry_in_map(entries, a);
    }
    assert(as_map(rest) =~= as_map(entries).remove(gone));
}

impl View for RequestCorrelator {
    type V = Pending;

    /// The waiting requests: each key with the ticket of its entry.
    closed spec fn view(&self) -> Pending {
        as_map(entries_of(self.calls@))
    }
}

impl RequestCorrelator {
    #[verifier::type_invariant]
    spec fn well_formed(self) -> bool {
        &&& distinct_keys(entries_of(self.calls@))
        &&& forall|i: int|
            0 <= i < self.calls.len() ==> (#[trigger] self.calls[i]).ticket < self.next_ticket
    }

    /// The ticket that the next entry will get. No operation lowers it, so a
    /// ticket once handed out is never handed out again.
    pub closed spec fn next_ticket(&self) -> u64 {
        self.next_ticket
    }

    /// A correlator with nothing waiting.
    pub fn new() -> (fresh: Self)
        ensures
            fresh@ == Pending::empty(),
            fresh.next_ticket() == 0,
    {
        let fresh = RequestCorrelator { calls: Vec::new(), next_ticket: 0 };
        assert(fresh@ =~= Pending::empty());
        fresh
    }

    /// Moves the entries out and leaves none behind, so that they can be
    /// changed while the correlator itself stays well formed.
    fn take_calls(&mut self) -> (calls: Vec<PendingCall>)
        ensures
            calls == old(self).calls,
            final(self).calls@.len() == 0,
            final(self).next_ticket == old(self).next_ticket,
    {
        let mut calls = Vec::new();
        core::mem::swap(&mut self.calls, &mut calls);
        calls
    }

    fn position(&self, key: &str) -> (found: Option<usize>)
        ensures
            found is Some <==> self@.contains_key(key@),
            found matches Some(i) ==> i < self.calls.len() && self.calls[i as int].key@ == key@
                && self.calls[i as int].ticket == self@[key@],
    {
        proof {
            use_type_invariant(self);
        }
        let ghost entries = entries_of(self.calls@);
        let mut i: usize = 0;
        while i < self.calls.len()
            invariant
                i <= self.calls.len(),
                entries == entries_of(self.calls@),
                distinct_keys(entries),
                forall|j: int| 0 <= j < i ==> entries[j].0 != key@,
            decreases self.calls.len() - i,
        {
            assert(entries[i as int] == entry_of(self.calls@[i as int]));
            if self.calls[i].key.as_str().eq(key) {
                proof {
                    lemma_entry_in_map(entries, i as int);
                    assert(self@ == as_map(entries));
                }
                return Some(i);
            }
            i += 1;
        }
        proof {
            if holds_key(entries, key@) {
                let j = index_of_key(entries, key@);
                assert(entries[j].0 == key@);
            }
        }
        None
    }

    /// Whether a request waits under `key`.
    pub fn is_pending(&self, key: &str) -> (waiting: bool)
        ensures
            waiting == self@.contains_key(key@),
    {
        self.position(key).is_some()
    }

    /// Enters a request under `key` and hands back what its caller waits on.
    ///
    /// A key that is still waiting is refused, and the entry that holds it
    /// stays as it is.
    pub fn register(&mut self, key: String) -> (entered: Result<PendingWait, RegisterError>)
        ensures
            match entered {
                Ok(wait) => {
                    &&& !old(self)@.contains_key(key@)
                    &&& old(self).next_ticket() < u64::MAX
                    &&& wait.token.key@ == key@
                    &&& wait.token.ticket == old(self).next_ticket()
                    &&& final(self)@ == old(self)@.insert(key@, wait.token.ticket)
                    &&& final(self).next_ticket() == old(self).next_ticket() + 1
                },
                Err(RegisterError::DuplicateIdentifier) => {
                    &&& old(self)@.contains_key(key@)
                    &&& final(self)@ == old(self)@
                    &&& final(self).next_ticket() == old(self).next_ticket()
                },
                Err(RegisterError::TicketsExhausted) => {
                    &&& !old(self)@.contains_key(key@)
                    &&& old(self).next_ticket() == u64::MAX
                    &&& final(self)@ == old(self)@
                    &&& final(self).next_ticket() == old(self).next_ticket()
                },
            },
    {
        proof {
            use_type_invariant(&*self);
        }
        if self.position(key.as_str()).is_some() {
            return Err(RegisterError::DuplicateIdentifier);
        }
        if self.next_ticket == u64::MAX {
            return Err(RegisterError::TicketsExhausted);
        }
        let ticket = self.next_ticket;
        let (slot, receiver) = response_slot();
        let token = CallToken { key: key.clone(), ticket };
        proof {
            lemma_push_entry(entries_of(self.calls@), key@, ticket);
            assert(entries_of(self.calls@.push(PendingCall { key, ticket, slot })) =~= entries_of(
                self.calls@,
            ).push((key@, ticket)));
        }
        let mut calls = self.take_calls();
        calls.push(PendingCall { key, ticket, slot });
        self.next_ticket = ticket + 1;
        self.calls = calls;
        Ok(PendingWait { token, receiver })
    }

    /// Hands `payload` to the request that waits under `key`, if there is
    /// one, and removes its entry. An unknown key is no error: the payload is
    /// dropped and nothing changes.
    pub fn resolve(&mut self, key: &str, payload: serde_json::Value) -> (resolved: bool)
        ensures
            resolved == resolves(old(self)@, key@),
            final(self)@ == after_resolve(old(self)@, key@),
            final(self).next_ticket() == old(self).next_ticket(),
    {
        proof {
            use_type_invariant(&*self);
        }
        match self.position(key) {
            Some(at) => {
                proof {
                    lemma_remove_entry(entries_of(self.calls@), at as int);
                    assert(entries_of(self.calls@.remove(at as int)) =~= entries_of(
                        self.calls@,
                    ).remove(at as int));
                }
                let mut calls = self.take_calls();
                let call = calls.remove(at);
                self.calls = calls;
                let _ = complete(call.slot, payload);
                true
            },
            None => {
                assert(old(self)@.remove(key@) =~= old(self)@);
                false
            },
        }
    }

    /// Removes the entry that `token` names, if it is still waiting. An
    /// entry under the same key with another ticket is left alone.
    pub fn evict(&mut self, token: &CallToken) -> (evicted: bool)
        ensures
            evicted == is_live(old(self)@, token.key@, token.ticket),
            final(self)@ == after_evict(old(self)@, token.key@, token.ticket),
            final(self).next_ticket() == old(self).next_ticket(),
    {
        proof {
            use_type_invariant(&*self);
        }
        match self.position(token.key.as_str()) {
            Some(at) => {
                if self.calls[at].ticket == token.ticket {
                    proof {
                        lemma_remove_entry(entries_of(self.calls@), at as int);
                        assert(entries_of(self.calls@.remove(at as int)) =~= entries_of(
                            self.calls@,
                        ).remove(at as int));
                    }
                    let mut calls = self.take_calls();
                    let _ = calls.remove(at);
                    self.calls = calls;
                    true
                } else {
                    false
                }
            },
            None => false,
        }
    }

    /// Drops every entry. The slots are dropped with them, so that every
    /// caller still waiting learns that its slot was closed.
    pub fn clear(&mut self)
        ensures
            final(self)@ == Pending::empty(),
            final(self).next_ticket() == old(self).next_ticket(),
    {
        self.calls = Vec::new();
        assert(self@ =~= Pending::empty());
    }

    /// How many requests are waiting.
    pub fn len(&self) -> (count: usize)
        ensures
            self@.dom().finite(),
            count == self@.dom().len(),
    {
        proof {
            use_type_invariant(self);
            lemma_map_size(entries_of(self.calls@));
        }
        self.calls.len()
    }
}

proof fn lemma_map_size(entries: Seq<(Seq<char>, u64)>)
    requires
        distinct_keys(entries),
    ensures
        as_map(entries).dom().finite(),
        as_map(entries).dom().len() == entries.len(),
    decreases entries.len(),
{
    if entries.len() == 0 {
        assert(as_map(entries).dom() =~= Set::<Seq<char>>::empty());
    } else {
        let last = entries.len() - 1;
        let shorter = entries.remove(last);
        lemma_remove_entry(entries, last);
        lemma_map_size(shorter);
        lemma_entry_in_map(entries, last);
        assert(as_map(entries).dom() =~= as_map(shorter).dom().insert(entries[last].0));
    }
}

} // verus!
