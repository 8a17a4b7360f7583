//! One bridge session: the correlator and the broadcaster of one subprocess.
//!
//! The session decides; the program around it acts. A call starts with
//! [`BridgeSession::begin_call`], which says what to write and whether to
//! wait. The caller writes the line, waits on the slot if told to, and
//! reports how the wait ended to [`BridgeSession::conclude`]. The task that
//! reads the subprocess's output hands every line to
//! [`BridgeSession::pump_line`] and calls [`BridgeSession::close`] when the
//! output ends.

use vstd::prelude::*;
use crate::broadcaster::EventBroadcaster;
use crate::broadcaster::Subscription;
use crate::broadcaster::published_after;
use crate::correlator::CallToken;
use crate::correlator::Pending;
use crate::correlator::PendingWait;
use crate::correlator::RegisterError;
use crate::correlator::RequestCorrelator;
use crate::correlator::after_evict;
use crate::correlator::after_resolve;
use crate::correlator::is_live;
use crate::correlator::resolves;
use crate::error::BridgeError;
use crate::json::Members;
use crate::json::flag_members;
use crate::json::flag_object;
use crate::json::identifier;
use crate::json::identifier_of;
use crate::json::json_members;
use crate::json::json_parse;
use crate::json::json_text;
use crate::json::parse;
use crate::json::render;
use crate::json::request_key;
use crate::json::request_key_of;

verus! {

/// How long a request waits for its response, in seconds.
pub const RPC_TIMEOUT_SECS: u64 = 30;

/// What the caller does once the line is written.
pub enum CallStep {
    /// Wait on the slot for the response, then report to
    /// [`BridgeSession::conclude`].
    Await(PendingWait),
    /// Answer at once with this acknowledgment: the payload was a
    /// notification and no response will come.
    Reply(serde_json::Value),
}

/// What one call asks of its caller.
pub struct CallPlan {
    /// The payload as one line of JSON, without a line terminator.
    pub line: String,
    pub next: CallStep,
}

/// How the wait for a response ended.
#[derive(Debug)]
pub enum WaitOutcome {
    /// The slot was filled with this response.
    Resolved(serde_json::Value),
    /// The slot was dropped unfilled: the session closed.
    Closed,
    /// The time allowed for a response ran out.
    TimedOut,
}

/// What one read from the subprocess's output gave.
#[derive(Debug)]
pub enum Output {
    /// One line, without its terminator.
    Line(String),
    /// The output ended: the subprocess has exited.
    End,
    /// The output could not be read or decoded.
    Failed,
}

/// Why a call is refused before anything is written, if it is.
pub open spec fn call_refusal(
    open: bool,
    text: Option<Seq<char>>,
    key: Option<Seq<char>>,
    pending: Pending,
    next_ticket: u64,
) -> Option<BridgeError> {
    if !open {
        Some(BridgeError::SessionClosed)
    } else if text is None {
        Some(BridgeError::Encode)
    } else if key is None {
        None
    } else if pending.contains_key(key->0) {
        Some(BridgeError::DuplicateIdentifier)
    } else if next_ticket == u64::MAX {
        Some(BridgeError::TicketsExhausted)
    } else {
        None
    }
}

/// The key that an inbound line answers to: the identifier of the document
/// it holds, if it holds one and that carries an identifier.
pub open spec fn response_key_of(parsed: Option<Members>) -> Option<Seq<char>> {
    match parsed {
        Some(members) => identifier_of(members),
        None => None,
    }
}

/// The pending map once an inbound document with the given key was routed.
pub open spec fn after_response(pending: Pending, key: Option<Seq<char>>) -> Pending {
    match key {
        Some(k) => after_resolve(pending, k),
        None => pending,
    }
}

/// Whether an inbound document with the given key completes a waiting call.
pub open spec fn response_resolves(pending: Pending, key: Option<Seq<char>>) -> bool {
    match key {
        Some(k) => resolves(pending, k),
        None => false,
    }
}

/// What a caller is told when its wait ended in `outcome`.
pub open spec fn reply_of(outcome: WaitOutcome) -> Result<serde_json::Value, BridgeError> {
    match outcome {
        WaitOutcome::Resolved(response) => Ok(response),
        WaitOutcome::Closed => Err(BridgeError::SessionClosed),
        WaitOutcome::TimedOut => Err(BridgeError::RpcTimeout),
    }
}

/// The logic of one subprocess instance.
pub struct BridgeSession {
    correlator: RequestCorrelator,
    events: EventBroadcaster,
}

impl BridgeSession {
    /// The waiting calls, each key with the ticket of its entry.
    pub closed spec fn pending(&self) -> Pending {
        self.correlator@
    }

    /// The ticket of the next request. No operation lowers it.
    pub closed spec fn next_ticket(&self) -> u64 {
        self.correlator.next_ticket()
    }

    /// Whether the session still takes calls and publishes lines.
    pub closed spec fn is_open(&self) -> bool {
        self.events.is_open()
    }

    /// How many output lines were numbered so far. The next line gets this
    /// number.
    pub closed spec fn published(&self) -> u64 {
        self.events.published()
    }

    /// Whether the session still takes calls and publishes lines.
    pub fn accepts(&self) -> (open: bool)
        ensures
            open == self.is_open(),
    {
        self.events.accepts()
    }

    /// An open session with nothing waiting, whose broadcaster keeps
    /// [`crate::broadcaster::EVENT_CAPACITY`] lines.
    pub fn new() -> (session: Self)
        ensures
            session.is_open(),
            session.pending() == Pending::empty(),
            session.next_ticket() == 0,
            session.published() == 0,
    {
        BridgeSession { correlator: RequestCorrelator::new(), events: EventBroadcaster::new() }
    }

    /// An open session with nothing waiting, whose broadcaster keeps
    /// `capacity` lines; `None` for a capacity that no broadcaster can have.
    pub fn with_capacity(capacity: usize) -> (made: Option<Self>)
        ensures
            made is Some <==> 0 < capacity <= crate::broadcaster::max_capacity(),
            made matches Some(session) ==> {
                &&& session.is_open()
                &&& session.pending() == Pending::empty()
                &&& session.next_ticket() == 0
                &&& session.published() == 0
            },
    {
        match EventBroadcaster::with_capacity(capacity) {
            Some(events) => Some(BridgeSession { correlator: RequestCorrelator::new(), events }),
            None => None,
        }
    }

    /// Starts a call whose payload was rendered as `rendered` (`None`: it
    /// could not be rendered) and waits under `key` (`None`: it is no
    /// request). A request is entered into the correlator, any other payload
    /// is acknowledged at once.
    ///
    /// A refused call changes nothing and asks for nothing to be written.
    pub fn enter_call(&mut self, rendered: Option<String>, key: Option<String>) -> (begun: Result<
        CallPlan,
        BridgeError,
    >)
        ensures
            final(self).is_open() == old(self).is_open(),
            final(self).published() == old(self).published(),
            begun is Err <==> call_refusal(
                old(self).is_open(),
                rendered.deep_view(),
                key.deep_view(),
                old(self).pending(),
                old(self).next_ticket(),
            ) is Some,
            begun matches Err(refusal) ==> {
                &&& call_refusal(
                    old(self).is_open(),
                    rendered.deep_view(),
                    key.deep_view(),
                    old(self).pending(),
                    old(self).next_ticket(),
                ) == Some(refusal)
                &&& final(self).pending() == old(self).pending()
                &&& final(self).next_ticket() == old(self).next_ticket()
            },
            begun matches Ok(plan) ==> {
                &&& rendered.deep_view() == Some(plan.line@)
                &&& match key {
                    Some(waits_under) => {
                        &&& plan.next matches CallStep::Await(wait)
                        &&& wait.token.key@ == waits_under@
                        &&& wait.token.ticket == old(self).next_ticket()
                        &&& final(self).pending() == old(self).pending().insert(
                            waits_under@,
                            wait.token.ticket,
                        )
                        &&& final(self).next_ticket() == old(self).next_ticket() + 1
                    },
                    None => {
                        &&& plan.next matches CallStep::Reply(ack)
                        &&& json_members(ack) == flag_members("ok"@, true)
                        &&& final(self).pending() == old(self).pending()
                        &&& final(self).next_ticket() == old(self).next_ticket()
                    },
                }
            },
    {
        if !self.events.accepts() {
            return Err(BridgeError::SessionClosed);
        }
        let line = match rendered {
            Some(line) => line,
            None => {
                return Err(BridgeError::Encode);
            },
        };
        match key {
            Some(waits_under) => match self.correlator.register(waits_under) {
                Ok(wait) => Ok(CallPlan { line, next: CallStep::Await(wait) }),
                Err(RegisterError::DuplicateIdentifier) => Err(BridgeError::DuplicateIdentifier),
                Err(RegisterError::TicketsExhausted) => Err(BridgeError::TicketsExhausted),
            },
            None => Ok(CallPlan { line, next: CallStep::Reply(flag_object("ok", true)) }),
        }
    }

    /// Starts a call: renders the payload as one line, reads whether it is a
    /// request (a payload with a method and an identifier), and goes on as
    /// [`BridgeSession::enter_call`] does.
    pub fn begin_call(&mut self, payload: serde_json::Value) -> (begun: Result<
        CallPlan,
        BridgeError,
    >)
        ensures
            final(self).is_open() == old(self).is_open(),
            final(self).published() == old(self).published(),
            begun is Err <==> call_refusal(
                old(self).is_open(),
                json_text(payload),
                request_key_of(json_members(payload)),
                old(self).pending(),
                old(self).next_ticket(),
            ) is Some,
            begun matches Err(refusal) ==> {
                &&& call_refusal(
                    old(self).is_open(),
                    json_text(payload),
                    request_key_of(json_members(payload)),
                    old(self).pending(),
                    old(self).next_ticket(),
                ) == Some(refusal)
                &&& final(self).pending() == old(self).pending()
                &&& final(self).next_ticket() == old(self).next_ticket()
            },
            begun matches Ok(plan) ==> {
                &&& json_text(payload) == Some(plan.line@)
                &&& match request_key_of(json_members(payload)) {
                    Some(key) => {
                        &&& plan.next matches CallStep::Await(wait)
                        &&& wait.token.key@ == key
                        &&& wait.token.ticket == old(self).next_ticket()
                        &&& final(self).pending() == old(self).pending().insert(
                            key,
                            wait.token.ticket,
                        )
                        &&& final(self).next_ticket() == old(self).next_ticket() + 1
                    },
                    None => {
                        &&& plan.next matches CallStep::Reply(ack)
                        &&& json_members(ack) == flag_members("ok"@, true)
                        &&& final(self).pending() == old(self).pending()
                        &&& final(self).next_ticket() == old(self).next_ticket()
                    },
                }
            },
    {
        let rendered = match render(&payload) {
            Ok(line) => Some(line),
            Err(_) => None,
        };
        let key = request_key(&payload);
        self.enter_call(rendered, key)
    }

    /// Hands `response` to the call that waits under `key`, if `key` names
    /// one: that call and no other is completed. Without a key, or with one
    /// that no call waits under, the response is dropped and nothing
    /// changes.
    pub fn deliver(&mut self, key: Option<String>, response: serde_json::Value) -> (resolved:
        bool)
        ensures
            resolved == response_resolves(old(self).pending(), key.deep_view()),
            final(self).pending() == after_response(old(self).pending(), key.deep_view()),
            final(self).next_ticket() == old(self).next_ticket(),
            final(self).is_open() == old(self).is_open(),
            final(self).published() == old(self).published(),
    {
        match key {
            Some(waits_under) => self.correlator.resolve(waits_under.as_str(), response),
            None => false,
        }
    }

    /// Routes one parsed output document: it is delivered under the
    /// identifier that it carries, if it carries one.
    pub fn route(&mut self, response: serde_json::Value) -> (resolved: bool)
        ensures
            resolved == response_resolves(
                old(self).pending(),
                identifier_of(json_members(response)),
            ),
            final(self).pending() == after_response(
                old(self).pending(),
                identifier_of(json_members(response)),
            ),
            final(self).next_ticket() == old(self).next_ticket(),
            final(self).is_open() == old(self).is_open(),
            final(self).published() == old(self).published(),
    {
        let key = identifier(&response);
        self.deliver(key, response)
    }

    /// Takes one line of subprocess output: numbers it and publishes it to
    /// the stream subscribers as it is, and completes the call it answers,
    /// if any. A line that is no JSON document, or answers no waiting call,
    /// is published all the same.
    pub fn pump_line(&mut self, line: String) -> (resolved: bool)
        ensures
            resolved == response_resolves(
                old(self).pending(),
                response_key_of(json_parse(line@)),
            ),
            final(self).pending() == after_response(
                old(self).pending(),
                response_key_of(json_parse(line@)),
            ),
            final(self).published() == published_after(
                old(self).is_open(),
                old(self).published(),
            ),
            final(self).next_ticket() == old(self).next_ticket(),
            final(self).is_open() == old(self).is_open(),
    {
        let parsed = parse(line.as_str());
        let _ = self.events.publish(line);
        match parsed {
            Ok(response) => self.route(response),
            Err(_) => false,
        }
    }

    /// Takes what one read from the subprocess's output gave, and says
    /// whether to read again. A line is handled as in
    /// [`BridgeSession::pump_line`]; the end of the output, or a failure to
    /// read it, closes the session.
    pub fn pump(&mut self, output: Output) -> (again: bool)
        ensures
            again == (output is Line),
            final(self).next_ticket() == old(self).next_ticket(),
            match output {
                Output::Line(line) => {
                    &&& final(self).is_open() == old(self).is_open()
                    &&& final(self).pending() == after_response(
                        old(self).pending(),
                        response_key_of(json_parse(line@)),
                    )
                    &&& final(self).published() == published_after(
                        old(self).is_open(),
                        old(self).published(),
                    )
                },
                _ => {
                    &&& !final(self).is_open()
                    &&& final(self).pending() == Pending::empty()
                    &&& final(self).published() == old(self).published()
                },
            },
    {
        match output {
            Output::Line(line) => {
                let _ = self.pump_line(line);
                true
            },
            Output::End => {
                self.close();
                false
            },
            Output::Failed => {
                self.close();
                false
            },
        }
    }

    /// Ends a call whose wait ended in `outcome`, and says what its caller
    /// is told. Whatever the outcome, the call's entry is gone afterwards,
    /// and no other entry is touched.
    pub fn conclude(&mut self, token: &CallToken, outcome: WaitOutcome) -> (reply: Result<
        serde_json::Value,
        BridgeError,
    >)
        ensures
            reply == reply_of(outcome),
            final(self).pending() == after_evict(old(self).pending(), token.key@, token.ticket),
            final(self).next_ticket() == old(self).next_ticket(),
            final(self).is_open() == old(self).is_open(),
            final(self).published() == old(self).published(),
    {
        let _ = self.correlator.evict(token);
        match outcome {
            WaitOutcome::Resolved(response) => Ok(response),
            WaitOutcome::Closed => Err(BridgeError::SessionClosed),
            WaitOutcome::TimedOut => Err(BridgeError::RpcTimeout),
        }
    }

    /// Releases the entry of a caller that stopped waiting, and says whether
    /// it was still there.
    pub fn cancel(&mut self, token: &CallToken) -> (released: bool)
        ensures
            released == is_live(old(self).pending(), token.key@, token.ticket),
            final(self).pending() == after_evict(old(self).pending(), token.key@, token.ticket),
            final(self).next_ticket() == old(self).next_ticket(),
            final(self).is_open() == old(self).is_open(),
            final(self).published() == old(self).published(),
    {
        self.correlator.evict(token)
    }

    /// A new subscription to the output stream, whose cursor stands at the
    /// next line to be published; refused once the session is closed.
    pub fn subscribe_events(&self) -> (subscription: Result<Subscription, BridgeError>)
        ensures
            subscription is Ok <==> self.is_open(),
            subscription matches Ok(attached) ==> attached.cursor.position() == self.published(),
            subscription matches Err(refusal) ==> refusal == BridgeError::SessionClosed,
    {
        match self.events.subscribe() {
            Some(attached) => Ok(attached),
            None => Err(BridgeError::SessionClosed),
        }
    }

    /// Tears the session down: every waiting call's slot is dropped, so that
    /// its wait ends as closed, and the output stream ends for every
    /// subscriber.
    pub fn close(&mut self)
        ensures
            !final(self).is_open(),
            final(self).pending() == Pending::empty(),
            final(self).next_ticket() == old(self).next_ticket(),
            final(self).published() == old(self).published(),
    {
        self.correlator.clear();
        self.events.close();
    }

    /// Records that a line could not be written: the session is closed, and
    /// the caller is told of the write failure.
    pub fn write_failed(&mut self) -> (failure: BridgeError)
        ensures
            failure == BridgeError::Write,
            !final(self).is_open(),
            final(self).pending() == Pending::empty(),
            final(self).next_ticket() == old(self).next_ticket(),
            final(self).published() == old(self).published(),
    {
        self.close();
        BridgeError::Write
    }
}

} // verus!
