//! What holds of the bridge whatever the calls and lines are.
//!
//! Each law is stated over the same functions as the contracts of
//! [`crate::session::BridgeSession`], of
//! [`crate::broadcaster::EventBroadcaster`] and of
//! [`crate::broadcaster::StreamCursor`]: the pending map before and after a
//! response, a timeout or a cancellation; the count of numbered lines; and
//! the step and the cursor that follow a delivery.

use vstd::prelude::*;
use crate::broadcaster::Delivery;
use crate::broadcaster::LagPolicy;
use crate::broadcaster::StreamStep;
use crate::broadcaster::emitted_stamp;
use crate::broadcaster::emitted_stamps;
use crate::broadcaster::lags_fit;
use crate::broadcaster::lost_over;
use crate::broadcaster::numbers_line;
use crate::broadcaster::position_after;
use crate::broadcaster::position_over;
use crate::broadcaster::published_after;
use crate::broadcaster::published_over;
use crate::broadcaster::step_after;
use crate::correlator::Pending;
use crate::correlator::after_evict;
use crate::correlator::is_live;
use crate::error::BridgeError;
use crate::json::Members;
use crate::json::request_key_of;
use crate::session::WaitOutcome;
use crate::session::after_response;
use crate::session::reply_of;
use crate::session::response_key_of;
use crate::session::response_resolves;

verus! {

/// A response completes the request that waits under its identifier, and
/// that request only.
///
/// Let `request` be a waiting request and `response` an inbound document
/// whose identifier stands for the same key, and let another call wait under
/// a different key. Then the response finds a waiting call, the request's
/// entry is gone afterwards, and the other call waits on under its own
/// ticket.
pub proof fn lemma_response_completes_its_request_only(
    pending: Pending,
    request: Members,
    response: Option<Members>,
    other: Seq<char>,
)
    requires
        request_key_of(request) is Some,
        pending.contains_key(request_key_of(request)->0),
        response_key_of(response) == request_key_of(request),
        pending.contains_key(other),
        other != request_key_of(request)->0,
    ensures
        response_resolves(pending, response_key_of(response)),
        !after_response(pending, response_key_of(response)).contains_key(
            request_key_of(request)->0,
        ),
        after_response(pending, response_key_of(response)).contains_key(other),
        after_response(pending, response_key_of(response))[other] == pending[other],
{
}

/// A request that timed out fails with [`BridgeError::RpcTimeout`], leaves
/// no entry behind, and a response that arrives afterwards changes nothing.
///
/// Let the call named by (`key`, `ticket`) wait, let its wait time out, and
/// let `late` be an inbound document with its identifier. Then the caller is
/// told of the timeout, no call waits under `key` once the timeout is
/// concluded, and `late` finds no waiting call and leaves the pending map as
/// the timeout left it.
pub proof fn lemma_timeout_is_final(
    pending: Pending,
    key: Seq<char>,
    ticket: u64,
    late: Option<Members>,
)
    requires
        is_live(pending, key, ticket),
        response_key_of(late) == Some(key),
    ensures
        reply_of(WaitOutcome::TimedOut) == Err::<serde_json::Value, BridgeError>(
            BridgeError::RpcTimeout,
        ),
        !after_evict(pending, key, ticket).contains_key(key),
        !response_resolves(after_evict(pending, key, ticket), response_key_of(late)),
        after_response(after_evict(pending, key, ticket), response_key_of(late)) == after_evict(
            pending,
            key,
            ticket,
        ),
{
    assert(after_evict(pending, key, ticket).remove(key) =~= after_evict(pending, key, ticket));
}

/// A response and a timeout that race for one entry cannot both win: once
/// the response has completed the call, the caller's late timeout finds its
/// entry gone and removes nothing, not even a later request that took the
/// same key under a new ticket.
pub proof fn lemma_late_timeout_removes_nothing(
    pending: Pending,
    key: Seq<char>,
    ticket: u64,
    response: Option<Members>,
    later_ticket: u64,
)
    requires
        is_live(pending, key, ticket),
        response_key_of(response) == Some(key),
        later_ticket != ticket,
    ensures
        !is_live(after_response(pending, response_key_of(response)), key, ticket),
        after_evict(after_response(pending, response_key_of(response)), key, ticket)
            == after_response(pending, response_key_of(response)),
        after_evict(
            after_response(pending, response_key_of(response)).insert(key, later_ticket),
            key,
            ticket,
        ) == after_response(pending, response_key_of(response)).insert(key, later_ticket),
{
}

/// A subscriber that fell behind is never passed over in silence: under
/// either policy the step that follows a lag is a gap marker or a
/// disconnect, it carries the number of lines lost, and only the gap marker
/// lets the stream go on. This holds wherever the subscriber's cursor
/// stands.
pub proof fn lemma_lag_is_never_silent(next: u64, missed: u64, policy: LagPolicy)
    ensures
        step_after(next, Delivery::Lagged(missed), policy) == StreamStep::Gap(missed)
            || step_after(next, Delivery::Lagged(missed), policy) == StreamStep::Dropped(missed),
        step_after(next, Delivery::Lagged(missed), policy).goes_on() <==> policy
            == LagPolicy::Continue,
{
}

/// A stream passes lines on in publication order, each at most once, and
/// none from before its cursor: whatever a subscriber whose cursor stands at
/// `next` is handed, the numbers of the lines that its stream passes on are
/// all at or after `next` and below where the cursor stands in the end, and
/// each is larger than the one before it.
pub proof fn lemma_stream_is_ordered_and_never_replays(
    next: u64,
    deliveries: Seq<Delivery>,
    policy: LagPolicy,
)
    ensures
        forall|i: int|
            0 <= i < emitted_stamps(next, deliveries, policy).len() ==> next <= (
            #[trigger] emitted_stamps(next, deliveries, policy)[i]) < position_over(
                next,
                deliveries,
                policy,
            ),
        forall|i: int, j: int|
            0 <= i < j < emitted_stamps(next, deliveries, policy).len() ==> emitted_stamps(
                next,
                deliveries,
                policy,
            )[i] < emitted_stamps(next, deliveries, policy)[j],
        next <= position_over(next, deliveries, policy),
    decreases deliveries.len(),
{
    if deliveries.len() > 0 {
        let first = deliveries[0];
        let then = position_after(next, first, policy);
        let rest = emitted_stamps(then, deliveries.drop_first(), policy);
        lemma_stream_is_ordered_and_never_replays(then, deliveries.drop_first(), policy);
        assert(next <= then);
        match emitted_stamp(next, first, policy) {
            Some(stamp) => {
                assert(then == stamp + 1);
                let all = emitted_stamps(next, deliveries, policy);
                assert(all == seq![stamp] + rest);
                assert forall|i: int| 0 <= i < all.len() implies next <= (#[trigger] all[i])
                    < position_over(next, deliveries, policy) by {
                    if i > 0 {
                        assert(all[i] == rest[i - 1]);
                    }
                }
                assert forall|i: int, j: int| 0 <= i < j < all.len() implies all[i] < all[j] by {
                    assert(all[j] == rest[j - 1]);
                    if i > 0 {
                        assert(all[i] == rest[i - 1]);
                    }
                }
            },
            None => {},
        }
    }
}

/// Nothing is lost in silence: for a subscriber that goes on after a lag,
/// every line number that its cursor has passed was either passed on by the
/// stream or counted in a report of lost lines.
///
/// The cursor's advance over `deliveries` is the number of lines passed on
/// plus the number of lines reported lost.
pub proof fn lemma_every_line_is_delivered_or_reported(next: u64, deliveries: Seq<Delivery>)
    requires
        lags_fit(next, deliveries, LagPolicy::Continue),
    ensures
        position_over(next, deliveries, LagPolicy::Continue) - next == emitted_stamps(
            next,
            deliveries,
            LagPolicy::Continue,
        ).len() + lost_over(next, deliveries, LagPolicy::Continue),
    decreases deliveries.len(),
{
    if deliveries.len() > 0 {
        let then = position_after(next, deliveries[0], LagPolicy::Continue);
        lemma_every_line_is_delivered_or_reported(then, deliveries.drop_first());
    }
}

/// The count of numbered lines never goes down, however many lines are
/// published.
pub proof fn lemma_count_never_goes_down(open: bool, published: u64, more: nat)
    ensures
        published <= published_over(open, published, more),
    decreases more,
{
    if more > 0 {
        lemma_count_never_goes_down(open, published_after(open, published), (more - 1) as nat);
    }
}

/// A line published before a subscriber attached is never delivered to it.
///
/// Let a line get the number `published`, let any number of further lines
/// be published, and let a subscriber attach then: its cursor stands at the
/// count of lines numbered by then. Whatever that subscriber is handed
/// afterwards, its stream passes on no line with the number `published`.
pub proof fn lemma_line_published_before_attach_is_never_delivered(
    published: u64,
    more: nat,
    deliveries: Seq<Delivery>,
    policy: LagPolicy,
)
    requires
        numbers_line(true, published),
    ensures
        !emitted_stamps(
            published_over(true, published_after(true, published), more),
            deliveries,
            policy,
        ).contains(published),
{
    let attached_at = published_over(true, published_after(true, published), more);
    lemma_count_never_goes_down(true, published_after(true, published), more);
    lemma_stream_is_ordered_and_never_replays(attached_at, deliveries, policy);
}

} // verus!
