//! Fan-out of the subprocess's output lines to stream subscribers.
//!
//! The queue itself is `tokio::sync::broadcast`: a ring of bounded size that
//! a sender never waits on. A subscriber that falls behind by more than the
//! ring holds loses the oldest lines and is told how many.
//!
//! Every line is numbered when it is published, and the number travels with
//! it. A subscriber keeps a cursor, the number of the next line it has not
//! seen, and holds every delivery against it: a line below the cursor is
//! never passed on, a line above it shows that lines were lost, and a lag is
//! answered as the subscriber's policy says. What a stream hands to its
//! client is therefore in publication order and without repetition whatever
//! the queue does.

use vstd::prelude::*;

verus! {

/// `tokio::sync::broadcast::Sender`, opaque to the verifier.
#[verifier::external_type_specification]
#[verifier::external_body]
#[verifier::reject_recursive_types(T)]
pub struct ExEventSender<T>(tokio::sync::broadcast::Sender<T>);

/// `tokio::sync::broadcast::Receiver`, opaque to the verifier.
#[verifier::external_type_specification]
#[verifier::external_body]
#[verifier::reject_recursive_types(T)]
pub struct ExEventReceiver<T>(tokio::sync::broadcast::Receiver<T>);

/// `tokio::sync::broadcast::error::SendError`, opaque to the verifier.
#[verifier::external_type_specification]
#[verifier::external_body]
#[verifier::reject_recursive_types(T)]
pub struct ExEventSendError<T>(tokio::sync::broadcast::error::SendError<T>);

/// How many output lines a broadcaster keeps for a slow subscriber unless
/// told otherwise.
pub const EVENT_CAPACITY: usize = 1024;

/// The largest ring that `tokio::sync::broadcast::channel` accepts.
pub open spec fn max_capacity() -> int {
    usize::MAX as int / 2
}

/// Calls `tokio::sync::broadcast::channel` for numbered lines.
///
/// Trusted: the call returns for every capacity that is neither zero nor
/// above `usize::MAX / 2`; nothing is claimed of the two ends.
#[verifier::external_body]
fn line_channel(capacity: usize) -> (ends: (
    tokio::sync::broadcast::Sender<(u64, String)>,
    tokio::sync::broadcast::Receiver<(u64, String)>,
))
    requires
        0 < capacity <= max_capacity(),
{
    tokio::sync::broadcast::channel(capacity)
}

/// Calls `tokio::sync::broadcast::Sender::send`.
///
/// Trusted: the call succeeds only while a receiver is subscribed, and then
/// returns how many there are.
#[verifier::external_body]
fn send_line(sender: &tokio::sync::broadcast::Sender<(u64, String)>, line: (u64, String)) -> (sent:
    Result<usize, tokio::sync::broadcast::error::SendError<(u64, String)>>)
    ensures
        sent matches Ok(reached) ==> reached > 0,
{
    sender.send(line)
}

/// Calls `tokio::sync::broadcast::Sender::subscribe`.
///
/// Trusted: nothing is claimed of the receiver. The call panics once a
/// channel has `usize::MAX / 4` receivers, more than fit into memory.
#[verifier::external_body]
fn attach(sender: &tokio::sync::broadcast::Sender<(u64, String)>) -> (receiver:
    tokio::sync::broadcast::Receiver<(u64, String)>) {
    sender.subscribe()
}

/// What one attempt to receive on a subscription gave.
#[derive(Debug, PartialEq, Eq)]
pub enum Delivery {
    /// A line, verbatim, with the number it was published under.
    Line(u64, String),
    /// The subscriber fell behind and this many lines were dropped for it.
    Lagged(u64),
    /// The stream has ended.
    Closed,
}

/// What a subscriber does when lines were dropped on its behalf.
#[derive(Clone, Copy, Debug, PartialEq, Eq)]
pub enum LagPolicy {
    /// Accept the loss and go on with the oldest line still queued.
    Continue,
    /// Leave the stream.
    Disconnect,
}

/// What the stream to one client does next.
#[derive(Debug, PartialEq, Eq)]
pub enum StreamStep {
    /// Deliver this line. `missed` lines before it were lost without a word
    /// from the queue; with a queue that reports every lag it is zero.
    Emit { line: String, missed: u64 },
    /// Tell the client that this many lines are missing, and go on.
    Gap(u64),
    /// Deliver nothing: the line was at or before one already delivered.
    Skip,
    /// Disconnect the client because it fell behind by this many lines.
    Dropped(u64),
    /// End the stream normally.
    End,
}

impl StreamStep {
    /// Whether the subscription is read again after this step.
    pub open spec fn goes_on(self) -> bool {
        self is Emit || self is Gap || self is Skip
    }

    /// Whether the subscription is read again after this step.
    pub fn continues(&self) -> (again: bool)
        ensures
            again == self.goes_on(),
    {
        match self {
            StreamStep::Emit { .. } => true,
            StreamStep::Gap(_) => true,
            StreamStep::Skip => true,
            StreamStep::Dropped(_) => false,
            StreamStep::End => false,
        }
    }
}

/// Whether a line numbered `stamp` is new to a subscriber whose cursor is at
/// `next`. The last number that a `u64` holds is never given to a line.
pub open spec fn is_new(next: u64, stamp: u64) -> bool {
    next <= stamp < u64::MAX
}

/// The step that follows a delivery for a subscriber whose cursor is at
/// `next`, under a lag policy.
pub open spec fn step_after(next: u64, delivery: Delivery, policy: LagPolicy) -> StreamStep {
    match delivery {
        Delivery::Line(stamp, line) => {
            if !is_new(next, stamp) {
                StreamStep::Skip
            } else if stamp > next && policy == LagPolicy::Disconnect {
                StreamStep::Dropped((stamp - next) as u64)
            } else {
                StreamStep::Emit { line, missed: (stamp - next) as u64 }
            }
        },
        Delivery::Lagged(missed) => match policy {
            LagPolicy::Continue => StreamStep::Gap(missed),
            LagPolicy::Disconnect => StreamStep::Dropped(missed),
        },
        Delivery::Closed => StreamStep::End,
    }
}

/// The number of the line that a delivery makes the stream pass on, if it
/// makes it pass one on.
pub open spec fn emitted_stamp(next: u64, delivery: Delivery, policy: LagPolicy) -> Option<u64> {
    match delivery {
        Delivery::Line(stamp, _) => if step_after(next, delivery, policy) is Emit {
            Some(stamp)
        } else {
            None
        },
        _ => None,
    }
}

/// How many lines a delivery makes the stream report as lost while it goes
/// on.
pub open spec fn reported_lost(next: u64, delivery: Delivery, policy: LagPolicy) -> nat {
    match step_after(next, delivery, policy) {
        StreamStep::Emit { missed, .. } => missed as nat,
        StreamStep::Gap(missed) => missed as nat,
        _ => 0,
    }
}

/// Where the cursor stands after a delivery: behind the line passed on,
/// or further by the lines reported lost, or where it stood.
pub open spec fn position_after(next: u64, delivery: Delivery, policy: LagPolicy) -> u64 {
    match step_after(next, delivery, policy) {
        StreamStep::Emit { missed, .. } => (next + missed + 1) as u64,
        StreamStep::Gap(missed) => if next + missed > u64::MAX {
            u64::MAX
        } else {
            (next + missed) as u64
        },
        _ => next,
    }
}

/// The cursor of one subscriber: the number of the next line that it has
/// not seen.
#[derive(Debug)]
pub struct StreamCursor {
    next: u64,
}

impl StreamCursor {
    /// The number of the next line that the subscriber has not seen.
    pub closed spec fn position(&self) -> u64 {
        self.next
    }

    /// The number of the next line that the subscriber has not seen.
    pub fn next_stamp(&self) -> (next: u64)
        ensures
            next == self.position(),
    {
        self.next
    }

    /// Holds a delivery against the cursor and decides what the stream does
    /// with it: a new line is passed on as it is, together with the number
    /// of lines that went missing before it; a line that is not new is
    /// skipped; a lag is never passed over in silence; and the end of the
    /// stream is a normal end.
    pub fn accept(&mut self, delivery: Delivery, policy: LagPolicy) -> (step: StreamStep)
        ensures
            step == step_after(old(self).position(), delivery, policy),
            final(self).position() == position_after(old(self).position(), delivery, policy),
    {
        match delivery {
            Delivery::Line(stamp, line) => {
                if stamp < self.next || stamp == u64::MAX {
                    StreamStep::Skip
                } else {
                    let missed = stamp - self.next;
                    match policy {
                        LagPolicy::Disconnect => {
                            if missed > 0 {
                                StreamStep::Dropped(missed)
                            } else {
                                self.next = stamp + 1;
                                StreamStep::Emit { line, missed }
                            }
                        },
                        LagPolicy::Continue => {
                            self.next = stamp + 1;
                            StreamStep::Emit { line, missed }
                        },
                    }
                }
            },
            Delivery::Lagged(missed) => match policy {
                LagPolicy::Continue => {
                    self.next = if missed > u64::MAX - self.next {
                        u64::MAX
                    } else {
                        self.next + missed
                    };
                    StreamStep::Gap(missed)
                },
                LagPolicy::Disconnect => StreamStep::Dropped(missed),
            },
            Delivery::Closed => StreamStep::End,
        }
    }
}

/// What a subscriber holds: its cursor and the receiving end of the queue.
pub struct Subscription {
    pub cursor: StreamCursor,
    pub receiver: tokio::sync::broadcast::Receiver<(u64, String)>,
}

/// Whether a line published now gets a number: the broadcaster is open and
/// has a number left.
pub open spec fn numbers_line(open: bool, published: u64) -> bool {
    open && published < u64::MAX
}

/// How many lines were numbered once another was published.
pub open spec fn published_after(open: bool, published: u64) -> u64 {
    if numbers_line(open, published) {
        (published + 1) as u64
    } else {
        published
    }
}

/// How many lines were numbered once `more` further lines were published.
pub open spec fn published_over(open: bool, published: u64, more: nat) -> u64
    decreases more,
{
    if more == 0 {
        published
    } else {
        published_over(open, published_after(open, published), (more - 1) as nat)
    }
}

/// The sending side of a session's output stream.
pub struct EventBroadcaster {
    sender: Option<tokio::sync::broadcast::Sender<(u64, String)>>,
    next_stamp: u64,
}

impl EventBroadcaster {
    /// Whether lines can still be published.
    pub closed spec fn is_open(&self) -> bool {
        self.sender is Some
    }

    /// How many lines were numbered so far. The next line gets this number.
    pub closed spec fn published(&self) -> u64 {
        self.next_stamp
    }

    /// Whether lines can still be published.
    pub fn accepts(&self) -> (open: bool)
        ensures
            open == self.is_open(),
    {
        self.sender.is_some()
    }

    /// An open broadcaster whose ring holds [`EVENT_CAPACITY`] lines.
    pub fn new() -> (made: Self)
        ensures
            made.is_open(),
            made.published() == 0,
    {
        let (sender, _) = line_channel(EVENT_CAPACITY);
        EventBroadcaster { sender: Some(sender), next_stamp: 0 }
    }

    /// An open broadcaster whose ring holds `capacity` lines, rounded up to
    /// a power of two; `None` for a capacity that no ring can have.
    pub fn with_capacity(capacity: usize) -> (made: Option<Self>)
        ensures
            made is Some <==> 0 < capacity <= max_capacity(),
            made matches Some(broadcaster) ==> broadcaster.is_open() && broadcaster.published()
                == 0,
    {
        if capacity == 0 || capacity > usize::MAX / 2 {
            None
        } else {
            let (sender, _) = line_channel(capacity);
            Some(EventBroadcaster { sender: Some(sender), next_stamp: 0 })
        }
    }

    /// Gives `line` its number in the stream: the count of lines numbered
    /// before it. A closed broadcaster, or one that has used up every
    /// number, gives none.
    pub fn number(&mut self, line: String) -> (numbered: Option<(u64, String)>)
        ensures
            final(self).is_open() == old(self).is_open(),
            final(self).published() == published_after(old(self).is_open(), old(self).published()),
            numbered is Some <==> numbers_line(old(self).is_open(), old(self).published()),
            numbered matches Some(pair) ==> pair.0 == old(self).published() && pair.1 == line,
    {
        let stamp = self.next_stamp;
        if self.sender.is_none() || stamp == u64::MAX {
            None
        } else {
            self.next_stamp = stamp + 1;
            Some((stamp, line))
        }
    }

    /// Numbers `line` and hands it to every current subscriber without
    /// waiting for any of them, and says how many there were. With no
    /// subscriber the line is numbered and dropped. After
    /// [`EventBroadcaster::close`], or once every number is used up, the
    /// line is dropped unnumbered.
    pub fn publish(&mut self, line: String) -> (reached: usize)
        ensures
            final(self).is_open() == old(self).is_open(),
            final(self).published() == published_after(old(self).is_open(), old(self).published()),
            !numbers_line(old(self).is_open(), old(self).published()) ==> reached == 0,
    {
        match self.number(line) {
            Some(numbered) => match &self.sender {
                Some(sender) => match send_line(sender, numbered) {
                    Ok(reached) => reached,
                    Err(_) => 0,
                },
                None => 0,
            },
            None => 0,
        }
    }

    /// A new subscription, whose cursor stands at the next line to be
    /// published; `None` once the broadcaster is closed.
    pub fn subscribe(&self) -> (subscription: Option<Subscription>)
        ensures
            subscription is Some <==> self.is_open(),
            subscription matches Some(attached) ==> attached.cursor.position() == self.published(),
    {
        match &self.sender {
            Some(sender) => Some(
                Subscription {
                    cursor: StreamCursor { next: self.next_stamp },
                    receiver: attach(sender),
                },
            ),
            None => None,
        }
    }

    /// Ends the stream: the sender is dropped, so that every subscriber is
    /// told of the end once it has read what is still queued.
    pub fn close(&mut self)
        ensures
            !final(self).is_open(),
            final(self).published() == old(self).published(),
    {
        self.sender = None;
    }
}

/// The numbers of the lines that a stream passes on, in the order in which
/// it passes them on, when a subscriber whose cursor is at `next` is handed
/// `deliveries` one after the other.
pub open spec fn emitted_stamps(next: u64, deliveries: Seq<Delivery>, policy: LagPolicy) -> Seq<u64>
    decreases deliveries.len(),
{
    if deliveries.len() == 0 {
        Seq::empty()
    } else {
        let rest = emitted_stamps(
            position_after(next, deliveries[0], policy),
            deliveries.drop_first(),
            policy,
        );
        match emitted_stamp(next, deliveries[0], policy) {
            Some(stamp) => seq![stamp] + rest,
            None => rest,
        }
    }
}

/// How many lines a stream reports as lost over `deliveries`.
pub open spec fn lost_over(next: u64, deliveries: Seq<Delivery>, policy: LagPolicy) -> nat
    decreases deliveries.len(),
{
    if deliveries.len() == 0 {
        0
    } else {
        reported_lost(next, deliveries[0], policy) + lost_over(
            position_after(next, deliveries[0], policy),
            deliveries.drop_first(),
            policy,
        )
    }
}

/// Where the cursor stands after `deliveries`.
pub open spec fn position_over(next: u64, deliveries: Seq<Delivery>, policy: LagPolicy) -> u64
    decreases deliveries.len(),
{
    if deliveries.len() == 0 {
        next
    } else {
        position_over(
            position_after(next, deliveries[0], policy),
            deliveries.drop_first(),
            policy,
        )
    }
}

/// Whether no reported lag over `deliveries` is larger than the numbers
/// that are left: a lag of that size cannot come from a stream whose lines
/// are numbered.
pub open spec fn lags_fit(next: u64, deliveries: Seq<Delivery>, policy: LagPolicy) -> bool
    decreases deliveries.len(),
{
    if deliveries.len() == 0 {
        true
    } else {
        &&& deliveries[0] matches Delivery::Lagged(missed) ==> next + missed <= u64::MAX
        &&& lags_fit(
            position_after(next, deliveries[0], policy),
            deliveries.drop_first(),
            policy,
        )
    }
}

} // verus!
