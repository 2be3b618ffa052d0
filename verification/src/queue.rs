//! The display command queue.
//!
//! Requests to the display wait in a bounded first-in, first-out queue until
//! the display task takes them. The queue never drops a request: when it is
//! full, `try_send` hands the request back, and the sender has to wait until
//! the display task has taken one out.
//!
//! The requests are stored in a channel of `embassy-sync`; the functions that
//! call it are marked as trusted.

use vstd::prelude::*;
use embassy_sync::blocking_mutex::raw::NoopRawMutex;
use embassy_sync::channel::{Channel, TrySendError};
use crate::display::DisplayCommad;

verus! {

/// Number of requests that the queue holds at most.
pub const QUEUE_CAPACITY: usize = 8;

/// The channel that stores the requests: a `Channel` of `embassy-sync` with
/// room for `QUEUE_CAPACITY` of them. It is reached through exclusive
/// references only, so its lock is the one that does nothing.
#[verifier::external_body]
pub struct CommandChannel {
    inner: Channel<NoopRawMutex, DisplayCommad, QUEUE_CAPACITY>,
}

/// The requests that a channel holds, oldest first.
pub uninterp spec fn channel_commands(channel: CommandChannel) -> Seq<DisplayCommad>;

/// Calls `Channel::new`, which gives an empty channel.
#[verifier::external_body]
fn channel_new() -> (r: CommandChannel)
    ensures
        channel_commands(r) == Seq::<DisplayCommad>::empty(),
{
    CommandChannel { inner: Channel::new() }
}

/// Calls `Channel::len`, the number of requests in the channel.
#[verifier::external_body]
fn channel_len(channel: &CommandChannel) -> (r: usize)
    ensures
        r == channel_commands(*channel).len(),
{
    channel.inner.len()
}

/// Calls `Channel::try_send`. Below capacity the request is appended behind
/// the others. At capacity the call fails, hands the request back, and the
/// channel stays as it was.
#[verifier::external_body]
fn channel_try_send(channel: &mut CommandChannel, command: DisplayCommad) -> (r: Result<
    (),
    DisplayCommad,
>)
    ensures
        match r {
            Ok(()) => channel_commands(*old(channel)).len() < QUEUE_CAPACITY && channel_commands(
                *final(channel),
            ) == channel_commands(*old(channel)).push(command),
            Err(back) => channel_commands(*old(channel)).len() >= QUEUE_CAPACITY && back
                == command && channel_commands(*final(channel)) == channel_commands(
                *old(channel),
            ),
        },
    no_unwind
{
    match channel.inner.try_send(command) {
        Ok(()) => Ok(()),
        Err(TrySendError::Full(back)) => Err(back),
    }
}

/// Calls `Channel::try_receive`. The oldest request is taken out and handed
/// over; an empty channel hands over nothing and stays empty.
#[verifier::external_body]
fn channel_try_receive(channel: &mut CommandChannel) -> (r: Option<DisplayCommad>)
    ensures
        match r {
            Some(command) => channel_commands(*old(channel)).len() > 0 && command
                == channel_commands(*old(channel))[0] && channel_commands(*final(channel))
                == channel_commands(*old(channel)).drop_first(),
            None => channel_commands(*old(channel)).len() == 0 && channel_commands(
                *final(channel),
            ) == channel_commands(*old(channel)),
        },
    no_unwind
{
    channel.inner.try_receive().ok()
}

/// The queue of requests to the display.
pub struct DisplayQueue {
    channel: CommandChannel,
}

impl View for DisplayQueue {
    type V = Seq<DisplayCommad>;

    /// The waiting requests, oldest first.
    closed spec fn view(&self) -> Seq<DisplayCommad> {
        channel_commands(self.channel)
    }
}

impl DisplayQueue {
    /// The queue never holds more than its capacity.
    #[verifier::type_invariant]
    pub open spec fn is_valid(&self) -> bool {
        self@.len() <= QUEUE_CAPACITY
    }

    /// An empty queue.
    pub fn new() -> (r: DisplayQueue)
        ensures
            r@ == Seq::<DisplayCommad>::empty(),
    {
        DisplayQueue { channel: channel_new() }
    }

    /// Number of requests that the queue holds at most.
    pub fn capacity(&self) -> (r: usize)
        ensures
            r == QUEUE_CAPACITY,
    {
        QUEUE_CAPACITY
    }

    /// Number of waiting requests.
    pub fn len(&self) -> (r: usize)
        ensures
            r == self@.len(),
            r <= QUEUE_CAPACITY,
    {
        proof {
            use_type_invariant(self);
        }
        channel_len(&self.channel)
    }

    /// Whether no request waits.
    pub fn is_empty(&self) -> (r: bool)
        ensures
            r == (self@.len() == 0),
    {
        self.len() == 0
    }

    /// Whether the queue is at capacity, so that a sender has to wait.
    pub fn is_full(&self) -> (r: bool)
        ensures
            r == (self@.len() == QUEUE_CAPACITY),
    {
        self.len() == QUEUE_CAPACITY
    }

    /// Puts `command` behind the waiting requests. A full queue takes
    /// nothing and hands `command` back: the sender keeps it and tries again
    /// once a request has been taken out.
    pub fn try_send(&mut self, command: DisplayCommad) -> (r: Result<(), DisplayCommad>)
        ensures
            final(self)@ == after_send(old(self)@, command),
            match r {
                Ok(_) => accepts(old(self)@),
                Err(back) => !accepts(old(self)@) && back == command,
            },
            final(self)@.len() <= QUEUE_CAPACITY,
    {
        proof {
            use_type_invariant(&*self);
        }
        channel_try_send(&mut self.channel, command)
    }

    /// Takes the oldest request out of the queue, if one waits.
    pub fn try_receive(&mut self) -> (r: Option<DisplayCommad>)
        ensures
            final(self)@ == after_receive(old(self)@),
            r == (if old(self)@.len() > 0 {
                Some(old(self)@[0])
            } else {
                None
            }),
            final(self)@.len() <= QUEUE_CAPACITY,
    {
        proof {
            use_type_invariant(&*self);
        }
        channel_try_receive(&mut self.channel)
    }
}

/// Whether a queue that holds `waiting` takes one more request.
pub open spec fn accepts(waiting: Seq<DisplayCommad>) -> bool {
    waiting.len() < QUEUE_CAPACITY
}

/// What a queue that held `waiting` holds after an attempt to send
/// `command`.
pub open spec fn after_send(waiting: Seq<DisplayCommad>, command: DisplayCommad) -> Seq<
    DisplayCommad,
> {
    if accepts(waiting) {
        waiting.push(command)
    } else {
        waiting
    }
}

/// What a queue that held `waiting` holds after an attempt to receive.
pub open spec fn after_receive(waiting: Seq<DisplayCommad>) -> Seq<DisplayCommad> {
    if waiting.len() > 0 {
        waiting.drop_first()
    } else {
        waiting
    }
}

/// One attempt on the queue: to send a request, or to receive one.
pub enum Attempt {
    Send(DisplayCommad),
    Receive,
}

/// What a queue that held `waiting` holds after `attempts` were made on it in
/// order.
pub open spec fn after_attempts(waiting: Seq<DisplayCommad>, attempts: Seq<Attempt>) -> Seq<
    DisplayCommad,
>
    decreases attempts.len(),
{
    if attempts.len() == 0 {
        waiting
    } else {
        let before = after_attempts(waiting, attempts.drop_last());
        match attempts.last() {
            Attempt::Send(command) => after_send(before, command),
            Attempt::Receive => after_receive(before),
        }
    }
}

/// Bounded: whatever is attempted on a queue that holds no more than its
/// capacity, in whatever order, it never holds more than its capacity.
pub proof fn capacity_is_never_exceeded(waiting: Seq<DisplayCommad>, attempts: Seq<Attempt>)
    requires
        waiting.len() <= QUEUE_CAPACITY,
    ensures
        after_attempts(waiting, attempts).len() <= QUEUE_CAPACITY,
    decreases attempts.len(),
{
    if attempts.len() > 0 {
        capacity_is_never_exceeded(waiting, attempts.drop_last());
    }
}

/// Backpressure: a full queue takes no request and loses none, so that the
/// sender has to wait; as soon as one request has been received the sender's
/// request is taken, and it waits behind all that were sent before it.
pub proof fn full_queue_holds_sender_until_a_receive(
    waiting: Seq<DisplayCommad>,
    command: DisplayCommad,
)
    requires
        waiting.len() == QUEUE_CAPACITY,
    ensures
        !accepts(waiting),
        after_send(waiting, command) == waiting,
        accepts(after_receive(waiting)),
        after_send(after_receive(waiting), command) == waiting.drop_first().push(command),
        after_send(after_receive(waiting), command).len() == QUEUE_CAPACITY,
{
}

/// First in, first out: requests that were taken by the queue are received
/// in the order in which they were sent, each of them once.
pub proof fn requests_leave_in_order(waiting: Seq<DisplayCommad>, command: DisplayCommad)
    requires
        accepts(waiting),
    ensures
        waiting.len() > 0 ==> after_send(waiting, command)[0] == waiting[0],
        waiting.len() > 0 ==> after_receive(after_send(waiting, command)) == after_send(
            after_receive(waiting),
            command,
        ),
        waiting.len() == 0 ==> after_send(waiting, command)[0] == command,
        waiting.len() == 0 ==> after_receive(after_send(waiting, command)) == waiting,
{
    if waiting.len() > 0 {
    } else {
    }
}

} // verus!
