//! The time distribution channel.
//!
//! A [`TimeChannel`] is a single slot that holds the most recently published
//! timestamp. Publishing overwrites the slot and never waits. Each
//! [`TimeReader`] remembers the value it observed last; asked for the next
//! value, it hands out what the slot holds as soon as that differs from what
//! it remembers, and has nothing to hand out until then. There is no backlog:
//! values that were overwritten before a reader looked are gone.

use vstd::prelude::*;
use crate::timestamp::Timestamp;

verus! {

/// What a reader that last observed `observed` is handed when the slot holds
/// `latest`: the stored value where there is one and it differs from the
/// observed one, nothing otherwise.
pub open spec fn pending(observed: Option<Timestamp>, latest: Option<Timestamp>) -> Option<
    Timestamp,
> {
    if latest is Some && latest != observed {
        latest
    } else {
        None
    }
}

/// What a reader that last observed `observed` remembers after it looked at
/// a slot that holds `latest`: what it was handed, or what it remembered
/// where it was handed nothing.
pub open spec fn observed_after(observed: Option<Timestamp>, latest: Option<Timestamp>) -> Option<
    Timestamp,
> {
    if pending(observed, latest) is Some {
        latest
    } else {
        observed
    }
}

/// What a slot that held `slot` holds after `time` was published into it:
/// `time`, whatever it held.
pub open spec fn published(slot: Option<Timestamp>, time: Timestamp) -> Option<Timestamp> {
    Some(time)
}

/// The slot: the most recently published timestamp, if any was published.
#[derive(Clone, Copy, Debug, PartialEq, Eq, Structural)]
pub struct TimeChannel {
    latest: Option<Timestamp>,
}

impl View for TimeChannel {
    type V = Option<Timestamp>;

    /// What the slot holds.
    closed spec fn view(&self) -> Option<Timestamp> {
        self.latest
    }
}

impl TimeChannel {
    /// An empty channel.
    pub fn new() -> (r: TimeChannel)
        ensures
            r@ is None,
    {
        TimeChannel { latest: None }
    }

    /// Overwrites the slot with `time`.
    pub fn publish(&mut self, time: Timestamp)
        ensures
            final(self)@ == published(old(self)@, time),
    {
        self.latest = Some(time);
    }

    /// What the slot holds.
    pub fn latest(&self) -> (r: Option<Timestamp>)
        ensures
            r == self@,
    {
        self.latest
    }

    /// A reader that has observed nothing yet.
    pub fn reader(&self) -> (r: TimeReader)
        ensures
            r@ is None,
    {
        TimeReader::new()
    }
}

/// One reader's memory: the value it observed last.
#[derive(Clone, Copy, Debug, PartialEq, Eq, Structural)]
pub struct TimeReader {
    observed: Option<Timestamp>,
}

impl View for TimeReader {
    type V = Option<Timestamp>;

    /// The value observed last.
    closed spec fn view(&self) -> Option<Timestamp> {
        self.observed
    }
}

impl TimeReader {
    /// A reader that has observed nothing yet.
    pub fn new() -> (r: TimeReader)
        ensures
            r@ is None,
    {
        TimeReader { observed: None }
    }

    /// Hands out the stored value if it differs from the one this reader
    /// observed last, and remembers it. `None` means that the reader has to
    /// wait for the next publication.
    pub fn try_changed(&mut self, channel: &TimeChannel) -> (r: Option<Timestamp>)
        ensures
            r == pending(old(self)@, channel@),
            final(self)@ == observed_after(old(self)@, channel@),
    {
        match channel.latest {
            Some(time) => {
                let fresh = match self.observed {
                    Some(seen) => seen != time,
                    None => true,
                };
                if fresh {
                    self.observed = Some(time);
                    Some(time)
                } else {
                    None
                }
            },
            None => None,
        }
    }
}

/// What a slot that held `slot` holds after `times` were published into it
/// in order.
pub open spec fn slot_after_publishing(slot: Option<Timestamp>, times: Seq<Timestamp>) -> Option<
    Timestamp,
>
    decreases times.len(),
{
    if times.len() == 0 {
        slot
    } else {
        published(slot_after_publishing(slot, times.drop_last()), times.last())
    }
}

/// Latest value only: a reader that did not look while `missed` were
/// published one after the other finds only the last of them. On its next
/// look it is handed that one, unless it is the value the reader observed
/// last, and on the look after that it is handed nothing: there is no
/// history of the values that were overwritten.
pub proof fn missed_publications_are_gone(
    observed: Option<Timestamp>,
    slot: Option<Timestamp>,
    missed: Seq<Timestamp>,
)
    requires
        missed.len() >= 1,
    ensures
        ({
            let found = slot_after_publishing(slot, missed);
            &&& found == Some(missed.last())
            &&& pending(observed, found) == (if observed == found {
                None
            } else {
                found
            })
            &&& pending(observed_after(observed, found), found) is None
        }),
{
}

} // verus!
