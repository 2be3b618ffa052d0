//! The wall clock estimator.
//!
//! A [`WallClock`] keeps the best known calendar time. Each request for the
//! time comes with the outcome of one attempt to read the hardware clock and
//! with the current monotonic instant. A successful read is authoritative: it
//! replaces the estimate, even where that moves time backward. A failed read
//! leaves the clock as it was and answers with the last authoritative time
//! plus the monotonic time that has passed since it was taken.

use vstd::prelude::*;
use crate::channel::{observed_after, pending, TimeChannel, TimeReader};
use crate::timestamp::{
    saturating_advance, LocalTimestamp, Timestamp, UtcOffset, MIN_UNIX_SECONDS,
};

verus! {

/// Microseconds in a second.
pub const MICROS_PER_SECOND: u64 = 1_000_000;

/// Whole seconds between the monotonic readings `earlier` and `now`, both in
/// microseconds; zero where `now` is not after `earlier`.
pub open spec fn elapsed_seconds(earlier: int, now: int) -> int {
    if now >= earlier {
        (now - earlier) / (MICROS_PER_SECOND as int)
    } else {
        0
    }
}

/// A reading of the monotonic clock, in microseconds since it started.
#[derive(Clone, Copy, Debug, PartialEq, Eq, Structural)]
pub struct MonotonicInstant {
    micros: u64,
}

impl View for MonotonicInstant {
    type V = int;

    /// Microseconds since the monotonic clock started.
    closed spec fn view(&self) -> int {
        self.micros as int
    }
}

impl MonotonicInstant {
    /// The reading `micros` microseconds after the clock started.
    pub fn from_micros(micros: u64) -> (r: MonotonicInstant)
        ensures
            r@ == micros,
    {
        MonotonicInstant { micros }
    }

    /// Microseconds since the clock started.
    pub fn as_micros(&self) -> (r: u64)
        ensures
            r == self@,
    {
        self.micros
    }

    /// Whole seconds that passed from `earlier` to this reading; zero where
    /// this reading is not the later one.
    pub fn seconds_since(&self, earlier: MonotonicInstant) -> (r: u64)
        ensures
            r == elapsed_seconds(earlier@, self@),
    {
        if self.micros >= earlier.micros {
            (self.micros - earlier.micros) / MICROS_PER_SECOND
        } else {
            0
        }
    }
}

/// The estimator's state: the last authoritative time, the monotonic instant
/// at which it was taken, and the offset of local time.
#[derive(Clone, Copy, Debug, PartialEq, Eq, Structural)]
pub struct WallClock {
    last_known_time: Timestamp,
    last_time_check: MonotonicInstant,
    timezone: UtcOffset,
}

impl WallClock {
    /// The last authoritative time.
    pub closed spec fn last_known_time(&self) -> Timestamp {
        self.last_known_time
    }

    /// The monotonic instant at which the last authoritative time was taken.
    pub closed spec fn last_time_check(&self) -> MonotonicInstant {
        self.last_time_check
    }

    /// The offset of local time.
    pub closed spec fn timezone(&self) -> UtcOffset {
        self.timezone
    }

    /// The clock's parts are valid values.
    pub open spec fn is_valid(&self) -> bool {
        self.last_known_time().is_valid() && self.timezone().is_valid()
    }

    /// The estimate at the monotonic instant `now`: the last authoritative
    /// time plus the whole seconds that have passed since it was taken, in
    /// seconds since the Unix epoch.
    pub open spec fn extrapolated(&self, now: MonotonicInstant) -> int {
        saturating_advance(
            self.last_known_time()@,
            elapsed_seconds(self.last_time_check()@, now@),
        )
    }

    /// The clock after a request for the time at `now` that came with
    /// `reading`: reset to the reading where there is one, unchanged where
    /// the read failed.
    pub closed spec fn after_reading(
        &self,
        reading: Option<Timestamp>,
        now: MonotonicInstant,
    ) -> WallClock {
        match reading {
            Some(t) => WallClock {
                last_known_time: t,
                last_time_check: now,
                timezone: self.timezone,
            },
            None => *self,
        }
    }

    /// The time, in seconds since the Unix epoch, that a request at `now`
    /// answers with when it came with `reading`.
    pub open spec fn answer(&self, reading: Option<Timestamp>, now: MonotonicInstant) -> int {
        match reading {
            Some(t) => t@,
            None => self.extrapolated(now),
        }
    }

    /// What `after_reading` does to each part of the clock.
    pub proof fn lemma_after_reading(&self, reading: Option<Timestamp>, now: MonotonicInstant)
        ensures
            reading is None ==> self.after_reading(reading, now) == *self,
            reading matches Some(t) ==> {
                &&& self.after_reading(reading, now).last_known_time() == t
                &&& self.after_reading(reading, now).last_time_check() == now
                &&& self.after_reading(reading, now).timezone() == self.timezone()
            },
    {
    }

    /// Starts the clock from the outcome of one read of the hardware clock,
    /// taken at the monotonic instant `now`. Where the read failed the clock
    /// starts at the earliest timestamp there is.
    pub fn init(reading: Option<Timestamp>, now: MonotonicInstant, timezone: UtcOffset) -> (r:
        WallClock)
        ensures
            r.is_valid(),
            r.last_time_check() == now,
            r.timezone() == timezone,
            reading matches Some(t) ==> r.last_known_time() == t,
            reading is None ==> r.last_known_time()@ == MIN_UNIX_SECONDS,
    {
        proof {
            use_type_invariant(timezone);
        }
        let start = match reading {
            Some(t) => {
                proof {
                    use_type_invariant(t);
                }
                t
            },
            None => Timestamp::earliest(),
        };
        WallClock { last_known_time: start, last_time_check: now, timezone }
    }

    /// Answers a request for the time. `reading` is the outcome of the one
    /// attempt to read the hardware clock that belongs to this request, and
    /// `now` the monotonic instant of the request.
    pub fn now_utc(&mut self, reading: Option<Timestamp>, now: MonotonicInstant) -> (r: Timestamp)
        ensures
            r.is_valid(),
            r@ == old(self).answer(reading, now),
            *final(self) == old(self).after_reading(reading, now),
            reading matches Some(t) ==> r == t,
    {
        match reading {
            Some(t) => {
                proof {
                    use_type_invariant(t);
                }
                self.last_known_time = t;
                self.last_time_check = now;
                t
            },
            None => {
                let elapsed = now.seconds_since(self.last_time_check);
                self.last_known_time.advanced_by(elapsed)
            },
        }
    }

    /// Takes `time` as authoritative: the clock restarts from it at the
    /// monotonic instant `now`.
    pub fn synchronize(&mut self, time: Timestamp, now: MonotonicInstant)
        ensures
            *final(self) == old(self).after_reading(Some(time), now),
    {
        self.last_known_time = time;
        self.last_time_check = now;
    }

    /// Looks at the distribution channel on behalf of `reader` and takes a
    /// newly published time as authoritative. Returns that time; where there
    /// is none the clock stays as it was.
    pub fn follow(&mut self, reader: &mut TimeReader, channel: &TimeChannel, now: MonotonicInstant)
        -> (r: Option<Timestamp>)
        ensures
            r == pending(old(reader)@, channel@),
            final(reader)@ == observed_after(old(reader)@, channel@),
            *final(self) == old(self).after_reading(r, now),
    {
        let published = reader.try_changed(channel);
        if let Some(time) = published {
            self.synchronize(time, now);
        }
        published
    }

    /// Answers a request for the time as `now_utc` does, and reads the answer
    /// under the clock's offset.
    pub fn now_local(&mut self, reading: Option<Timestamp>, now: MonotonicInstant) -> (r:
        LocalTimestamp)
        ensures
            r.utc()@ == old(self).answer(reading, now),
            r.utc().is_valid(),
            r.zone() == old(self).timezone(),
            *final(self) == old(self).after_reading(reading, now),
            reading matches Some(t) ==> r.utc() == t,
    {
        let utc = self.now_utc(reading, now);
        utc.with_timezone(self.timezone)
    }
}

/// One request for the time: the outcome of the read of the hardware clock
/// that belongs to it, and the monotonic instant at which it is made.
pub struct Request {
    pub reading: Option<Timestamp>,
    pub at: MonotonicInstant,
}

impl WallClock {
    /// The clock after it has answered `requests` in order.
    pub open spec fn after_requests(&self, requests: Seq<Request>) -> WallClock
        decreases requests.len(),
    {
        if requests.len() == 0 {
            *self
        } else {
            self.after_requests(requests.drop_last()).after_reading(
                requests.last().reading,
                requests.last().at,
            )
        }
    }

    /// The answer, in seconds since the Unix epoch, to the request at
    /// position `i` of `requests`, given that the clock answered those before
    /// it in order.
    pub open spec fn answer_in(&self, requests: Seq<Request>, i: int) -> int {
        self.after_requests(requests.take(i)).answer(requests[i].reading, requests[i].at)
    }

    /// A run of requests whose reads all failed leaves the clock as it was.
    pub proof fn lemma_failures_keep_state(&self, requests: Seq<Request>)
        requires
            forall|k: int| 0 <= k < requests.len() ==> requests[k].reading is None,
        ensures
            self.after_requests(requests) == *self,
        decreases requests.len(),
    {
        if requests.len() > 0 {
            self.lemma_failures_keep_state(requests.drop_last());
        }
    }

    /// Monotonic extrapolation: in a run of requests whose reads all fail, a
    /// request made at a later monotonic instant is never answered with an
    /// earlier time than one made before it.
    pub proof fn failures_never_move_time_backward(
        &self,
        requests: Seq<Request>,
        i: int,
        j: int,
    )
        requires
            forall|k: int| 0 <= k < requests.len() ==> requests[k].reading is None,
            0 <= i <= j < requests.len(),
            requests[i].at@ <= requests[j].at@,
        ensures
            self.answer_in(requests, i) <= self.answer_in(requests, j),
    {
        self.lemma_failures_keep_state(requests.take(i));
        self.lemma_failures_keep_state(requests.take(j));
    }

    /// Authoritative override: a request whose read succeeds is answered with
    /// exactly the time that was read, and the clock restarts from that
    /// reading. This holds whatever was asked before, and so after any run of
    /// failed reads, however far the estimate had moved and in whichever
    /// direction the reading lies from it.
    pub proof fn success_overrides_estimate(
        &self,
        earlier: Seq<Request>,
        read: Timestamp,
        now: MonotonicInstant,
    )
        ensures
            self.answer_in(earlier.push(Request { reading: Some(read), at: now }), earlier.len() as int)
                == read@,
            self.after_requests(
                earlier.push(Request { reading: Some(read), at: now }),
            ).last_known_time() == read,
            self.after_requests(
                earlier.push(Request { reading: Some(read), at: now }),
            ).last_time_check() == now,
    {
    }
}

} // verus!
