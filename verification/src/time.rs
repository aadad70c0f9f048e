//! Lengths of time, points in time and the clock that reads them.

use crate::history::History;
use vstd::prelude::*;

verus! {

/// Nanoseconds in a millisecond.
pub const NANOS_PER_MILLI: u128 = 1_000_000;

/// Nanoseconds in a second.
pub const NANOS_PER_SEC: u128 = 1_000_000_000;

/// The longest span that a [`Clock`] reports: `u64::MAX` whole seconds and
/// 999 999 999 nanoseconds.
pub const LONGEST_READING: u128 = 18_446_744_073_709_551_615_999_999_999;

/// A length of time, to the nanosecond.
#[derive(Clone, Copy, Debug, PartialEq, Eq, Structural)]
pub struct Duration {
    pub nanos: u128,
}

impl Duration {
    /// The length of `nanos` nanoseconds.
    pub fn from_nanos(nanos: u128) -> (duration: Duration)
        ensures
            duration.nanos == nanos,
    {
        Duration { nanos }
    }

    /// The length of `millis` milliseconds.
    pub fn from_millis(millis: u64) -> (duration: Duration)
        ensures
            duration.nanos == millis * NANOS_PER_MILLI,
    {
        Duration { nanos: millis as u128 * NANOS_PER_MILLI }
    }

    /// The length of `secs` seconds.
    pub fn from_secs(secs: u64) -> (duration: Duration)
        ensures
            duration.nanos == secs * NANOS_PER_SEC,
    {
        Duration { nanos: secs as u128 * NANOS_PER_SEC }
    }

    /// The whole milliseconds that this length holds.
    pub fn as_millis(self) -> (millis: u128)
        ensures
            millis == self.nanos / NANOS_PER_MILLI,
    {
        self.nanos / NANOS_PER_MILLI
    }

    /// Whether this length is empty.
    pub fn is_zero(self) -> (zero: bool)
        ensures
            zero == (self.nanos == 0),
    {
        self.nanos == 0
    }
}

/// A point in time: the nanoseconds since its [`Clock`] was started.
#[derive(Clone, Copy, Debug, PartialEq, Eq, Structural)]
pub struct Instant {
    pub nanos: u128,
}

impl Instant {
    /// Whether a clock can read this point in time.
    pub open spec fn readable(self) -> bool {
        self.nanos <= LONGEST_READING
    }

    /// The point in time that lies `span` after this one.
    pub fn after(self, span: Duration) -> (later: Instant)
        requires
            self.nanos + span.nanos <= u128::MAX,
        ensures
            later.nanos == self.nanos + span.nanos,
    {
        Instant { nanos: self.nanos + span.nanos }
    }

    /// The time that passed from `earlier` to this point, or nothing where
    /// `earlier` lies after it.
    pub fn checked_duration_since(self, earlier: Instant) -> (span: Option<Duration>)
        ensures
            span == (if earlier.nanos <= self.nanos {
                Some(Duration { nanos: (self.nanos - earlier.nanos) as u128 })
            } else {
                None
            }),
    {
        if earlier.nanos <= self.nanos {
            Some(Duration { nanos: self.nanos - earlier.nanos })
        } else {
            None
        }
    }
}

/// A reading of the system's monotonic clock, carried unread.
#[verifier::external_type_specification]
#[verifier::external_body]
pub struct ExternalInstant(std::time::Instant);

/// `std::time::Instant::now`: a reading of the monotonic clock. Nothing is
/// claimed of which reading comes back.
#[verifier::external_body]
fn monotonic_now() -> std::time::Instant {
    std::time::Instant::now()
}

/// `std::time::Instant::elapsed`: the time since `origin`, in nanoseconds.
/// How much time has passed is left open. The result is bounded because the
/// span is a `std::time::Duration`, whose whole seconds are a `u64` and whose
/// fraction is below one second. What came back is added to `history`, together
/// with the moment that it counts from.
#[verifier::external_body]
fn nanos_since(origin: &std::time::Instant, history: &mut History) -> (nanos: u128)
    ensures
        nanos <= LONGEST_READING,
        final(history)@ == old(history)@.push((*origin, nanos)),
{
    origin.elapsed().as_nanos()
}

/// A monotonic clock. Its readings count from the moment it was started, and
/// never go back. Its view is what it was read as so far, in order.
pub struct Clock {
    origin: std::time::Instant,
    // The latest reading, or the start where there is none.
    last: Instant,
    readings: Ghost<Seq<Instant>>,
    history: History,
}

impl View for Clock {
    type V = Seq<Instant>;

    closed spec fn view(&self) -> Seq<Instant> {
        self.readings@
    }
}

impl Clock {
    /// The moment that the clock was started at.
    pub closed spec fn origin(self) -> std::time::Instant {
        self.origin
    }

    /// What the system reported to the clock so far, in order: since which
    /// moment, and how many nanoseconds had passed since then.
    pub closed spec fn reports(self) -> Seq<(std::time::Instant, u128)> {
        self.history@
    }

    /// The latest reading, in nanoseconds since the start, or 0 where there is
    /// none.
    pub open spec fn latest(self) -> u128 {
        if self@.len() > 0 {
            self@.last().nanos
        } else {
            0
        }
    }

    /// What holds of every clock: its readings are in order, and the latest one
    /// is at hand.
    pub closed spec fn wf(self) -> bool {
        &&& self.last.readable()
        &&& self.last.nanos == self.latest()
        &&& forall|i: int| 0 <= i < self@.len() ==> (#[trigger] self@[i]).readable()
        &&& forall|i: int, j: int|
            0 <= i <= j < self@.len() ==> #[trigger] self@[i].nanos <= #[trigger] self@[j].nanos
    }

    /// Whether the clock was read exactly once since it was as `earlier`, at a
    /// point in time that does not lie before the reading before it.
    pub open spec fn read_once_since(self, earlier: Clock) -> bool {
        &&& self.wf()
        &&& self@.len() == earlier@.len() + 1
        &&& self@.drop_last() == earlier@
        &&& self@.last().readable()
        &&& earlier.latest() <= self@.last().nanos
    }

    /// Whether the clock was read once since it was as `earlier`, and the reading
    /// is what the system reported for it: the time since the clock's start, or
    /// the reading before where that is later.
    pub open spec fn told_time_since(self, earlier: Clock) -> bool {
        &&& self.read_once_since(earlier)
        &&& self.origin() == earlier.origin()
        &&& self.reports().len() == earlier.reports().len() + 1
        &&& self.reports().drop_last() == earlier.reports()
        &&& self.reports().last().0 == self.origin()
        &&& self.reports().last().1 <= self@.last().nanos
        &&& self@.last().nanos == self.reports().last().1 || self@.last().nanos == earlier.latest()
    }

    /// A clock whose readings count from now, and that was not read yet.
    pub fn start() -> (clock: Clock)
        ensures
            clock.wf(),
            clock@ == Seq::<Instant>::empty(),
            clock.reports() == Seq::<(std::time::Instant, u128)>::empty(),
    {
        Clock {
            origin: monotonic_now(),
            last: Instant { nanos: 0 },
            readings: Ghost(Seq::empty()),
            history: History::new(),
        }
    }

    /// Notes a reading that finds `elapsed` nanoseconds gone since the start, and
    /// returns it. Should the system's clock ever go back, the latest reading
    /// stands until it has caught up.
    pub fn note(&mut self, elapsed: u128) -> (now: Instant)
        requires
            old(self).wf(),
            elapsed <= LONGEST_READING,
        ensures
            final(self).read_once_since(*old(self)),
            now == final(self)@.last(),
            now.nanos == (if old(self).latest() < elapsed {
                elapsed
            } else {
                old(self).latest()
            }),
            final(self).origin() == old(self).origin(),
            final(self).reports() == old(self).reports(),
    {
        if elapsed > self.last.nanos {
            self.last = Instant { nanos: elapsed };
        }
        proof {
            self.readings@ = self.readings@.push(self.last);
        }
        assert(self@.drop_last() =~= old(self)@);
        self.last
    }

    /// The current point in time.
    pub fn now(&mut self) -> (now: Instant)
        requires
            old(self).wf(),
        ensures
            final(self).read_once_since(*old(self)),
            final(self).told_time_since(*old(self)),
            now == final(self)@.last(),
    {
        let elapsed: u128 = nanos_since(&self.origin, &mut self.history);
        assert(self.reports().drop_last() =~= old(self).reports());
        self.note(elapsed)
    }
}

/// The readings of one clock never go back.
pub proof fn readings_never_go_back(clock: Clock, i: int, j: int)
    requires
        clock.wf(),
        0 <= i <= j < clock@.len(),
    ensures
        clock@[i].readable(),
        clock@[i].nanos <= clock@[j].nanos,
{
}

/// The clock goes with the system's: when the system reports that so much time
/// has passed since the clock's start, the reading that the report is for, and
/// every later one, lies no earlier than that. Where no reading before it was
/// later, it is what the system reports.
pub proof fn readings_keep_up_with_the_system(before: Clock, after: Clock, i: int)
    requires
        after.told_time_since(before),
    ensures
        after@.len() == before@.len() + 1,
        0 <= i < before@.len() ==> after@[i] == before@[i],
        after.origin() == before.origin(),
        after.reports().len() == before.reports().len() + 1,
        0 <= i < before.reports().len() ==> after.reports()[i] == before.reports()[i],
        after.reports()[before.reports().len() as int].0 == after.origin(),
        ({
            let reported = after.reports()[before.reports().len() as int].1;
            let read = after@[before@.len() as int].nanos;
            &&& read >= reported
            &&& (forall|k: int| 0 <= k < before@.len() ==> #[trigger] before@[k].nanos <= reported)
                ==> read == reported
            &&& read > reported ==> exists|k: int|
                0 <= k < before@.len() && #[trigger] before@[k].nanos == read
        }),
{
    assert(after@.drop_last()[i] == before@[i] || !(0 <= i < before@.len()));
    assert(after.reports().drop_last()[i] == before.reports()[i] || !(0 <= i
        < before.reports().len()));
    let reported = after.reports()[before.reports().len() as int].1;
    let read = after@[before@.len() as int].nanos;
    if before@.len() > 0 {
        assert(before@[before@.len() - 1] == before@.last());
    }
}

} // verus!
