//! The round trip to the server and the delay of its messages, in
//! milliseconds.
use crate::time::{add_ms, sat_add, sat_sub, sub_ms};
use vstd::prelude::*;

verus! {

/// The last round trip, the smoothed round trip, and the forward delay.
#[derive(Debug, Clone, Copy)]
pub struct PingService {
    rtt: i64,
    fd: i64,
    avr_rtt: i64,
}

pub struct PingView {
    pub rtt: int,
    pub fd: int,
    pub avr_rtt: int,
}

impl View for PingService {
    type V = PingView;

    closed spec fn view(&self) -> PingView {
        PingView { rtt: self.rtt as int, fd: self.fd as int, avr_rtt: self.avr_rtt as int }
    }
}

/// The smoothed round trip after a sample: 85 parts of what it was, 15 of
/// the sample; the sample itself where there was none before.
pub open spec fn smoothed(avr_rtt: int, rtt: int) -> int {
    let before = if avr_rtt == 0 {
        rtt
    } else {
        avr_rtt
    };
    (before * 85 + rtt * 15) / 100
}

/// The delay of a message from the server: half the smoothed round trip, and
/// what the round trip is longer than the server's own.
pub open spec fn forward_delay(avr_rtt: int, rtt: int, sender_rtt: int) -> int {
    if sender_rtt < rtt {
        sat_add(avr_rtt / 2, sat_sub(rtt, sender_rtt))
    } else {
        avr_rtt / 2
    }
}

/// A sample counts where its time stamp is positive and neither round trip
/// is negative.
pub open spec fn sample_counts(timestamp: int, sender_rtt: int, now: int) -> bool {
    timestamp > 0 && sat_sub(now, timestamp) >= 0 && sender_rtt >= 0
}

impl PingView {
    pub open spec fn wf(self) -> bool {
        self.rtt >= 0 && self.avr_rtt >= 0
    }

    /// The state after a sample; unchanged where the sample does not count.
    pub open spec fn received(self, timestamp: int, sender_rtt: int, now: int) -> PingView {
        if sample_counts(timestamp, sender_rtt, now) {
            let rtt = sat_sub(now, timestamp);
            let avr = smoothed(self.avr_rtt, rtt);
            PingView { rtt, avr_rtt: avr, fd: forward_delay(avr, rtt, sender_rtt) }
        } else {
            self
        }
    }
}

impl PingService {
    /// The invariant: no round trip is negative.
    pub open spec fn wf(&self) -> bool {
        self@.wf()
    }

    pub fn new() -> (r: Self)
        ensures
            r.wf(),
            r@ == (PingView { rtt: 0, fd: 0, avr_rtt: 0 }),
    {
        Self { rtt: 0, fd: 0, avr_rtt: 0 }
    }

    /// Takes a sample: the time stamp that the server echoes, the server's
    /// own round trip, and the time at which the echo arrived.
    pub fn receive_message(&mut self, timestamp: i64, sender_rtt: i64, now: i64)
        requires
            old(self).wf(),
        ensures
            final(self).wf(),
            final(self)@ == old(self)@.received(timestamp as int, sender_rtt as int, now as int),
    {
        if timestamp <= 0 {
            return ;
        }
        let rtt = sub_ms(now, timestamp);
        if rtt < 0 || sender_rtt < 0 {
            return ;
        }
        let before: i64 = if self.avr_rtt == 0 {
            rtt
        } else {
            self.avr_rtt
        };
        let avr: i64 = ((before as i128 * 85 + rtt as i128 * 15) / 100) as i64;
        self.rtt = rtt;
        self.avr_rtt = avr;
        if sender_rtt < rtt {
            self.fd = add_ms(avr / 2, sub_ms(rtt, sender_rtt));
        } else {
            self.fd = avr / 2;
        }
    }

    pub fn get_last_forward_delay(&self) -> (r: i64)
        ensures
            r == self@.fd,
    {
        self.fd
    }

    pub fn get_rtt(&self) -> (r: i64)
        ensures
            r == self@.rtt,
            self.wf() ==> r >= 0,
    {
        self.rtt
    }
}

impl Default for PingService {
    fn default() -> (r: Self)
        ensures
            r.wf(),
            r@ == (PingView { rtt: 0, fd: 0, avr_rtt: 0 }),
    {
        Self::new()
    }
}

/// The state after a run of samples that all show the round trip `rtt`,
/// each with its own round trip of the server.
pub open spec fn after_samples(start: PingView, rtt: int, sender_rtts: Seq<int>) -> PingView
    decreases sender_rtts.len(),
{
    if sender_rtts.len() == 0 {
        start
    } else {
        let before = after_samples(start, rtt, sender_rtts.drop_last());
        let avr = smoothed(before.avr_rtt, rtt);
        PingView { rtt, avr_rtt: avr, fd: forward_delay(avr, rtt, sender_rtts.last()) }
    }
}

/// After any number of samples that agree on the round trip, and in which
/// the server's own round trip is at least half of it, the forward delay
/// lies between nothing and the round trip: it is off half the round trip
/// by at most half the round trip. The round trip is never negative.
pub proof fn lemma_forward_delay_bounded(rtt: int, sender_rtts: Seq<int>)
    requires
        0 <= rtt <= i64::MAX,
        sender_rtts.len() > 0,
        forall|i: int| 0 <= i < sender_rtts.len() ==> 2 * #[trigger] sender_rtts[i] >= rtt,
    ensures
        after_samples(PingView { rtt: 0, fd: 0, avr_rtt: 0 }, rtt, sender_rtts).rtt == rtt,
        after_samples(PingView { rtt: 0, fd: 0, avr_rtt: 0 }, rtt, sender_rtts).avr_rtt == rtt,
        0 <= after_samples(PingView { rtt: 0, fd: 0, avr_rtt: 0 }, rtt, sender_rtts).fd <= rtt,
    decreases sender_rtts.len(),
{
    let start = PingView { rtt: 0, fd: 0, avr_rtt: 0 };
    let before = after_samples(start, rtt, sender_rtts.drop_last());
    if sender_rtts.len() > 1 {
        lemma_forward_delay_bounded(rtt, sender_rtts.drop_last());
    }
    assert(before.avr_rtt == 0 || before.avr_rtt == rtt);
    assert(smoothed(before.avr_rtt, rtt) == rtt);
}

/// A sample never leaves a negative round trip behind.
pub proof fn lemma_round_trip_not_negative(p: PingView, timestamp: int, sender_rtt: int, now: int)
    requires
        p.wf(),
    ensures
        p.received(timestamp, sender_rtt, now).wf(),
{
}

} // verus!
