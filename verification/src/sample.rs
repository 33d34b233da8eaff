//! One client/server exchange and the two figures derived from it.
//!
//! The client notes when it sends its request (`t1`) and when the reply
//! arrives (`t4`); the server notes when the request arrives (`t2`) and when
//! it sends the reply (`t3`). No order among the four is assumed: the two
//! clocks may disagree, and either may have been stepped in between.

use vstd::prelude::*;
use crate::timestamp::CalendarTimestamp;

verus! {

/// Nanoseconds in one millisecond.
pub const NANOS_PER_MILLI: i128 = 1_000_000;

/// `a / b` with the quotient cut toward zero, for `b > 0`.
pub open spec fn trunc_div(a: int, b: int) -> int {
    if a >= 0 {
        a / b
    } else {
        -((-a) / b)
    }
}

/// The whole milliseconds in a span of `nanos` nanoseconds, cut toward zero.
pub open spec fn whole_millis(nanos: int) -> int {
    trunc_div(nanos, NANOS_PER_MILLI as int)
}

/// The four timestamps of one exchange.
#[derive(Clone, Copy, Debug, PartialEq, Eq)]
pub struct NTPResult {
    /// Client clock when the request left.
    pub t1: CalendarTimestamp,
    /// Server clock when the request arrived.
    pub t2: CalendarTimestamp,
    /// Server clock when the reply left.
    pub t3: CalendarTimestamp,
    /// Client clock when the reply arrived.
    pub t4: CalendarTimestamp,
}

impl NTPResult {
    /// `(t2 - t1) + (t4 - t3)` in nanoseconds.
    pub open spec fn offset_span(self) -> int {
        (self.t2@.total_nanos() - self.t1@.total_nanos()) + (self.t4@.total_nanos()
            - self.t3@.total_nanos())
    }

    /// `(t4 - t1) - (t3 - t2)` in nanoseconds.
    pub open spec fn delay_span(self) -> int {
        (self.t4@.total_nanos() - self.t1@.total_nanos()) - (self.t3@.total_nanos()
            - self.t2@.total_nanos())
    }

    /// The value of [`NTPResult::offset`].
    pub open spec fn spec_offset(self) -> int {
        trunc_div(whole_millis(self.offset_span()), 2)
    }

    /// The value of [`NTPResult::delay`].
    pub open spec fn spec_delay(self) -> int {
        whole_millis(self.delay_span())
    }

    /// Half of `(t2 - t1) + (t4 - t3)` in whole milliseconds.
    ///
    /// The sum is first cut to whole milliseconds and then halved; both
    /// steps cut toward zero and neither rounds.
    pub fn offset(&self) -> (ms: i64)
        ensures
            ms == self.spec_offset(),
    {
        let outbound: i128 = total_nanos(&self.t2) - total_nanos(&self.t1);
        let inbound: i128 = total_nanos(&self.t4) - total_nanos(&self.t3);
        let millis: i128 = (outbound + inbound) / NANOS_PER_MILLI;
        (millis / 2) as i64
    }

    /// `(t4 - t1) - (t3 - t2)` in whole milliseconds, cut toward zero: the
    /// time the exchange took less the time the server held the request.
    ///
    /// The result is negative where the timestamps contradict each other;
    /// it is reported as it is.
    pub fn delay(&self) -> (ms: i64)
        ensures
            ms == self.spec_delay(),
    {
        let elapsed: i128 = total_nanos(&self.t4) - total_nanos(&self.t1);
        let held: i128 = total_nanos(&self.t3) - total_nanos(&self.t2);
        let millis: i128 = (elapsed - held) / NANOS_PER_MILLI;
        millis as i64
    }
}

/// Nanoseconds from the Unix epoch to `t`.
fn total_nanos(t: &CalendarTimestamp) -> (n: i128)
    ensures
        n == t@.total_nanos(),
        -8_334_601_228_800_000_000_000 <= n < 8_210_266_876_800_000_000_000,
{
    let secs: i128 = t.timestamp() as i128;
    let nanos: i128 = t.timestamp_subsec_nanos() as i128;
    secs * 1_000_000_000 + nanos
}

/// Cutting to whole milliseconds and then halving is the same as cutting
/// once to whole units of two milliseconds: nothing is rounded on the way.
pub proof fn lemma_halved_millis(nanos: int)
    ensures
        trunc_div(whole_millis(nanos), 2) == trunc_div(nanos, 2 * NANOS_PER_MILLI),
{
    let a = if nanos >= 0 { nanos } else { -nanos };
    let m = a / 1_000_000;
    assert((a / 1_000_000) / 2 == a / 2_000_000) by (nonlinear_arith)
        requires
            a >= 0,
    ;
    assert(m >= 0);
    if nanos < 0 && m == 0 {
        assert(a / 2_000_000 == 0);
    }
}

/// A span that is a whole number of milliseconds is reported as that number.
pub proof fn lemma_whole_millis_exact(ms: int)
    ensures
        whole_millis(ms * NANOS_PER_MILLI) == ms,
{
    let a = if ms >= 0 { ms } else { -ms };
    assert((a * 1_000_000) / 1_000_000 == a) by (nonlinear_arith);
    assert(ms >= 0 ==> ms * 1_000_000 >= 0) by (nonlinear_arith);
    assert(ms < 0 ==> ms * 1_000_000 < 0 && -(ms * 1_000_000) == a * 1_000_000)
        by (nonlinear_arith)
        requires
            a == if ms >= 0 { ms } else { -ms },
    ;
}

impl NTPResult {
    /// Both formulas take the same four differences, so the offset is half
    /// the delay, cut toward zero.
    pub proof fn lemma_offset_is_half_delay(self)
        ensures
            self.offset_span() == self.delay_span(),
            self.spec_offset() == trunc_div(self.spec_delay(), 2),
            self.spec_offset() == trunc_div(self.delay_span(), 2 * NANOS_PER_MILLI),
    {
        lemma_halved_millis(self.offset_span());
    }

    /// Four equal timestamps, two clocks that agree and a network that
    /// takes no time, give offset 0 and delay 0.
    pub proof fn lemma_synchronized(self)
        requires
            self.t1@ == self.t2@,
            self.t2@ == self.t3@,
            self.t3@ == self.t4@,
        ensures
            self.spec_offset() == 0,
            self.spec_delay() == 0,
    {
    }

    /// Where the client sees no time pass (`t1 = t4`) and the server holds
    /// the request for no time (`t2 = t3`), the delay is 0, however far the
    /// two clocks are apart.
    pub proof fn lemma_zero_latency(self)
        requires
            self.t1@ == self.t4@,
            self.t2@ == self.t3@,
        ensures
            self.spec_delay() == 0,
    {
    }

    /// An exchange whose request travels `out_ms` milliseconds by the two
    /// clocks, is held `held_ms` by the server, and whose reply travels
    /// `back_ms`, has delay `out_ms + back_ms` and offset half of that, cut
    /// toward zero. The time the server holds the request drops out.
    pub proof fn lemma_exchange(self, out_ms: int, held_ms: int, back_ms: int)
        requires
            self.t2@.total_nanos() == self.t1@.total_nanos() + out_ms * NANOS_PER_MILLI,
            self.t3@.total_nanos() == self.t2@.total_nanos() + held_ms * NANOS_PER_MILLI,
            self.t4@.total_nanos() == self.t3@.total_nanos() + back_ms * NANOS_PER_MILLI,
        ensures
            self.spec_delay() == out_ms + back_ms,
            self.spec_offset() == trunc_div(out_ms + back_ms, 2),
    {
        assert(self.delay_span() == (out_ms + back_ms) * NANOS_PER_MILLI) by (nonlinear_arith)
            requires
                self.delay_span() == out_ms * NANOS_PER_MILLI + back_ms * NANOS_PER_MILLI,
        ;
        lemma_whole_millis_exact(out_ms + back_ms);
        self.lemma_offset_is_half_delay();
    }
}

} // verus!
