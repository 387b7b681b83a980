use vstd::prelude::*;
use crate::bits::lemma_bit_seven;
use crate::vcs_riot::{REG_INSTAT, REG_INTIM, REG_TIM64T, RiotState};

verus! {

impl RiotState {
    /// The clocks from now until the timer passes zero, if it is left
    /// alone.
    pub open spec fn clocks_to_underflow(self) -> int {
        (self.step - self.step_count) + self.step * self.timer()
    }
}

/// A read of the status shows the status as it stands, bit 7 included: an
/// underflow that no read has seen yet is seen by this one.
pub proof fn lemma_read_shows_underflow(s: RiotState)
    ensures
        s.read(REG_INSTAT) == s.status(),
        s.status() & 0x80 != 0 ==> s.read(REG_INSTAT) & 0x80 != 0,
{
}

/// Unless the timer passed zero on the last clock, a read of the timer or
/// of its status leaves bit 7 of the status clear, so that a read of the
/// status after that read sees it clear.
pub proof fn lemma_read_clears_underflow(s: RiotState)
    requires
        s.wf(),
        !s.overflow_tick,
    ensures
        s.after_read(REG_INSTAT).status() & 0x80 == 0,
        s.after_read(REG_INTIM).status() & 0x80 == 0,
        s.after_read(REG_INSTAT).read(REG_INSTAT) & 0x80 == 0,
        s.after_read(REG_INTIM).read(REG_INSTAT) & 0x80 == 0,
{
    lemma_bit_seven(s.status());
}

/// On the clock on which the timer passed zero, a read changes nothing: the
/// underflow stays on record.
pub proof fn lemma_read_keeps_fresh_underflow(s: RiotState, location: u16)
    requires
        s.overflow_tick,
    ensures
        s.after_read(location) == s,
{
}

/// Running `n` clocks and then one more is running `n + 1` clocks.
pub proof fn lemma_ticks_then_tick(s: RiotState, n: nat)
    ensures
        s.ticks(n + 1) == s.ticks(n).tick(),
    decreases n,
{
    if n > 0 {
        lemma_ticks_then_tick(s.tick(), (n - 1) as nat);
        assert(s.ticks(n + 1) == s.tick().ticks(n));
    } else {
        assert(s.ticks(1) == s.tick().ticks(0));
    }
}

/// One clock before the timer passes zero: the clock is counted, and where
/// that completes `step` clocks the timer loses one.
proof fn lemma_tick_counts(s: RiotState)
    requires
        s.wf(),
        s.clocks_to_underflow() > 1,
    ensures
        s.tick().wf(),
        s.tick().step == s.step,
        s.tick().status() == s.status(),
        s.tick().clocks_to_underflow() == s.clocks_to_underflow() - 1,
        s.step_count + 1 < s.step ==> s.tick().step_count == s.step_count + 1 && s.tick().timer()
            == s.timer(),
        s.step_count + 1 == s.step ==> s.tick().step_count == 0 && s.tick().timer() == s.timer()
            - 1,
{
    let t = s.timer() as int;
    if s.step == 1 {
        assert(s.step * t == t);
        assert(s.tick().step * (s.tick().timer() as int) == s.tick().timer() as int);
    } else if s.step == 8 {
        assert(s.step * t == 8 * t);
        assert(s.tick().step * (s.tick().timer() as int) == 8 * s.tick().timer());
    } else if s.step == 64 {
        assert(s.step * t == 64 * t);
        assert(s.tick().step * (s.tick().timer() as int) == 64 * s.tick().timer());
    } else {
        assert(s.step * t == 1024 * t);
        assert(s.tick().step * (s.tick().timer() as int) == 1024 * s.tick().timer());
    }
}

/// A count below `step` is no whole step.
proof fn lemma_within_step(step: int, count: int)
    requires
        step == 1 || step == 8 || step == 64 || step == 1024,
        0 <= count < step,
    ensures
        count / step == 0,
        count % step == count,
{
    if step == 1 {
    } else if step == 8 {
    } else if step == 64 {
    } else {
    }
}

/// Counting `step` clocks more takes one more off the timer.
proof fn lemma_whole_step(step: int, k: int)
    requires
        step == 1 || step == 8 || step == 64 || step == 1024,
        k >= 0,
    ensures
        (step + k) / step == 1 + k / step,
        (step + k) % step == k % step,
{
    if step == 1 {
    } else if step == 8 {
    } else if step == 64 {
    } else {
    }
}

/// Until it passes zero, a timer left alone loses one for every `step`
/// clocks, and its rate and status stay as they are.
pub proof fn lemma_timer_counts_down(s: RiotState, n: nat)
    requires
        s.wf(),
        n < s.clocks_to_underflow(),
    ensures
        s.ticks(n).wf(),
        s.ticks(n).step == s.step,
        s.ticks(n).timer() == s.timer() - (s.step_count + n) / (s.step as int),
        s.ticks(n).step_count == (s.step_count + n) % (s.step as int),
        s.ticks(n).status() == s.status(),
        s.ticks(n).clocks_to_underflow() == s.clocks_to_underflow() - n,
    decreases n,
{
    let step = s.step as int;
    let count = s.step_count as int;
    if n > 0 {
        let next = s.tick();
        let k = n - 1;
        lemma_tick_counts(s);
        lemma_timer_counts_down(next, k as nat);
        assert(s.ticks(n) == next.ticks(k as nat));
        if count + 1 == step {
            lemma_whole_step(step, k);
            assert(next.step_count + k == k);
            assert(count + n == step + k);
            assert((count + n) / step == 1 + k / step);
            assert((count + n) % step == k % step);
        } else {
            assert(next.step_count + k == count + n);
        }
    } else {
        assert(s.ticks(0) == s);
        lemma_within_step(step, count);
    }
}

/// A timer left alone passes zero after `clocks_to_underflow` clocks: it
/// then reads 255, bit 7 of its status is set, and it counts every clock.
pub proof fn lemma_timer_underflows(s: RiotState)
    requires
        s.wf(),
    ensures
        s.ticks(s.clocks_to_underflow() as nat).timer() == 255,
        s.ticks(s.clocks_to_underflow() as nat).status() & 0x80 != 0,
        s.ticks(s.clocks_to_underflow() as nat).step == 1,
        s.ticks(s.clocks_to_underflow() as nat).overflow_tick,
{
    let t = s.timer() as int;
    assert(s.step * t >= 0) by (nonlinear_arith)
        requires
            s.step >= 1,
            t >= 0,
    ;
    let n = (s.clocks_to_underflow() - 1) as nat;
    lemma_timer_counts_down(s, n);
    lemma_ticks_then_tick(s, n);
    let last = s.ticks(n);
    assert(last.clocks_to_underflow() == 1);
    assert(last.step * (last.timer() as int) >= 0) by (nonlinear_arith)
        requires
            last.step >= 1,
            last.timer() >= 0,
    ;
    assert(last.step_count + 1 == last.step);
    assert(last.timer() == 0) by (nonlinear_arith)
        requires
            last.step * (last.timer() as int) == 0,
            last.step >= 1,
            last.timer() >= 0,
    ;
    lemma_bit_seven(last.status());
}

/// Running `a` clocks and then `b` more is running `a + b` clocks.
pub proof fn lemma_ticks_add(s: RiotState, a: nat, b: nat)
    ensures
        s.ticks(a + b) == s.ticks(a).ticks(b),
    decreases a,
{
    if a > 0 {
        lemma_ticks_add(s.tick(), (a - 1) as nat, b);
        assert(s.ticks(a + b) == s.tick().ticks((a - 1 + b) as nat));
    } else {
        assert(s.ticks(0) == s);
    }
}

/// Once the timer has passed zero and nothing reads or writes it, it goes
/// on counting every clock, modulo 256, with bit 7 of its status set.
pub proof fn lemma_underflow_stays_on_record(s: RiotState, n: nat)
    requires
        s.wf(),
        s.step == 1,
        s.status() & 0x80 != 0,
    ensures
        s.ticks(n).wf(),
        s.ticks(n).step == 1,
        s.ticks(n).status() & 0x80 != 0,
        s.ticks(n).timer() == (s.timer() - n) % 256,
    decreases n,
{
    if n > 0 {
        lemma_bit_seven(s.status());
        lemma_underflow_stays_on_record(s.tick(), (n - 1) as nat);
        assert(s.tick().timer() == (s.timer() - 1) % 256);
        assert(((s.timer() - 1) % 256 - (n - 1)) % 256 == (s.timer() - n) % 256);
    }
}

/// After `byte` is written to TIM64T the timer reads one less than the
/// byte for 63 clocks and two less from the 64th; on clock 64 times the
/// byte it passes zero, which sets bit 7 of the status and makes the timer
/// count every clock. So it stays however many clocks follow: the timer
/// loses one a clock, modulo 256, and the next read of the status sees bit
/// 7 set.
pub proof fn lemma_tim64t_counts_every_64_clocks(s: RiotState, byte: u8, n: nat, later: nat)
    requires
        s.wf(),
        byte >= 2,
        n < 64,
    ensures
        s.write(REG_TIM64T, byte).timer() == byte - 1,
        s.write(REG_TIM64T, byte).status() & 0x80 == 0,
        s.write(REG_TIM64T, byte).ticks(n).timer() == byte - 1,
        s.write(REG_TIM64T, byte).ticks(64).timer() == byte - 2,
        s.write(REG_TIM64T, byte).ticks((64 * byte) as nat).timer() == 255,
        s.write(REG_TIM64T, byte).ticks((64 * byte) as nat).status() & 0x80 != 0,
        s.write(REG_TIM64T, byte).ticks((64 * byte) as nat).step == 1,
        s.write(REG_TIM64T, byte).ticks((64 * byte + later) as nat).status() & 0x80 != 0,
        s.write(REG_TIM64T, byte).ticks((64 * byte + later) as nat).step == 1,
        s.write(REG_TIM64T, byte).ticks((64 * byte + later) as nat).timer() == (255 - later)
            % 256,
        s.write(REG_TIM64T, byte).ticks((64 * byte + later) as nat).read(REG_INSTAT) & 0x80
            != 0,
{
    let w = s.write(REG_TIM64T, byte);
    lemma_bit_seven(s.status());
    assert(w.wf());
    assert(w.step * (w.timer() as int) == 64 * (byte - 1));
    assert(w.clocks_to_underflow() == 64 * byte);
    lemma_timer_counts_down(w, n);
    lemma_timer_counts_down(w, 64);
    lemma_timer_underflows(w);
    lemma_timer_counts_down(w, (64 * byte - 1) as nat);
    lemma_ticks_then_tick(w, (64 * byte - 1) as nat);
    let under = w.ticks((64 * byte) as nat);
    assert(under.wf());
    lemma_underflow_stays_on_record(under, later);
    lemma_ticks_add(w, (64 * byte) as nat, later);
}

} // verus!
