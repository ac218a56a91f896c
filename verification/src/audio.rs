//! Pacing audio output: the emulator produces frames at its own sample rate
//! and the output device consumes them at another. Each time the device asks
//! for a frame, its rate is added to a counter, and every whole multiple of
//! the emulator's rate in the counter is one frame to send.

use vstd::prelude::*;

verus! {

/// The counter that decides how many emulator frames each device frame
/// stands for.
#[derive(Debug, Clone, Copy, PartialEq, Eq, Structural)]
pub struct FrameClock {
    /// The output device's sample rate, added on every call.
    pub sample_rate: u64,
    /// The emulator's sample rate: one frame is sent per this much counter.
    pub source_rate: u64,
    /// What is left of the counter after the frames due were taken off.
    pub frame_counter: u64,
}

impl FrameClock {
    /// The source rate is positive, the counter stays below it, and a call
    /// cannot overflow the counter.
    pub open spec fn wf(self) -> bool {
        &&& self.source_rate > 0
        &&& self.frame_counter < self.source_rate
        &&& self.sample_rate + self.source_rate <= u64::MAX
    }

    /// A clock with an empty counter.
    pub fn new(sample_rate: u64, source_rate: u64) -> (r: FrameClock)
        requires
            source_rate > 0,
            sample_rate + source_rate <= u64::MAX,
        ensures
            r.wf(),
            r == (FrameClock { sample_rate, source_rate, frame_counter: 0 }),
    {
        FrameClock { sample_rate, source_rate, frame_counter: 0 }
    }

    /// Adds the device's rate to the counter and takes off every whole
    /// multiple of the source rate; returns how many frames that is.
    pub fn output(&mut self) -> (frames: u64)
        requires
            old(self).wf(),
        ensures
            final(self).wf(),
            final(self).sample_rate == old(self).sample_rate,
            final(self).source_rate == old(self).source_rate,
            frames == (old(self).frame_counter + old(self).sample_rate) / (old(self).source_rate as int),
            final(self).frame_counter == (old(self).frame_counter + old(self).sample_rate) % (
            old(self).source_rate as int),
            frames * old(self).source_rate + final(self).frame_counter == old(self).frame_counter
                + old(self).sample_rate,
    {
        proof {
            lemma_output_conserves(self.frame_counter, self.sample_rate, self.source_rate);
        }
        let total = self.frame_counter + self.sample_rate;
        let frames = total / self.source_rate;
        self.frame_counter = total % self.source_rate;
        frames
    }
}

/// Nothing is lost: the frames sent, times the source rate, plus what stays
/// in the counter, is the counter before plus the device's rate.
pub proof fn lemma_output_conserves(counter: u64, sample_rate: u64, source_rate: u64)
    requires
        source_rate > 0,
    ensures
        counter + sample_rate == source_rate * ((counter + sample_rate) / (source_rate as int)) + (
        counter + sample_rate) % (source_rate as int),
        (counter + sample_rate) % (source_rate as int) < source_rate,
{
    vstd::arithmetic::div_mod::lemma_fundamental_div_mod((counter + sample_rate) as int, source_rate as int);
}

/// The counter and the total of frames sent after `n` calls of
/// [`FrameClock::output`] on a clock whose counter starts at `counter`: each
/// call adds `sample_rate`, sends the whole multiples of `source_rate` and
/// keeps the rest.
pub open spec fn run(counter: int, sample_rate: int, source_rate: int, n: nat) -> (int, int)
    decreases n,
{
    if n == 0 {
        (counter, 0)
    } else {
        let (c, total) = run(counter, sample_rate, source_rate, (n - 1) as nat);
        ((c + sample_rate) % source_rate, total + (c + sample_rate) / source_rate)
    }
}

/// Pacing over many calls: from a counter below the source rate, `n` calls
/// send `(counter + n * sample_rate) / source_rate` frames in all and leave
/// the counter at `(counter + n * sample_rate) % source_rate`, below the
/// source rate. From a fresh clock that is `(n * sample_rate) / source_rate`
/// frames.
pub proof fn lemma_output_total(counter: int, sample_rate: int, source_rate: int, n: nat)
    requires
        source_rate > 0,
        0 <= counter < source_rate,
        sample_rate >= 0,
    ensures
        run(counter, sample_rate, source_rate, n) == (
            (counter + n * sample_rate) % source_rate,
            (counter + n * sample_rate) / source_rate,
        ),
        0 <= run(counter, sample_rate, source_rate, n).0 < source_rate,
    decreases n,
{
    if n == 0 {
        assert(counter + n * sample_rate == counter);
        vstd::arithmetic::div_mod::lemma_fundamental_div_mod_converse(counter, source_rate, 0, counter);
    } else {
        let m = (n - 1) as nat;
        lemma_output_total(counter, sample_rate, source_rate, m);
        let x = counter + m * sample_rate;
        assert(x >= 0) by (nonlinear_arith)
            requires
                counter >= 0,
                sample_rate >= 0,
                x == counter + m * sample_rate,
        ;
        assert(counter + n * sample_rate == x + sample_rate) by (nonlinear_arith)
            requires
                x == counter + m * sample_rate,
                m == n - 1,
        ;
        let q1 = x / source_rate;
        let r1 = x % source_rate;
        vstd::arithmetic::div_mod::lemma_fundamental_div_mod(x, source_rate);
        let q2 = (r1 + sample_rate) / source_rate;
        let r2 = (r1 + sample_rate) % source_rate;
        vstd::arithmetic::div_mod::lemma_fundamental_div_mod(r1 + sample_rate, source_rate);
        assert(x + sample_rate == (q1 + q2) * source_rate + r2) by (nonlinear_arith)
            requires
                x == source_rate * q1 + r1,
                r1 + sample_rate == source_rate * q2 + r2,
        ;
        vstd::arithmetic::div_mod::lemma_fundamental_div_mod_converse(
            x + sample_rate,
            source_rate,
            q1 + q2,
            r2,
        );
    }
}

} // verus!
