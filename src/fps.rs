//! Frame-time bookkeeping for the hosting loop's frame-rate report.
use vstd::prelude::*;

verus! {

/// Number of frame times the average is taken over.
pub const NUM_FRAME_VALUES: u64 = 10;

/// The last few frame lengths, in ticks of the host's timer.
pub struct FpsCounter {
    /// Ring of frame lengths, indexed by frame number modulo its length.
    pub frame_lengths: Vec<u64>,
    /// Host timer ticks per second.
    pub timer_freq: u64,
    /// Tick count at the end of the last frame.
    pub last_frame_time: u64,
    /// Frames counted (wrapping).
    pub framecount: u64,
    /// Tick count when the rate was last reported.
    pub last_display_time: u64,
}

pub open spec fn seq_sum(s: Seq<u64>) -> int
    decreases s.len(),
{
    if s.len() == 0 { 0 } else { seq_sum(s.drop_last()) + s.last() }
}

impl FpsCounter {
    pub open spec fn wf(&self) -> bool {
        self.frame_lengths@.len() == NUM_FRAME_VALUES
    }

    pub fn new(timer_freq: u64, initial_time: u64) -> (r: FpsCounter)
        ensures
            r.wf(),
            forall|i: int| 0 <= i < NUM_FRAME_VALUES ==> #[trigger] r.frame_lengths@[i] == 0,
            r.timer_freq == timer_freq,
            r.last_frame_time == initial_time,
            r.framecount == 0,
            r.last_display_time == 0,
    {
        let mut frame_lengths: Vec<u64> = Vec::new();
        let mut i: u64 = 0;
        while i < NUM_FRAME_VALUES
            invariant
                i <= NUM_FRAME_VALUES,
                frame_lengths@.len() == i,
                forall|j: int| 0 <= j < i ==> #[trigger] frame_lengths@[j] == 0,
            decreases NUM_FRAME_VALUES - i,
        {
            frame_lengths.push(0);
            i = i + 1;
        }
        FpsCounter { frame_lengths, timer_freq, last_frame_time: initial_time, framecount: 0, last_display_time: 0 }
    }

    /// Records the frame that ended at `cur_ticks` (the host timer may wrap).
    pub fn update_fps_count(&mut self, cur_ticks: u64)
        requires
            old(self).wf(),
        ensures
            final(self).wf(),
            final(self).frame_lengths@ == old(self).frame_lengths@.update(
                (old(self).framecount % NUM_FRAME_VALUES) as int,
                ((cur_ticks - old(self).last_frame_time + 0x1_0000_0000_0000_0000) % 0x1_0000_0000_0000_0000) as u64),
            final(self).last_frame_time == cur_ticks,
            final(self).framecount == (old(self).framecount + 1) % 0x1_0000_0000_0000_0000,
            final(self).timer_freq == old(self).timer_freq,
            final(self).last_display_time == old(self).last_display_time,
    {
        let idx = (self.framecount % NUM_FRAME_VALUES) as usize;
        let len = cur_ticks.wrapping_sub(self.last_frame_time);
        self.frame_lengths.set(idx, len);
        self.last_frame_time = cur_ticks;
        self.framecount = self.framecount.wrapping_add(1);
    }

    /// Sum of the recorded frame lengths; the average is this over `NUM_FRAME_VALUES`.
    pub fn frame_time_sum(&self) -> (r: u128)
        requires
            self.wf(),
        ensures
            r == seq_sum(self.frame_lengths@),
    {
        let mut sum: u128 = 0;
        let mut i: usize = 0;
        while i < self.frame_lengths.len()
            invariant
                i <= self.frame_lengths@.len(),
                self.frame_lengths@.len() == NUM_FRAME_VALUES,
                sum == seq_sum(self.frame_lengths@.subrange(0, i as int)),
                sum <= i * 0xFFFF_FFFF_FFFF_FFFF,
            decreases self.frame_lengths@.len() - i,
        {
            assert(self.frame_lengths@.subrange(0, i + 1).drop_last() =~= self.frame_lengths@.subrange(0, i as int));
            sum = sum + self.frame_lengths[i] as u128;
            i = i + 1;
        }
        assert(self.frame_lengths@.subrange(0, i as int) =~= self.frame_lengths@);
        sum
    }

    /// Whether more than a second of host time has passed since the rate was
    /// last reported; if so, the report is marked as made now.
    pub fn maybe_print_fps(&mut self, cur_ticks: u64) -> (due: bool)
        requires
            old(self).wf(),
        ensures
            final(self).wf(),
            due == ((cur_ticks - old(self).last_display_time + 0x1_0000_0000_0000_0000) % 0x1_0000_0000_0000_0000 > old(self).timer_freq),
            final(self).last_display_time == if due { cur_ticks } else { old(self).last_display_time },
            final(self).frame_lengths@ == old(self).frame_lengths@,
            final(self).last_frame_time == old(self).last_frame_time,
            final(self).framecount == old(self).framecount,
            final(self).timer_freq == old(self).timer_freq,
    {
        let delay = cur_ticks.wrapping_sub(self.last_display_time);
        if delay > self.timer_freq {
            self.last_display_time = cur_ticks;
            true
        } else {
            false
        }
    }
}

} // verus!
