//! Client-side playback scheduling.
//!
//! Two functionally equivalent disciplines are offered. `PlaybackTimeline`
//! is the clock-scheduled variant: it keeps a monotonic "next play time"
//! cursor in the output device's clock domain and schedules each decoded
//! buffer to start at `max(cursor, now + epsilon)`. `PlaybackQueue` is the
//! queue-append variant: decoded buffers play back-to-back in arrival order,
//! relying on FIFO ordering alone.
//!
//! All times are in microseconds of the device clock.

use vstd::prelude::*;

verus! {

/// One step of the clock-scheduled discipline: given the current cursor
/// `next`, the device time `now`, the buffer duration `dur` and the fixed
/// lead `eps`, yields the start time of this buffer and the new cursor.
///
/// If the cursor has fallen behind the device clock (an underrun), the
/// start time is reset to `now + eps` so the buffer is never scheduled in
/// the past; otherwise the buffer starts exactly at the cursor. The cursor
/// then advances by the buffer's duration.
pub open spec fn spec_schedule(next: int, now: int, dur: int, eps: int) -> (int, int) {
    let start = if next < now {
        now + eps
    } else {
        next
    };
    (start, start + dur)
}

/// The clock-scheduled playback timeline: a monotonic "next play time"
/// cursor, in microseconds of the output device's clock.
pub struct PlaybackTimeline {
    /// Device time at which the next buffer should start.
    pub next_play_time_us: u64,
    /// Small fixed lead added on underrun recovery, so a late buffer is
    /// scheduled slightly in the future rather than in the past.
    pub epsilon_us: u64,
}

impl PlaybackTimeline {
    /// Starts a timeline at the current device time.
    pub fn new(now_us: u64, epsilon_us: u64) -> (t: Self)
        ensures
            t.next_play_time_us == now_us,
            t.epsilon_us == epsilon_us,
    {
        PlaybackTimeline { next_play_time_us: now_us, epsilon_us }
    }

    /// Schedules one decoded buffer of duration `dur_us` against the device
    /// clock reading `now_us`, returning the exact start time and advancing
    /// the cursor by the buffer's duration.
    ///
    /// The cursor never decreases, and on an underrun the start time is
    /// reset to `now_us + epsilon_us`, never earlier.
    pub fn schedule(&mut self, now_us: u64, dur_us: u64) -> (start: u64)
        requires
            now_us + old(self).epsilon_us + dur_us <= u64::MAX,
            old(self).next_play_time_us + dur_us <= u64::MAX,
        ensures
            (start as int, final(self).next_play_time_us as int) == spec_schedule(
                old(self).next_play_time_us as int,
                now_us as int,
                dur_us as int,
                old(self).epsilon_us as int,
            ),
            final(self).epsilon_us == old(self).epsilon_us,
            final(self).next_play_time_us >= old(self).next_play_time_us,
            start >= now_us,
    {
        let start: u64 = if self.next_play_time_us < now_us {
            now_us + self.epsilon_us
        } else {
            self.next_play_time_us
        };
        self.next_play_time_us = start + dur_us;
        start
    }
}

/// The start times produced by running the clock-scheduled discipline over
/// buffers `0 .. i` with device-time readings `nows` and durations `durs`,
/// starting from cursor `next0`. Index `i` of the result is the cursor
/// before buffer `i`; the start of buffer `i` is `spec_schedule` applied to
/// that cursor.
pub open spec fn spec_cursor_after(next0: int, nows: Seq<int>, durs: Seq<int>, eps: int, i: int) -> int
    decreases i,
{
    if i <= 0 {
        next0
    } else {
        spec_schedule(spec_cursor_after(next0, nows, durs, eps, i - 1), nows[i - 1], durs[i - 1], eps).1
    }
}

/// Start time of buffer `i` in the same run.
pub open spec fn spec_start_of(next0: int, nows: Seq<int>, durs: Seq<int>, eps: int, i: int) -> int {
    spec_schedule(spec_cursor_after(next0, nows, durs, eps, i), nows[i], durs[i], eps).0
}

/// Gapless playback: if no buffer arrives late (each device-time reading is
/// at most the cursor at that point), then consecutive start times satisfy
/// `start[i + 1] == start[i] + durs[i]` exactly — playback has neither gaps
/// nor overlaps. On an underrun the next start time is `now + eps`, never
/// earlier.
pub proof fn lemma_gapless_schedule(next0: int, nows: Seq<int>, durs: Seq<int>, eps: int, i: int)
    requires
        0 <= i,
        i + 1 < nows.len(),
        nows.len() == durs.len(),
    ensures
        nows[i] <= spec_cursor_after(next0, nows, durs, eps, i) && nows[i + 1] <= spec_cursor_after(
            next0,
            nows,
            durs,
            eps,
            i + 1,
        ) ==> spec_start_of(next0, nows, durs, eps, i + 1) == spec_start_of(next0, nows, durs, eps, i)
            + durs[i],
        nows[i] > spec_cursor_after(next0, nows, durs, eps, i) ==> spec_start_of(
            next0,
            nows,
            durs,
            eps,
            i,
        ) == nows[i] + eps,
{
    assert(spec_cursor_after(next0, nows, durs, eps, i + 1) == spec_schedule(
        spec_cursor_after(next0, nows, durs, eps, i),
        nows[i],
        durs[i],
        eps,
    ).1);
}

/// The cursor of the clock-scheduled timeline never moves backward over a
/// run, whatever the arrival pattern: the timeline is reset forward (on
/// underrun), never backward.
pub proof fn lemma_cursor_monotonic(next0: int, nows: Seq<int>, durs: Seq<int>, eps: int, i: int)
    requires
        0 <= i < nows.len(),
        nows.len() == durs.len(),
        eps >= 0,
        durs[i] >= 0,
    ensures
        spec_cursor_after(next0, nows, durs, eps, i + 1) >= spec_cursor_after(next0, nows, durs, eps, i),
{
}

/// The queue-append playback variant: decoded buffers are appended to a
/// sequential queue and played back-to-back in arrival order. Correctness
/// relies solely on FIFO ordering. Empty buffers are skipped.
pub struct PlaybackQueue {
    /// Buffers awaiting playback, oldest first.
    pub pending: Vec<Vec<i16>>,
}

impl PlaybackQueue {
    /// An empty playback queue.
    pub fn new() -> (q: Self)
        ensures
            q.pending@.len() == 0,
    {
        PlaybackQueue { pending: Vec::new() }
    }

    /// Accepts one decoded buffer. An empty buffer carries no audio and is
    /// skipped; any other buffer is appended after everything already
    /// queued, so buffers play in exactly the order they arrived.
    pub fn append(&mut self, buffer: Vec<i16>) -> (accepted: bool)
        ensures
            accepted == (buffer@.len() > 0),
            accepted ==> final(self).pending@ == old(self).pending@.push(buffer),
            !accepted ==> final(self).pending@ == old(self).pending@,
    {
        if buffer.len() == 0 {
            false
        } else {
            self.pending.push(buffer);
            true
        }
    }

    /// Hands the oldest queued buffer to the output device, preserving
    /// arrival order.
    pub fn take_next(&mut self) -> (b: Option<Vec<i16>>)
        ensures
            old(self).pending@.len() == 0 ==> b is None && final(self).pending@ == old(self).pending@,
            old(self).pending@.len() > 0 ==> b == Some(old(self).pending@[0]) && final(self).pending@
                == old(self).pending@.skip(1),
    {
        if self.pending.len() == 0 {
            None
        } else {
            let b = self.pending.remove(0);
            assert(self.pending@ =~= old(self).pending@.skip(1));
            Some(b)
        }
    }
}

} // verus!
