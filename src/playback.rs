use vstd::prelude::*;
use crate::event::{InputEvent, Synthesis, synthesis_spec, synthesis_for, delay_between, delay_us};

verus! {

/// Pause before the first replayed event, so that the key release of the
/// chord that triggered the replay does not interfere with it.
pub const SETTLE_DELAY_MS: u64 = 250;

/// What the host does next while replaying a recording.
#[derive(Clone, Copy, Debug, PartialEq, Eq)]
pub enum PlaybackStep<K> {
    /// Wait `delay_us` microseconds, then synthesize `action`.
    Play { delay_us: u64, action: Synthesis<K> },
    /// A stop was requested: replay ends early.
    Halted,
    /// Every event has been replayed.
    Finished,
}

/// A replay in progress over a snapshot of a recording.
pub struct Playback<K> {
    events: Vec<InputEvent<K>>,
    next: usize,
    last_time_us: u64,
    halted: bool,
}

pub struct PlaybackView<K> {
    pub events: Seq<InputEvent<K>>,
    /// Index of the next event to replay.
    pub next: nat,
    /// Capture time of the event replayed last (of the first event before any).
    pub last_time_us: u64,
    pub halted: bool,
}

impl<K> View for Playback<K> {
    type V = PlaybackView<K>;

    closed spec fn view(&self) -> PlaybackView<K> {
        PlaybackView {
            events: self.events@,
            next: self.next as nat,
            last_time_us: self.last_time_us,
            halted: self.halted,
        }
    }
}

impl<K> PlaybackView<K> {
    pub open spec fn wf(self) -> bool {
        &&& self.events.len() > 0
        &&& self.next <= self.events.len()
        &&& self.last_time_us == if self.next == 0 {
            self.events[0].time_us
        } else {
            self.events[self.next - 1].time_us
        }
    }

    /// A replay of `events` that has not started.
    pub open spec fn fresh(events: Seq<InputEvent<K>>) -> PlaybackView<K> {
        PlaybackView { events, next: 0, last_time_us: events[0].time_us, halted: false }
    }
}

/// Capture times never decrease along `evs`.
pub open spec fn times_ordered<K>(evs: Seq<InputEvent<K>>) -> bool {
    forall|i: int, j: int| 0 <= i <= j < evs.len() ==> evs[i].time_us <= evs[j].time_us
}

/// Total wait a replay makes before synthesizing event `i`: the sum of the
/// delays handed out for events `1..=i` (event 0 waits for nothing).
pub open spec fn replay_wait_until<K>(evs: Seq<InputEvent<K>>, i: int) -> int
    decreases i,
{
    if i <= 0 {
        0
    } else {
        replay_wait_until(evs, i - 1) + delay_between(evs[i - 1].time_us, evs[i].time_us)
    }
}

/// Replay keeps the captured rhythm: when capture times never decrease, the
/// waits before event `i` add up to exactly the time that passed between the
/// first event and event `i` during capture.
pub proof fn lemma_replay_keeps_timing<K>(evs: Seq<InputEvent<K>>, i: int)
    requires
        times_ordered(evs),
        0 <= i < evs.len(),
    ensures
        replay_wait_until(evs, i) == evs[i].time_us - evs[0].time_us,
    decreases i,
{
    if i > 0 {
        lemma_replay_keeps_timing(evs, i - 1);
        assert(evs[i - 1].time_us <= evs[i].time_us);
    }
}

impl<K: Copy> Playback<K> {
    /// Starts a replay of `events`; there is nothing to replay when it is empty.
    pub fn new(events: Vec<InputEvent<K>>) -> (r: Option<Playback<K>>)
        ensures
            r is None <==> events@.len() == 0,
            r matches Some(p) ==> p@ == PlaybackView::fresh(events@) && p@.wf(),
    {
        if events.len() == 0 {
            None
        } else {
            let first = events[0].time_us;
            Some(Playback { events, next: 0, last_time_us: first, halted: false })
        }
    }

    /// Decides the next replay action. A stop request is honoured before each
    /// event; once halted, the replay stays halted.
    pub fn step(&mut self, stop_requested: bool) -> (r: PlaybackStep<K>)
        requires
            old(self)@.wf(),
        ensures
            final(self)@.wf(),
            final(self)@.events == old(self)@.events,
            old(self)@.halted ==> r is Halted && final(self)@ == old(self)@,
            !old(self)@.halted && old(self)@.next == old(self)@.events.len() ==> r is Finished
                && final(self)@ == old(self)@,
            !old(self)@.halted && old(self)@.next < old(self)@.events.len() && stop_requested
                ==> r is Halted && final(self)@ == (PlaybackView { halted: true, ..old(self)@ }),
            !old(self)@.halted && old(self)@.next < old(self)@.events.len() && !stop_requested
                ==> ({
                    let e = old(self)@.events[old(self)@.next as int];
                    &&& r == (PlaybackStep::Play {
                        delay_us: delay_between(old(self)@.last_time_us, e.time_us) as u64,
                        action: synthesis_spec(e.kind),
                    })
                    &&& final(self)@ == (PlaybackView {
                        next: old(self)@.next + 1,
                        last_time_us: e.time_us,
                        ..old(self)@
                    })
                }),
    {
        if self.halted {
            return PlaybackStep::Halted;
        }
        if self.next == self.events.len() {
            return PlaybackStep::Finished;
        }
        if stop_requested {
            self.halted = true;
            return PlaybackStep::Halted;
        }
        let e = self.events[self.next];
        let d = delay_us(self.last_time_us, e.time_us);
        let action = synthesis_for(&e.kind);
        self.next = self.next + 1;
        self.last_time_us = e.time_us;
        PlaybackStep::Play { delay_us: d, action }
    }

    pub fn is_halted(&self) -> (r: bool)
        ensures
            r == self@.halted,
    {
        self.halted
    }

    /// Number of events replayed so far.
    pub fn replayed(&self) -> (r: usize)
        ensures
            r == self@.next,
    {
        self.next
    }
}

} // verus!
