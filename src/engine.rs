use vstd::prelude::*;
use crate::event::{EventKind, InputEvent, is_key_press};
use crate::playback::{Playback, PlaybackView};

verus! {

/// The recording buffer and the two mode flags.
pub struct Engine<K> {
    events: Vec<InputEvent<K>>,
    recording_active: bool,
    stop_requested: bool,
}

pub struct EngineView<K> {
    /// The current recording, in capture order.
    pub events: Seq<InputEvent<K>>,
    /// Events are captured while this is set.
    pub recording_active: bool,
    /// A replay must not proceed, or must halt, while this is set.
    pub stop_requested: bool,
}

impl<K> View for Engine<K> {
    type V = EngineView<K>;

    closed spec fn view(&self) -> EngineView<K> {
        EngineView {
            events: self.events@,
            recording_active: self.recording_active,
            stop_requested: self.stop_requested,
        }
    }
}

/// The state of a newly built engine: nothing recorded, not recording, replay stopped.
pub open spec fn initial<K>() -> EngineView<K> {
    EngineView { events: Seq::empty(), recording_active: false, stop_requested: true }
}

impl<K> EngineView<K> {
    /// After a recording starts: the old recording is gone, capture is on,
    /// replay is permitted.
    pub open spec fn started(self) -> EngineView<K> {
        EngineView { events: Seq::empty(), recording_active: true, stop_requested: false }
    }

    /// After a stop: capture is off and any replay is asked to halt.
    pub open spec fn stopped(self) -> EngineView<K> {
        EngineView { recording_active: false, stop_requested: true, ..self }
    }

    /// After the capture sink sees `e`: key presses are appended while recording.
    pub open spec fn captured(self, e: InputEvent<K>) -> EngineView<K> {
        if self.recording_active && is_key_press(e) {
            EngineView { events: self.events.push(e), ..self }
        } else {
            self
        }
    }

    /// After the capture sink sees each of `evs` in turn.
    pub open spec fn captured_all(self, evs: Seq<InputEvent<K>>) -> EngineView<K>
        decreases evs.len(),
    {
        if evs.len() == 0 {
            self
        } else {
            self.captured_all(evs.drop_last()).captured(evs.last())
        }
    }
}

/// The key presses among `evs`, in order.
pub open spec fn key_presses<K>(evs: Seq<InputEvent<K>>) -> Seq<InputEvent<K>> {
    evs.filter(|e: InputEvent<K>| is_key_press(e))
}

/// While recording, capturing `evs` appends exactly their key presses and
/// changes nothing else.
pub proof fn lemma_capture_while_recording<K>(w: EngineView<K>, evs: Seq<InputEvent<K>>)
    requires
        w.recording_active,
    ensures
        w.captured_all(evs) == (EngineView { events: w.events + key_presses(evs), ..w }),
    decreases evs.len(),
{
    reveal(Seq::filter);
    if evs.len() > 0 {
        lemma_capture_while_recording(w, evs.drop_last());
        let prev = key_presses(evs.drop_last());
        assert(key_presses(evs) == if is_key_press(evs.last()) {
            prev.push(evs.last())
        } else {
            prev
        });
        assert((w.events + prev).push(evs.last()) =~= w.events + prev.push(evs.last()));
    } else {
        assert(w.events + key_presses(evs) =~= w.events);
    }
}

/// When every event is a key press, the key presses of a sequence are the
/// whole sequence.
pub proof fn lemma_key_presses_of_presses<K>(evs: Seq<InputEvent<K>>)
    requires
        forall|i: int| 0 <= i < evs.len() ==> is_key_press(#[trigger] evs[i]),
    ensures
        key_presses(evs) == evs,
    decreases evs.len(),
{
    reveal(Seq::filter);
    if evs.len() > 0 {
        lemma_key_presses_of_presses(evs.drop_last());
        assert(evs.drop_last().push(evs.last()) =~= evs);
    } else {
        assert(key_presses(evs) =~= evs);
    }
}

/// Starting a recording, capturing any events and stopping leaves exactly
/// the key presses among them, in arrival order with their timestamps, and
/// recording off.
pub proof fn lemma_session_records_key_presses<K>(v: EngineView<K>, evs: Seq<InputEvent<K>>)
    ensures
        v.started().captured_all(evs).stopped().events == key_presses(evs),
        !v.started().captured_all(evs).stopped().recording_active,
{
    lemma_capture_while_recording(v.started(), evs);
    assert(Seq::<InputEvent<K>>::empty() + key_presses(evs) =~= key_presses(evs));
}

/// Starting a recording, capturing N key presses and stopping leaves exactly
/// those N events in arrival order with their timestamps.
pub proof fn lemma_session_of_presses<K>(v: EngineView<K>, evs: Seq<InputEvent<K>>)
    requires
        forall|i: int| 0 <= i < evs.len() ==> is_key_press(#[trigger] evs[i]),
    ensures
        v.started().captured_all(evs).stopped().events == evs,
{
    lemma_session_records_key_presses(v, evs);
    lemma_key_presses_of_presses(evs);
}

/// A new recording discards whatever the previous one held: afterwards the
/// recording is exactly the key presses of the new session, whatever came
/// before.
pub proof fn lemma_start_discards_previous<K>(v: EngineView<K>, evs: Seq<InputEvent<K>>)
    ensures
        v.started().captured_all(evs).events == key_presses(evs),
{
    lemma_capture_while_recording(v.started(), evs);
    assert(Seq::<InputEvent<K>>::empty() + key_presses(evs) =~= key_presses(evs));
}

/// Stopping twice is the same as stopping once, and recording is off after
/// each stop.
pub proof fn lemma_stop_idempotent<K>(v: EngineView<K>)
    ensures
        v.stopped().stopped() == v.stopped(),
        !v.stopped().recording_active,
        !v.stopped().stopped().recording_active,
{
}

/// Whether the input listener is alive, given whether its handle exists and,
/// if so, whether it reports finished.
pub fn check_keyboard_status(listener_finished: Option<bool>) -> (r: bool)
    ensures
        r == (listener_finished == Some(false)),
{
    match listener_finished {
        Some(finished) => !finished,
        None => false,
    }
}

impl<K: Copy> Engine<K> {
    pub fn new() -> (r: Engine<K>)
        ensures
            r@ == initial::<K>(),
    {
        Engine { events: Vec::new(), recording_active: false, stop_requested: true }
    }

    /// Starts a new recording, discarding the previous one; returns whether
    /// recording is active afterwards (always true).
    pub fn start_listen(&mut self) -> (r: bool)
        ensures
            final(self)@ == old(self)@.started(),
            r == final(self)@.recording_active,
            r,
    {
        self.stop_requested = false;
        self.recording_active = true;
        self.events.clear();
        self.recording_active
    }

    /// Stops recording and asks any replay in progress to halt; returns whether
    /// recording is active afterwards (always false).
    pub fn stop_listen(&mut self) -> (r: bool)
        ensures
            final(self)@ == old(self)@.stopped(),
            r == final(self)@.recording_active,
            !r,
    {
        self.stop_requested = true;
        self.recording_active = false;
        self.recording_active
    }

    /// Appends `event` to the recording if recording is active.
    pub fn record_event(&mut self, event: InputEvent<K>)
        ensures
            final(self)@ == (if old(self)@.recording_active {
                EngineView { events: old(self)@.events.push(event), ..old(self)@ }
            } else {
                old(self)@
            }),
    {
        if !self.recording_active {
            return;
        }
        self.events.push(event);
    }

    /// The capture sink: called once for every raw input event. Key presses
    /// are recorded; releases, pointer movement and other events are not.
    pub fn callback(&mut self, event: InputEvent<K>)
        ensures
            final(self)@ == old(self)@.captured(event),
    {
        match event.kind {
            EventKind::KeyPress(_) => self.record_event(event),
            EventKind::KeyRelease(_) => {},
            EventKind::PointerMove => {},
            EventKind::Other => {},
        }
    }

    /// Permits the replay about to run to proceed.
    pub fn clear_stop_request(&mut self)
        ensures
            final(self)@ == (EngineView { stop_requested: false, ..old(self)@ }),
    {
        self.stop_requested = false;
    }

    pub fn recording_active(&self) -> (r: bool)
        ensures
            r == self@.recording_active,
    {
        self.recording_active
    }

    pub fn stop_requested(&self) -> (r: bool)
        ensures
            r == self@.stop_requested,
    {
        self.stop_requested
    }

    /// The current recording.
    pub fn events(&self) -> (r: &Vec<InputEvent<K>>)
        ensures
            r@ == self@.events,
    {
        &self.events
    }

    /// A copy of the current recording.
    pub fn snapshot(&self) -> (r: Vec<InputEvent<K>>)
        ensures
            r@ == self@.events,
    {
        let mut out: Vec<InputEvent<K>> = Vec::new();
        let mut i: usize = 0;
        while i < self.events.len()
            invariant
                i <= self.events@.len(),
                out@ == self.events@.subrange(0, i as int),
            decreases self.events@.len() - i,
        {
            out.push(self.events[i]);
            i = i + 1;
            assert(out@ =~= self.events@.subrange(0, i as int));
        }
        assert(out@ =~= self.events@);
        out
    }

    /// Starts a replay over a snapshot of the recording; there is none when
    /// the recording is empty.
    pub fn begin_playback(&self) -> (r: Option<Playback<K>>)
        ensures
            r is None <==> self@.events.len() == 0,
            r matches Some(p) ==> p@ == PlaybackView::fresh(self@.events) && p@.wf(),
    {
        Playback::new(self.snapshot())
    }
}

} // verus!
