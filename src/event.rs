use vstd::prelude::*;

verus! {

/// The kind of one captured input occurrence.
#[derive(Clone, Copy, Debug, PartialEq, Eq)]
pub enum EventKind<K> {
    KeyPress(K),
    KeyRelease(K),
    /// Pointer movement; its coordinates are not kept.
    PointerMove,
    /// Any other occurrence the OS listener reports.
    Other,
}

/// One captured input event with its capture time in microseconds.
#[derive(Clone, Copy, Debug, PartialEq, Eq)]
pub struct InputEvent<K> {
    pub kind: EventKind<K>,
    pub time_us: u64,
}

pub open spec fn is_key_press<K>(e: InputEvent<K>) -> bool {
    e.kind is KeyPress
}

/// What the OS input-synthesis layer is asked to produce for one event.
#[derive(Clone, Copy, Debug, PartialEq, Eq)]
pub enum Synthesis<K> {
    Press(K),
    Release(K),
    /// Nothing is synthesized (pointer movement and other kinds).
    Nothing,
}

pub open spec fn synthesis_spec<K>(kind: EventKind<K>) -> Synthesis<K> {
    match kind {
        EventKind::KeyPress(k) => Synthesis::Press(k),
        EventKind::KeyRelease(k) => Synthesis::Release(k),
        _ => Synthesis::Nothing,
    }
}

/// Maps a recorded event kind to the input to synthesize on replay:
/// presses and releases are forwarded, everything else is a no-op.
pub fn synthesis_for<K: Copy>(kind: &EventKind<K>) -> (r: Synthesis<K>)
    ensures
        r == synthesis_spec(*kind),
{
    match kind {
        EventKind::KeyPress(k) => Synthesis::Press(*k),
        EventKind::KeyRelease(k) => Synthesis::Release(*k),
        _ => Synthesis::Nothing,
    }
}

/// Time elapsed from `prev` to `next`, or zero when `next` is earlier.
pub open spec fn delay_between(prev: u64, next: u64) -> nat {
    if next >= prev {
        (next - prev) as nat
    } else {
        0
    }
}

/// Microseconds to wait between an event captured at `prev_us` and the next
/// one captured at `next_us`, clamped to zero when the clock went backwards.
pub fn delay_us(prev_us: u64, next_us: u64) -> (r: u64)
    ensures
        r == delay_between(prev_us, next_us),
{
    if next_us >= prev_us {
        next_us - prev_us
    } else {
        0
    }
}

} // verus!
