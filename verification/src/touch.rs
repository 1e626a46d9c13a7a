//! Translation of raw, level-based touch sensor readings into the
//! edge-triggered pointer events a retained-mode UI engine expects.
//!
//! The sensor reports whether the screen is currently touched; the UI engine
//! wants to know when a touch began, moved, or ended. One bit of latched
//! state (the pressed flag) is enough to synthesize the edges: a `Pressed`
//! sample seen while the flag is clear is a press edge, while the flag is set
//! it is motion; a `Held` sample is always motion because the press edge was
//! reported on the tick the flag became set; a `Released` sample always ends
//! the contact.

use vstd::prelude::*;

verus! {

/// Raw level-based contact state reported by the touch sensor.
#[derive(Clone, Copy, PartialEq, Eq, Structural, Debug)]
pub enum TouchState {
    /// No finger on the screen.
    Released,
    /// A finger is on the screen.
    Pressed,
    /// The finger has stayed on the screen long enough for the hardware to
    /// latch the contact.
    Held,
}

/// An instantaneous sensor reading: contact state plus the reported contact
/// coordinates in device pixels. Read once per tick, never stored.
#[derive(Clone, Copy, PartialEq, Eq, Structural, Debug)]
pub struct TouchSample {
    pub x: i16,
    pub y: i16,
    pub state: TouchState,
}

/// An edge-triggered pointer event in the UI engine's logical coordinate
/// space. The device uses a fixed 1:1 scale, so logical coordinates equal
/// device pixel coordinates.
#[derive(Clone, Copy, PartialEq, Eq, Structural, Debug)]
pub enum PointerEvent {
    /// The contact began at (x, y).
    Pressed { x: i16, y: i16 },
    /// The contact moved to (or is holding at) (x, y).
    Moved { x: i16, y: i16 },
    /// The contact ended at (x, y).
    Released { x: i16, y: i16 },
}

/// The pressed flag after observing one sample: set exactly when the sample
/// reports a contact (`Pressed` or `Held`), cleared on `Released`.
pub open spec fn next_pressed(pressed: bool, s: TouchState) -> bool {
    match s {
        TouchState::Released => false,
        TouchState::Pressed => true,
        TouchState::Held => true,
    }
}

/// The event synthesized for one sample, given the latched pressed flag.
pub open spec fn translated_event(pressed: bool, s: TouchSample) -> PointerEvent {
    match s.state {
        TouchState::Released => PointerEvent::Released { x: s.x, y: s.y },
        TouchState::Pressed => if pressed {
            PointerEvent::Moved { x: s.x, y: s.y }
        } else {
            PointerEvent::Pressed { x: s.x, y: s.y }
        },
        TouchState::Held => PointerEvent::Moved { x: s.x, y: s.y },
    }
}

/// The pressed flag after a whole sequence of samples has been observed,
/// starting from `pressed`.
pub open spec fn pressed_after(pressed: bool, samples: Seq<TouchSample>) -> bool
    decreases samples.len(),
{
    if samples.len() == 0 {
        pressed
    } else {
        next_pressed(pressed_after(pressed, samples.drop_last()), samples.last().state)
    }
}

/// The events synthesized for a whole sequence of samples, in order, starting
/// from the flag value `pressed`.
pub open spec fn translated_events(pressed: bool, samples: Seq<TouchSample>) -> Seq<PointerEvent>
    decreases samples.len(),
{
    if samples.len() == 0 {
        Seq::empty()
    } else {
        translated_events(pressed, samples.drop_last())
            .push(translated_event(pressed_after(pressed, samples.drop_last()), samples.last()))
    }
}

/// The state machine that latches the pressed flag between ticks.
pub struct TouchTranslator {
    pub pressed: bool,
}

impl TouchTranslator {
    /// A fresh translator; no contact has been observed yet.
    pub fn new() -> (t: TouchTranslator)
        ensures
            !t.pressed,
    {
        TouchTranslator { pressed: false }
    }

    /// Translate one sample into exactly one pointer event and latch the new
    /// flag, following the table: `Released` always yields a release edge and
    /// clears the flag; `Pressed` yields a press edge when the flag was clear
    /// and motion when it was set; `Held` always yields motion.
    pub fn translate(&mut self, s: &TouchSample) -> (e: PointerEvent)
        ensures
            e == translated_event(old(self).pressed, *s),
            final(self).pressed == next_pressed(old(self).pressed, s.state),
    {
        let x = s.x;
        let y = s.y;
        match s.state {
            TouchState::Released => {
                self.pressed = false;
                PointerEvent::Released { x, y }
            },
            TouchState::Pressed => {
                if self.pressed {
                    PointerEvent::Moved { x, y }
                } else {
                    self.pressed = true;
                    PointerEvent::Pressed { x, y }
                }
            },
            TouchState::Held => {
                self.pressed = true;
                PointerEvent::Moved { x, y }
            },
        }
    }

    /// Translate a whole stream of samples, yielding one event per sample.
    pub fn translate_stream(&mut self, samples: &Vec<TouchSample>) -> (events: Vec<PointerEvent>)
        ensures
            events@ == translated_events(old(self).pressed, samples@),
            final(self).pressed == pressed_after(old(self).pressed, samples@),
    {
        let ghost start: bool = self.pressed;
        let mut events: Vec<PointerEvent> = Vec::new();
        let mut i: usize = 0;
        while i < samples.len()
            invariant
                i <= samples.len(),
                events@ == translated_events(start, samples@.take(i as int)),
                self.pressed == pressed_after(start, samples@.take(i as int)),
            decreases samples.len() - i,
        {
            let e = self.translate(&samples[i]);
            events.push(e);
            proof {
                assert(samples@.take(i as int + 1).drop_last() =~= samples@.take(i as int));
                assert(samples@.take(i as int + 1).last() == samples@[i as int]);
            }
            i = i + 1;
        }
        proof {
            assert(samples@.take(samples@.len() as int) =~= samples@);
        }
        events
    }
}

/// Each synthesized event lines up with its sample: the event at position `i`
/// is the translation of sample `i` under the flag latched by the first `i`
/// samples.
pub proof fn lemma_translated_events_index(pressed: bool, samples: Seq<TouchSample>, i: int)
    requires
        0 <= i < samples.len(),
    ensures
        translated_events(pressed, samples).len() == samples.len(),
        translated_events(pressed, samples)[i]
            == translated_event(pressed_after(pressed, samples.take(i)), samples[i]),
    decreases samples.len(),
{
    lemma_translated_events_len(pressed, samples);
    if i == samples.len() - 1 {
        assert(samples.take(i) =~= samples.drop_last());
    } else {
        lemma_translated_events_index(pressed, samples.drop_last(), i);
        assert(samples.drop_last().take(i) =~= samples.take(i));
    }
}

/// One event is synthesized per sample.
pub proof fn lemma_translated_events_len(pressed: bool, samples: Seq<TouchSample>)
    ensures
        translated_events(pressed, samples).len() == samples.len(),
    decreases samples.len(),
{
    if samples.len() > 0 {
        lemma_translated_events_len(pressed, samples.drop_last());
    }
}

/// Touch edge synthesis: a `Released` sample always yields exactly one
/// `PointerEvent::Released` at the sample's coordinates and clears the
/// pressed flag, regardless of any prior state.
pub proof fn lemma_released_resets(pressed: bool, s: TouchSample)
    requires
        s.state is Released,
    ensures
        translated_event(pressed, s) == (PointerEvent::Released { x: s.x, y: s.y }),
        !next_pressed(pressed, s.state),
{
}

/// Touch edge synthesis over a stream: wherever a sample reports `Released`,
/// the event at that position is `PointerEvent::Released` at the sample's
/// coordinates, and the flag latched through that sample is clear.
pub proof fn lemma_released_resets_in_stream(pressed: bool, samples: Seq<TouchSample>, i: int)
    requires
        0 <= i < samples.len(),
        samples[i].state is Released,
    ensures
        translated_events(pressed, samples)[i]
            == (PointerEvent::Released { x: samples[i].x, y: samples[i].y }),
        !pressed_after(pressed, samples.take(i + 1)),
{
    lemma_translated_events_index(pressed, samples, i);
    assert(samples.take(i + 1).drop_last() =~= samples.take(i));
    assert(samples.take(i + 1).last() == samples[i]);
}

/// Debounce: when two consecutive samples both report `Pressed`, the second
/// event is always motion, and the pair is `PointerPressed` then
/// `PointerMoved` when the flag was clear before the first of them.
pub proof fn lemma_debounce(pressed: bool, samples: Seq<TouchSample>, i: int)
    requires
        0 <= i,
        i + 1 < samples.len(),
        samples[i].state is Pressed,
        samples[i + 1].state is Pressed,
    ensures
        translated_events(pressed, samples)[i + 1]
            == (PointerEvent::Moved { x: samples[i + 1].x, y: samples[i + 1].y }),
        !pressed_after(pressed, samples.take(i)) ==> translated_events(pressed, samples)[i]
            == (PointerEvent::Pressed { x: samples[i].x, y: samples[i].y }),
    decreases samples.len(),
{
    lemma_translated_events_index(pressed, samples, i);
    lemma_translated_events_index(pressed, samples, i + 1);
    assert(samples.take(i + 1).drop_last() =~= samples.take(i));
    assert(samples.take(i + 1).last() == samples[i]);
}

/// No two `PointerPressed` events are ever adjacent, whatever the samples: a
/// press edge latches the flag, so the next sample can at most be motion.
pub proof fn lemma_no_double_press(pressed: bool, samples: Seq<TouchSample>, i: int)
    requires
        0 <= i,
        i + 1 < samples.len(),
        translated_events(pressed, samples)[i] is Pressed,
    ensures
        !(translated_events(pressed, samples)[i + 1] is Pressed),
{
    lemma_translated_events_index(pressed, samples, i);
    lemma_translated_events_index(pressed, samples, i + 1);
    assert(samples.take(i + 1).drop_last() =~= samples.take(i));
    assert(samples.take(i + 1).last() == samples[i]);
}

/// The pressed flag tracks the last event: after a non-empty stream the flag
/// is set exactly when the most recent event was a press or a move.
pub proof fn lemma_flag_tracks_last_event(pressed: bool, samples: Seq<TouchSample>)
    requires
        samples.len() > 0,
    ensures
        pressed_after(pressed, samples) <==> {
            let last = translated_events(pressed, samples).last();
            last is Pressed || last is Moved
        },
{
    lemma_translated_events_len(pressed, samples);
    lemma_translated_events_index(pressed, samples, samples.len() - 1);
    assert(samples.take(samples.len() - 1) =~= samples.drop_last());
}

} // verus!
