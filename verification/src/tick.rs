//! The event loop as a state machine: what the adapter does each tick, and
//! in what order.
//!
//! Each tick advances the engine's timers, asks the engine whether a repaint
//! is needed, renders and transfers the frame only when it is, reads and
//! dispatches exactly one translated touch event, and finally yields the
//! task for one refresh interval. The decisions live here, verified; the
//! unverified shell performs each requested [`TickAction`] against the real
//! engine, display, and scheduler and feeds the outcome back as a
//! [`LoopEvent`].

use vstd::prelude::*;

use crate::touch::{
    lemma_translated_events_index, next_pressed, pressed_after, translated_event,
    translated_events, PointerEvent, TouchSample, TouchTranslator,
};

verus! {

/// Where within a tick the loop currently stands; each phase has exactly one
/// action to perform next. A tick visits `Timers` → `RepaintCheck` →
/// (`Render` → `Transfer`, only when a repaint is needed) → `Touch` →
/// `Dispatch` → `Sleep`, then the next tick begins.
#[derive(Clone, Copy, PartialEq, Eq, Structural, Debug)]
pub enum Phase {
    /// Advance the engine's timers and animations.
    Timers,
    /// Ask the engine whether visible state changed since the last frame.
    RepaintCheck,
    /// Have the engine render into a snapshot of the frame buffer.
    Render,
    /// Push the rendered snapshot to the display hardware.
    Transfer,
    /// Read one sample from the touch sensor.
    Touch,
    /// Hand the translated pointer event to the engine.
    Dispatch(PointerEvent),
    /// Suspend the task for one refresh interval.
    Sleep,
}

/// The outside work the shell must perform next.
#[derive(Clone, Copy, PartialEq, Eq, Structural, Debug)]
pub enum TickAction {
    /// Call the engine's timer/animation update.
    AdvanceTimers,
    /// Ask the engine whether a repaint is required.
    CheckRepaint,
    /// Render the frame into the local snapshot buffer.
    Render,
    /// Transfer the snapshot to the display over the full-screen region.
    Transfer,
    /// Poll the touch sensor for one sample.
    ReadTouch,
    /// Dispatch this pointer event to the engine's window.
    Dispatch(PointerEvent),
    /// Yield to the scheduler for one refresh interval.
    Yield,
}

/// What came back from performing the pending action.
#[derive(Clone, Copy, PartialEq, Eq, Structural, Debug)]
pub enum LoopEvent {
    /// Timers and animations were advanced.
    TimersAdvanced,
    /// The engine answered the repaint question.
    RepaintChecked { needed: bool },
    /// The engine rendered into the snapshot buffer.
    RenderDone,
    /// The snapshot reached the display hardware.
    TransferDone,
    /// The sensor reported this sample.
    TouchRead(TouchSample),
    /// The pointer event was handed to the engine.
    EventDispatched,
    /// The refresh interval elapsed and the task was resumed.
    SleepFinished,
}

/// The loop's whole state between two steps: the current phase and the
/// latched pressed flag of the touch translator.
#[derive(Clone, Copy, PartialEq, Eq, Structural, Debug)]
pub struct LoopState {
    pub phase: Phase,
    pub pressed: bool,
}

/// The one action each phase calls for.
pub open spec fn action_for(phase: Phase) -> TickAction {
    match phase {
        Phase::Timers => TickAction::AdvanceTimers,
        Phase::RepaintCheck => TickAction::CheckRepaint,
        Phase::Render => TickAction::Render,
        Phase::Transfer => TickAction::Transfer,
        Phase::Touch => TickAction::ReadTouch,
        Phase::Dispatch(e) => TickAction::Dispatch(e),
        Phase::Sleep => TickAction::Yield,
    }
}

/// Whether `ev` is the outcome the current phase's action can report.
pub open spec fn expected_event(phase: Phase, ev: LoopEvent) -> bool {
    match phase {
        Phase::Timers => ev is TimersAdvanced,
        Phase::RepaintCheck => ev is RepaintChecked,
        Phase::Render => ev is RenderDone,
        Phase::Transfer => ev is TransferDone,
        Phase::Touch => ev is TouchRead,
        Phase::Dispatch(_) => ev is EventDispatched,
        Phase::Sleep => ev is SleepFinished,
    }
}

/// The next state after the current phase's action reported `ev`: the repaint
/// answer decides whether `Render`/`Transfer` are visited at all, and the
/// touch sample is translated on the spot, latching the pressed flag.
pub open spec fn next_state(s: LoopState, ev: LoopEvent) -> LoopState {
    match s.phase {
        Phase::Timers => LoopState { phase: Phase::RepaintCheck, pressed: s.pressed },
        Phase::RepaintCheck => if ev matches LoopEvent::RepaintChecked { needed } && needed {
            LoopState { phase: Phase::Render, pressed: s.pressed }
        } else {
            LoopState { phase: Phase::Touch, pressed: s.pressed }
        },
        Phase::Render => LoopState { phase: Phase::Transfer, pressed: s.pressed },
        Phase::Transfer => LoopState { phase: Phase::Touch, pressed: s.pressed },
        Phase::Touch => match ev {
            LoopEvent::TouchRead(sample) => LoopState {
                phase: Phase::Dispatch(translated_event(s.pressed, sample)),
                pressed: next_pressed(s.pressed, sample.state),
            },
            _ => s,
        },
        Phase::Dispatch(_) => LoopState { phase: Phase::Sleep, pressed: s.pressed },
        Phase::Sleep => LoopState { phase: Phase::Timers, pressed: s.pressed },
    }
}

/// The exact actions one tick performs, in order, given the latched flag,
/// the engine's repaint answer, and the sensor's sample: timers first, then
/// the repaint check, then — only when a repaint is needed — render and
/// transfer, then the touch read and the dispatch of its translation, and a
/// yield last.
pub open spec fn tick_actions(pressed: bool, needs_repaint: bool, sample: TouchSample) -> Seq<
    TickAction,
> {
    seq![TickAction::AdvanceTimers, TickAction::CheckRepaint] + (if needs_repaint {
        seq![TickAction::Render, TickAction::Transfer]
    } else {
        Seq::<TickAction>::empty()
    }) + seq![
        TickAction::ReadTouch,
        TickAction::Dispatch(translated_event(pressed, sample)),
        TickAction::Yield,
    ]
}

impl LoopState {
    /// The loop as installed: at the top of a tick, with no contact latched.
    pub fn new() -> (s: LoopState)
        ensures
            s.phase is Timers,
            !s.pressed,
    {
        LoopState { phase: Phase::Timers, pressed: false }
    }

    /// The action the shell must perform now.
    pub fn pending_action(&self) -> (a: TickAction)
        ensures
            a == action_for(self.phase),
    {
        match self.phase {
            Phase::Timers => TickAction::AdvanceTimers,
            Phase::RepaintCheck => TickAction::CheckRepaint,
            Phase::Render => TickAction::Render,
            Phase::Transfer => TickAction::Transfer,
            Phase::Touch => TickAction::ReadTouch,
            Phase::Dispatch(e) => TickAction::Dispatch(e),
            Phase::Sleep => TickAction::Yield,
        }
    }

    /// Step the loop with the outcome of the action just performed.
    pub fn advance(&mut self, ev: &LoopEvent)
        requires
            expected_event(old(self).phase, *ev),
        ensures
            *final(self) == next_state(*old(self), *ev),
    {
        match self.phase {
            Phase::Timers => {
                self.phase = Phase::RepaintCheck;
            },
            Phase::RepaintCheck => {
                if let LoopEvent::RepaintChecked { needed: true } = ev {
                    self.phase = Phase::Render;
                } else {
                    self.phase = Phase::Touch;
                }
            },
            Phase::Render => {
                self.phase = Phase::Transfer;
            },
            Phase::Transfer => {
                self.phase = Phase::Touch;
            },
            Phase::Touch => {
                if let LoopEvent::TouchRead(sample) = ev {
                    let mut translator = TouchTranslator { pressed: self.pressed };
                    let e = translator.translate(sample);
                    self.phase = Phase::Dispatch(e);
                    self.pressed = translator.pressed;
                }
            },
            Phase::Dispatch(_) => {
                self.phase = Phase::Sleep;
            },
            Phase::Sleep => {
                self.phase = Phase::Timers;
            },
        }
    }

    /// Drive the loop through one whole tick, given the answers the engine
    /// and the sensor will report this tick, and collect the actions it asks
    /// for, which are exactly [`tick_actions`].
    pub fn run_tick(&mut self, needs_repaint: bool, sample: &TouchSample) -> (actions: Vec<
        TickAction,
    >)
        requires
            old(self).phase is Timers,
        ensures
            actions@ == tick_actions(old(self).pressed, needs_repaint, *sample),
            final(self).phase is Timers,
            final(self).pressed == next_pressed(old(self).pressed, sample.state),
    {
        let mut actions: Vec<TickAction> = Vec::new();
        actions.push(self.pending_action());
        self.advance(&LoopEvent::TimersAdvanced);
        actions.push(self.pending_action());
        self.advance(&LoopEvent::RepaintChecked { needed: needs_repaint });
        if needs_repaint {
            actions.push(self.pending_action());
            self.advance(&LoopEvent::RenderDone);
            actions.push(self.pending_action());
            self.advance(&LoopEvent::TransferDone);
        }
        actions.push(self.pending_action());
        self.advance(&LoopEvent::TouchRead(*sample));
        actions.push(self.pending_action());
        self.advance(&LoopEvent::EventDispatched);
        actions.push(self.pending_action());
        self.advance(&LoopEvent::SleepFinished);
        proof {
            assert(actions@ =~= tick_actions(old(self).pressed, needs_repaint, *sample));
        }
        actions
    }
}

/// The monotonic elapsed time handed to the engine's timer subsystem when
/// timers are advanced: how far `now` lies past the start timestamp captured
/// when the adapter was installed, in microseconds, clamped at zero should
/// the clock ever report an instant before the start.
pub fn elapsed_micros(start: u64, now: u64) -> (r: u64)
    ensures
        now >= start ==> r == now - start,
        now < start ==> r == 0,
{
    if now >= start {
        now - start
    } else {
        0
    }
}

/// Redraw skip: when the engine reports that no repaint is needed, the tick
/// performs neither a render nor a hardware transfer.
pub proof fn lemma_redraw_skip(pressed: bool, sample: TouchSample)
    ensures
        !tick_actions(pressed, false, sample).contains(TickAction::Transfer),
        !tick_actions(pressed, false, sample).contains(TickAction::Render),
{
    let s = tick_actions(pressed, false, sample);
    lemma_tick_actions_concrete(pressed, false, sample);
    assert forall|i: int| 0 <= i < s.len() implies s[i] != TickAction::Transfer && s[i]
        != TickAction::Render by {
        assert(s.len() == 5);
    }
}

/// One pointer event per tick: every tick dispatches exactly one event — the
/// translation of this tick's sample under the latched flag — whatever the
/// repaint decision was.
pub proof fn lemma_one_event_per_tick(pressed: bool, needs_repaint: bool, sample: TouchSample)
    ensures
        exists|i: int|
            0 <= i < tick_actions(pressed, needs_repaint, sample).len() && tick_actions(
                pressed,
                needs_repaint,
                sample,
            )[i] == TickAction::Dispatch(translated_event(pressed, sample)),
        forall|i: int|
            0 <= i < tick_actions(pressed, needs_repaint, sample).len() && tick_actions(
                pressed,
                needs_repaint,
                sample,
            )[i] is Dispatch ==> tick_actions(pressed, needs_repaint, sample)[i]
                == TickAction::Dispatch(translated_event(pressed, sample)) && i == tick_actions(
                pressed,
                needs_repaint,
                sample,
            ).len() - 2,
{
    let s = tick_actions(pressed, needs_repaint, sample);
    lemma_tick_actions_concrete(pressed, needs_repaint, sample);
    assert(s[s.len() - 2] == TickAction::Dispatch(translated_event(pressed, sample)));
}

/// Every tick yields to the scheduler exactly once, as its last action, even
/// when nothing was repainted: the suspension point is never optimized away.
pub proof fn lemma_always_yields_once(pressed: bool, needs_repaint: bool, sample: TouchSample)
    ensures
        tick_actions(pressed, needs_repaint, sample).last() == TickAction::Yield,
        forall|i: int|
            0 <= i < tick_actions(pressed, needs_repaint, sample).len() - 1 ==> tick_actions(
                pressed,
                needs_repaint,
                sample,
            )[i] != TickAction::Yield,
{
    lemma_tick_actions_concrete(pressed, needs_repaint, sample);
}

/// The two possible per-tick action sequences, written out: seven actions
/// when a repaint is needed, five when it is not.
pub proof fn lemma_tick_actions_concrete(pressed: bool, needs_repaint: bool, sample: TouchSample)
    ensures
        needs_repaint ==> tick_actions(pressed, needs_repaint, sample) =~= seq![
            TickAction::AdvanceTimers,
            TickAction::CheckRepaint,
            TickAction::Render,
            TickAction::Transfer,
            TickAction::ReadTouch,
            TickAction::Dispatch(translated_event(pressed, sample)),
            TickAction::Yield,
        ],
        !needs_repaint ==> tick_actions(pressed, needs_repaint, sample) =~= seq![
            TickAction::AdvanceTimers,
            TickAction::CheckRepaint,
            TickAction::ReadTouch,
            TickAction::Dispatch(translated_event(pressed, sample)),
            TickAction::Yield,
        ],
{
}

/// The loop dispatches the translated stream: tick `i`, entered with the
/// flag the first `i` samples latched, dispatches exactly the `i`-th event
/// of the stream's translation, whatever the repaint decision of that tick.
pub proof fn lemma_ticks_dispatch_translated_stream(
    start_pressed: bool,
    samples: Seq<TouchSample>,
    i: int,
    needs_repaint: bool,
)
    requires
        0 <= i < samples.len(),
    ensures
        tick_actions(pressed_after(start_pressed, samples.take(i)), needs_repaint, samples[i])
            .contains(TickAction::Dispatch(translated_events(start_pressed, samples)[i])),
{
    let latched = pressed_after(start_pressed, samples.take(i));
    let s = tick_actions(latched, needs_repaint, samples[i]);
    lemma_translated_events_index(start_pressed, samples, i);
    lemma_tick_actions_concrete(latched, needs_repaint, samples[i]);
    assert(s[s.len() - 2] == TickAction::Dispatch(
        translated_events(start_pressed, samples)[i],
    ));
}

/// Tick ordering: within every tick, timer advancement is the first action
/// and the repaint check the second, so a timer-driven change is visible to
/// that same tick's repaint decision; and the dispatch of the touch event
/// comes after any render or transfer.
pub proof fn lemma_tick_ordering(pressed: bool, needs_repaint: bool, sample: TouchSample)
    ensures
        tick_actions(pressed, needs_repaint, sample)[0] == TickAction::AdvanceTimers,
        tick_actions(pressed, needs_repaint, sample)[1] == TickAction::CheckRepaint,
        forall|i: int, j: int|
            {
                &&& 0 <= i < tick_actions(pressed, needs_repaint, sample).len()
                &&& 0 <= j < tick_actions(pressed, needs_repaint, sample).len()
                &&& tick_actions(pressed, needs_repaint, sample)[i] is Dispatch
                &&& (tick_actions(pressed, needs_repaint, sample)[j] is Render || tick_actions(
                    pressed,
                    needs_repaint,
                    sample,
                )[j] is Transfer)
            } ==> j < i,
{
    lemma_tick_actions_concrete(pressed, needs_repaint, sample);
}

} // verus!
