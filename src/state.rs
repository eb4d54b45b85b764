use vstd::prelude::*;

use crate::controls::{Axis, Button, Shoulder, AXIS_COUNT, BUTTON_COUNT, SHOULDER_COUNT};
use crate::event::{decoded, process_event, record_value_be, record_value_le, Error, Event, EVENT_SIZE};

verus! {

/// The abstract content of a `State`: the last value reported for each
/// control that has been reported at all.
pub struct StateView {
    pub axes: Map<Axis, i16>,
    pub shoulders: Map<Shoulder, u16>,
    pub buttons: Map<Button, bool>,
}

impl StateView {
    pub open spec fn empty() -> StateView {
        StateView { axes: Map::empty(), shoulders: Map::empty(), buttons: Map::empty() }
    }

    /// The content after `e` is applied: its control now maps to its value,
    /// every other entry is kept.
    pub open spec fn applied(self, e: Event) -> StateView {
        match e {
            Event::Axis(a, v) => StateView { axes: self.axes.insert(a, v), ..self },
            Event::Shoulder(s, v) => StateView { shoulders: self.shoulders.insert(s, v), ..self },
            Event::Button(b, v) => StateView { buttons: self.buttons.insert(b, v), ..self },
        }
    }

    /// The content after a decoding outcome is handled: an event is
    /// applied, a failure is dropped.
    pub open spec fn ingested(self, r: Result<Event, Error>) -> StateView {
        match r {
            Ok(e) => self.applied(e),
            Err(_) => self,
        }
    }

    /// The content after `evs` are applied in order.
    pub open spec fn replayed(self, evs: Seq<Event>) -> StateView
        decreases evs.len(),
    {
        if evs.len() == 0 {
            self
        } else {
            self.replayed(evs.drop_last()).applied(evs.last())
        }
    }

    /// What a read of axis `a` returns: its last value, or 0 if never reported.
    pub open spec fn axis_reading(self, a: Axis) -> i16 {
        if self.axes.contains_key(a) {
            self.axes[a]
        } else {
            0
        }
    }

    /// What a read of shoulder `s` returns: its last value, or 0 if never reported.
    pub open spec fn shoulder_reading(self, s: Shoulder) -> u16 {
        if self.shoulders.contains_key(s) {
            self.shoulders[s]
        } else {
            0
        }
    }

    /// What a read of button `b` returns: its last value, or released if never reported.
    pub open spec fn button_reading(self, b: Button) -> bool {
        if self.buttons.contains_key(b) {
            self.buttons[b]
        } else {
            false
        }
    }
}

/// The latest known value of every axis, shoulder and button.
pub struct State {
    axes: [Option<i16>; AXIS_COUNT],
    shoulders: [Option<u16>; SHOULDER_COUNT],
    buttons: [Option<bool>; BUTTON_COUNT],
}

impl View for State {
    type V = StateView;

    closed spec fn view(&self) -> StateView {
        StateView {
            axes: Map::new(
                |a: Axis| self.axes@[a.spec_slot() as int] is Some,
                |a: Axis| self.axes@[a.spec_slot() as int]->0,
            ),
            shoulders: Map::new(
                |s: Shoulder| self.shoulders@[s.spec_slot() as int] is Some,
                |s: Shoulder| self.shoulders@[s.spec_slot() as int]->0,
            ),
            buttons: Map::new(
                |b: Button| self.buttons@[b.spec_slot() as int] is Some,
                |b: Button| self.buttons@[b.spec_slot() as int]->0,
            ),
        }
    }
}

/// Where the reader loop stands after a step.
#[derive(Debug, Copy, Clone, PartialEq, Eq, Structural)]
pub enum ReaderPhase {
    /// Waiting for the next record.
    Running,
    /// The input source failed or ended; the loop is over for good.
    Stopped,
}

impl State {
    /// An empty state: every control reads at rest.
    pub fn new() -> (r: State)
        ensures
            r@ == StateView::empty(),
    {
        let r = State { axes: [None; AXIS_COUNT], shoulders: [None; SHOULDER_COUNT], buttons: [None; BUTTON_COUNT] };
        assert(r@.axes =~= Map::empty());
        assert(r@.shoulders =~= Map::empty());
        assert(r@.buttons =~= Map::empty());
        r
    }

    /// Records the value that `e` carries for its control, replacing any
    /// earlier one. Nothing else changes.
    pub fn apply(&mut self, e: Event)
        ensures
            final(self)@ == old(self)@.applied(e),
    {
        match e {
            Event::Axis(a, v) => {
                self.axes[a.slot()] = Some(v);
                assert(final(self)@.axes =~= old(self)@.axes.insert(a, v));
                assert(final(self)@.shoulders =~= old(self)@.shoulders);
                assert(final(self)@.buttons =~= old(self)@.buttons);
            },
            Event::Shoulder(sh, v) => {
                self.shoulders[sh.slot()] = Some(v);
                assert(final(self)@.axes =~= old(self)@.axes);
                assert(final(self)@.shoulders =~= old(self)@.shoulders.insert(sh, v));
                assert(final(self)@.buttons =~= old(self)@.buttons);
            },
            Event::Button(b, v) => {
                self.buttons[b.slot()] = Some(v);
                assert(final(self)@.axes =~= old(self)@.axes);
                assert(final(self)@.shoulders =~= old(self)@.shoulders);
                assert(final(self)@.buttons =~= old(self)@.buttons.insert(b, v));
            },
        }
    }

    /// The last value of axis `axis`, or 0 if it was never reported.
    pub fn read_axis(&self, axis: Axis) -> (r: i16)
        ensures
            r == self@.axis_reading(axis),
    {
        match self.axes[axis.slot()] {
            Some(v) => v,
            None => 0,
        }
    }

    /// The last value of shoulder `shoulder`, or 0 if it was never reported.
    pub fn read_shoulder(&self, shoulder: Shoulder) -> (r: u16)
        ensures
            r == self@.shoulder_reading(shoulder),
    {
        match self.shoulders[shoulder.slot()] {
            Some(v) => v,
            None => 0,
        }
    }

    /// Whether button `button` was last reported pressed; `false` if it was
    /// never reported.
    pub fn read_button(&self, button: Button) -> (r: bool)
        ensures
            r == self@.button_reading(button),
    {
        match self.buttons[button.slot()] {
            Some(v) => v,
            None => false,
        }
    }

    /// One turn of the reader loop. `read` is the record that the input
    /// source gave, or `None` where the read failed or the stream ended; then
    /// the loop stops, as it does once `stop_requested`. A record that does
    /// not decode is dropped and the loop goes on.
    pub fn ingest(&mut self, read: Option<[u8; EVENT_SIZE]>, stop_requested: bool) -> (phase: ReaderPhase)
        ensures
            stop_requested || read is None ==> phase == ReaderPhase::Stopped && final(self)@ == old(self)@,
            !stop_requested && read is Some ==> phase == ReaderPhase::Running && ({
                let rec = read->0;
                ||| final(self)@ == old(self)@.ingested(decoded(rec@[6], rec@[7], record_value_le(rec) as u16))
                ||| final(self)@ == old(self)@.ingested(decoded(rec@[6], rec@[7], record_value_be(rec) as u16))
            }),
    {
        if stop_requested {
            return ReaderPhase::Stopped;
        }
        match read {
            None => ReaderPhase::Stopped,
            Some(rec) => {
                match process_event(&rec) {
                    Ok(e) => self.apply(e),
                    Err(_) => {},
                }
                ReaderPhase::Running
            },
        }
    }
}

} // verus!
