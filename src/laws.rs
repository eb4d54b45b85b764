use vstd::prelude::*;

use crate::controls::{Axis, Button, Shoulder};
use crate::event::{decoded, is_button_type, is_stick_type, Error, Event};
use crate::state::StateView;

verus! {

pub open spec fn reports_axis(e: Event, a: Axis) -> bool {
    e matches Event::Axis(x, _) && x == a
}

pub open spec fn reports_shoulder(e: Event, s: Shoulder) -> bool {
    e matches Event::Shoulder(x, _) && x == s
}

pub open spec fn reports_button(e: Event, b: Button) -> bool {
    e matches Event::Button(x, _) && x == b
}

/// A control that no applied event reports reads at rest: 0 for an axis or
/// a shoulder, released for a button.
pub proof fn lemma_unreported_reads_rest(evs: Seq<Event>, a: Axis, s: Shoulder, b: Button)
    ensures
        (forall|i: int| 0 <= i < evs.len() ==> !reports_axis(#[trigger] evs[i], a))
            ==> StateView::empty().replayed(evs).axis_reading(a) == 0,
        (forall|i: int| 0 <= i < evs.len() ==> !reports_shoulder(#[trigger] evs[i], s))
            ==> StateView::empty().replayed(evs).shoulder_reading(s) == 0,
        (forall|i: int| 0 <= i < evs.len() ==> !reports_button(#[trigger] evs[i], b))
            ==> !StateView::empty().replayed(evs).button_reading(b),
    decreases evs.len(),
{
    if evs.len() > 0 {
        let init = evs.drop_last();
        lemma_unreported_reads_rest(init, a, s, b);
        assert forall|i: int| 0 <= i < init.len() implies init[i] == evs[i] by {}
        assert(evs.last() == evs[evs.len() - 1]);
    }
}

/// Every reading is either the reading before the events or the value of
/// one whole applied event for that control: the last one. Since each event
/// replaces a single entry at once, no reading mixes two events.
pub proof fn lemma_reading_was_applied(v: StateView, evs: Seq<Event>, a: Axis, s: Shoulder, b: Button)
    ensures
        v.replayed(evs).axis_reading(a) == v.axis_reading(a) || exists|i: int|
            0 <= i < evs.len() && #[trigger] evs[i] == Event::Axis(a, v.replayed(evs).axis_reading(a)),
        v.replayed(evs).shoulder_reading(s) == v.shoulder_reading(s) || exists|i: int|
            0 <= i < evs.len() && #[trigger] evs[i] == Event::Shoulder(s, v.replayed(evs).shoulder_reading(s)),
        v.replayed(evs).button_reading(b) == v.button_reading(b) || exists|i: int|
            0 <= i < evs.len() && #[trigger] evs[i] == Event::Button(b, v.replayed(evs).button_reading(b)),
    decreases evs.len(),
{
    if evs.len() > 0 {
        let init = evs.drop_last();
        let last = evs.len() - 1;
        lemma_reading_was_applied(v, init, a, s, b);
        assert forall|i: int| 0 <= i < init.len() implies init[i] == evs[i] by {}
        assert(evs.last() == evs[last]);
        let w = v.replayed(init);
        assert(v.replayed(evs) == w.applied(evs[last]));
        if v.replayed(evs).axis_reading(a) != w.axis_reading(a) {
            assert(evs[last] == Event::Axis(a, v.replayed(evs).axis_reading(a)));
        }
        if v.replayed(evs).shoulder_reading(s) != w.shoulder_reading(s) {
            assert(evs[last] == Event::Shoulder(s, v.replayed(evs).shoulder_reading(s)));
        }
        if v.replayed(evs).button_reading(b) != w.button_reading(b) {
            assert(evs[last] == Event::Button(b, v.replayed(evs).button_reading(b)));
        }
    }
}

/// Last write wins: after axis `a` is set to `x1`, another axis `b` to `y`
/// and `a` again to `x2`, `a` reads `x2` and `b` still reads `y`.
pub proof fn lemma_last_write_wins(v: StateView, a: Axis, b: Axis, x1: i16, y: i16, x2: i16)
    requires
        a != b,
    ensures
        ({
            let w = v.applied(Event::Axis(a, x1)).applied(Event::Axis(b, y)).applied(Event::Axis(a, x2));
            &&& w.axis_reading(a) == x2
            &&& w.axis_reading(b) == y
            &&& w.shoulders == v.shoulders
            &&& w.buttons == v.buttons
        }),
{
}

/// A record whose type tag is neither a stick nor a button type fails to
/// decode whatever its index and value, is dropped without changing the
/// state, and a valid record after it is applied as usual.
pub proof fn lemma_unknown_type_dropped(v: StateView, ev_type: u8, idx: u8, value: u16, next: Event)
    requires
        !is_stick_type(ev_type),
        !is_button_type(ev_type),
    ensures
        decoded(ev_type, idx, value) == Err::<Event, Error>(Error::UnknownEventType),
        v.ingested(decoded(ev_type, idx, value)) == v,
        v.ingested(decoded(ev_type, idx, value)).ingested(Ok(next)) == v.applied(next),
{
}

} // verus!
