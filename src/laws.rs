//! Properties that relate the translator, the combination of statuses and the
//! dispatch machine.
use crate::dispatch::{sent_outcome, Dispatch, Phase};
use crate::event::{Coordinate, EventType, SimulateError};
use crate::plan::{
    coord_value, foreign_raw_key, horizontal_button, magnitude, plan_of, unresolved_key,
    vertical_button, NativeCall, Plan,
};
use vstd::prelude::*;

verus! {

/// A pointer move to coordinates within the native range translates into
/// exactly one absolute motion call with those coordinates.
pub proof fn lemma_move_is_one_motion(x: i64, y: i64, resolved: Option<u32>)
    requires
        i32::MIN <= x <= i32::MAX,
        i32::MIN <= y <= i32::MAX,
    ensures
        ({
            let e = EventType::MouseMove { x: Coordinate::Rounded(x), y: Coordinate::Rounded(y) };
            &&& !foreign_raw_key(e)
            &&& !unresolved_key(e, resolved)
            &&& plan_of(e, resolved).calls() == seq![NativeCall::Motion { x: x as i32, y: y as i32 }]
        }),
{
    let e = EventType::MouseMove { x: Coordinate::Rounded(x), y: Coordinate::Rounded(y) };
    assert(plan_of(e, resolved).calls() =~= seq![
        NativeCall::Motion { x: x as i32, y: y as i32 },
    ]);
}

/// A coordinate that is not finite is passed to the motion call as 0.
pub proof fn lemma_non_finite_is_zero(x: Coordinate, y: Coordinate, resolved: Option<u32>)
    ensures
        ({
            let c = plan_of(EventType::MouseMove { x, y }, resolved).calls();
            &&& c.len() == 1
            &&& c[0] is Motion
            &&& x is NonFinite ==> c[0]->Motion_x == 0
            &&& y is NonFinite ==> c[0]->Motion_y == 0
        }),
{
}

/// A wheel event translates into `|delta_x|` press/release pairs on the
/// horizontal button chosen by the sign of `delta_x` (7 or 6), followed by
/// `|delta_y|` pairs on the vertical button chosen by the sign of `delta_y`
/// (4 or 5); each pair is a press at an even position and a release right
/// after it; an amount of 0 gives no pair on its axis.
pub proof fn lemma_wheel_pairs(delta_x: i64, delta_y: i64, resolved: Option<u32>)
    ensures
        ({
            let e = EventType::Wheel { delta_x, delta_y };
            let c = plan_of(e, resolved).calls();
            let nx = magnitude(delta_x) as int;
            let ny = magnitude(delta_y) as int;
            &&& !foreign_raw_key(e)
            &&& !unresolved_key(e, resolved)
            &&& c.len() == 2 * (nx + ny)
            &&& forall|i: int|
                0 <= i < 2 * nx ==> #[trigger] c[i] == NativeCall::Button {
                    button: horizontal_button(delta_x),
                    pressed: i % 2 == 0,
                }
            &&& forall|i: int|
                2 * nx <= i < c.len() ==> #[trigger] c[i] == NativeCall::Button {
                    button: vertical_button(delta_y),
                    pressed: (i - 2 * nx) % 2 == 0,
                }
        }),
{
}

proof fn lemma_and_zero(a: i32)
    ensures
        a & 0 == 0,
        0i32 & a == 0,
{
    assert(a & 0 == 0) by (bit_vector);
    assert(0i32 & a == 0) by (bit_vector);
}

/// Once a counted call has returned the failure status 0, the combined status
/// is 0, whatever the other calls returned.
pub proof fn lemma_failure_is_sticky(p: Plan, st: Seq<i32>, i: int)
    requires
        0 <= i < st.len(),
        st[i] == 0,
        p.reports(i),
    ensures
        p.combined(st) == 0,
        sent_outcome(p, st) == Err::<(), SimulateError>(SimulateError::SendInput),
    decreases st.len(),
{
    let acc = p.combined(st.drop_last());
    if i == st.len() - 1 {
        lemma_and_zero(acc);
    } else {
        lemma_failure_is_sticky(p, st.drop_last(), i);
        lemma_and_zero(st.last());
    }
}

/// A wheel event with no scroll amount makes no call and succeeds.
pub proof fn lemma_still_wheel_succeeds(resolved: Option<u32>)
    ensures
        ({
            let p = plan_of(EventType::Wheel { delta_x: 0, delta_y: 0 }, resolved);
            &&& p.calls().len() == 0
            &&& sent_outcome(p, Seq::empty()) == Ok::<(), SimulateError>(())
        }),
{
}

/// A finished dispatch has released its connection exactly once if it opened
/// one, and never otherwise.
pub proof fn lemma_released_once(d: Dispatch)
    requires
        d.wf(),
        d.phase is Done,
    ensures
        d.acquired ==> d.releases == 1,
        !d.acquired ==> d.releases == 0,
{
}

} // verus!
