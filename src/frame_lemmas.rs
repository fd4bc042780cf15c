//! What a mouse tick guarantees, stated over the models that the routines' contracts use.
use vstd::prelude::*;

use crate::mouse::{
    axis, axis_delta, buttons_view, frame_marker, frame_source, frame_view, locations_view,
    pair_count, pressed_now, tick_view, wheel_press, wheels_view, MouseMarker, ReceiverMap,
};
use crate::receiver::{InputReceiver, InputSource, MouseAxisType, MouseButton};
use crate::value::{AxisValue, PressState, Vec2};
use crate::view::{default_descriptor, stored_or_default, with_entry, ReceiverDescriptor};

verus! {

proof fn lemma_buttons_keep(m: ReceiverMap, buttons: Seq<(MouseButton, PressState)>, k: InputReceiver)
    requires
        !(k is MouseButton),
    ensures
        buttons_view(m, buttons).contains_key(k) == m.contains_key(k),
        buttons_view(m, buttons)[k] == m[k],
    decreases buttons.len(),
{
    if buttons.len() > 0 {
        lemma_buttons_keep(m, buttons.drop_last(), k);
    }
}

proof fn lemma_wheels_keep(m: ReceiverMap, ys: Seq<AxisValue>, k: InputReceiver)
    requires
        k != axis(MouseAxisType::Wheel),
    ensures
        wheels_view(m, ys).contains_key(k) == m.contains_key(k),
        wheels_view(m, ys)[k] == m[k],
    decreases ys.len(),
{
    if ys.len() > 0 {
        lemma_wheels_keep(m, ys.drop_last(), k);
    }
}

proof fn lemma_locations_keep(
    m: ReceiverMap,
    positions: Seq<Vec2>,
    deltas: Seq<Vec2>,
    n: nat,
    k: InputReceiver,
)
    requires
        k != axis(MouseAxisType::X),
        k != axis(MouseAxisType::Y),
        k != axis_delta(MouseAxisType::X),
        k != axis_delta(MouseAxisType::Y),
    ensures
        locations_view(m, positions, deltas, n).contains_key(k) == m.contains_key(k),
        locations_view(m, positions, deltas, n)[k] == m[k],
    decreases n,
{
    if n > 0 {
        lemma_locations_keep(m, positions, deltas, (n - 1) as nat, k);
    }
}

/// Carries a receiver that neither button transitions nor wheel events write from
/// the map after the pairs to the map after the whole tick.
proof fn lemma_after_pairs(
    m: ReceiverMap,
    positions: Seq<Vec2>,
    deltas: Seq<Vec2>,
    buttons: Seq<(MouseButton, PressState)>,
    ys: Seq<AxisValue>,
    k: InputReceiver,
)
    requires
        !(k is MouseButton),
        k != axis(MouseAxisType::Wheel),
    ensures
        ({
            let l = locations_view(tick_view(m), positions, deltas, pair_count(positions, deltas));
            let r = frame_view(m, positions, deltas, buttons, ys);
            r.contains_key(k) == l.contains_key(k) && r[k] == l[k]
        }),
{
    let l = locations_view(tick_view(m), positions, deltas, pair_count(positions, deltas));
    lemma_buttons_keep(l, buttons, k);
    lemma_wheels_keep(buttons_view(l, buttons), ys, k);
}

/// After a tick, an axis receiver that no event of the tick wrote is released, and
/// each of them but the absolute X axis reads zero; X keeps its last reading. The
/// wheel's delta receiver is written by no event and so is always neutral.
pub proof fn law_neutral_reset(
    m: ReceiverMap,
    positions: Seq<Vec2>,
    deltas: Seq<Vec2>,
    buttons: Seq<(MouseButton, PressState)>,
    ys: Seq<AxisValue>,
)
    ensures
        ({
            let r = frame_view(m, positions, deltas, buttons, ys);
            &&& r.contains_key(axis_delta(MouseAxisType::Wheel))
            &&& r[axis_delta(MouseAxisType::Wheel)] == default_descriptor()
            &&& pair_count(positions, deltas) == 0 ==> {
                &&& r.contains_key(axis(MouseAxisType::X))
                &&& r[axis(MouseAxisType::X)] == (ReceiverDescriptor {
                    press: PressState::Released,
                    value: stored_or_default(m, axis(MouseAxisType::X)).value,
                })
                &&& r.contains_key(axis(MouseAxisType::Y))
                &&& r[axis(MouseAxisType::Y)] == default_descriptor()
                &&& r.contains_key(axis_delta(MouseAxisType::X))
                &&& r[axis_delta(MouseAxisType::X)] == default_descriptor()
                &&& r.contains_key(axis_delta(MouseAxisType::Y))
                &&& r[axis_delta(MouseAxisType::Y)] == default_descriptor()
            }
            &&& ys.len() == 0 ==> {
                &&& r.contains_key(axis(MouseAxisType::Wheel))
                &&& r[axis(MouseAxisType::Wheel)] == default_descriptor()
            }
        }),
{
    let t = tick_view(m);
    let n = pair_count(positions, deltas);
    let dw = axis_delta(MouseAxisType::Wheel);
    lemma_locations_keep(t, positions, deltas, n, dw);
    lemma_after_pairs(m, positions, deltas, buttons, ys, dw);
    lemma_after_pairs(m, positions, deltas, buttons, ys, axis(MouseAxisType::X));
    lemma_after_pairs(m, positions, deltas, buttons, ys, axis(MouseAxisType::Y));
    lemma_after_pairs(m, positions, deltas, buttons, ys, axis_delta(MouseAxisType::X));
    lemma_after_pairs(m, positions, deltas, buttons, ys, axis_delta(MouseAxisType::Y));
    if ys.len() == 0 {
        let w = axis(MouseAxisType::Wheel);
        let l = locations_view(t, positions, deltas, n);
        lemma_locations_keep(t, positions, deltas, n, w);
        lemma_buttons_keep(l, buttons, w);
    }
}

/// The marker holds a delta after a tick exactly when the tick applied at least one
/// position/motion pair.
pub proof fn law_delta_only_after_pair(
    k: MouseMarker,
    positions: Seq<Vec2>,
    deltas: Seq<Vec2>,
    ys: Seq<AxisValue>,
)
    ensures
        frame_marker(k, positions, deltas, ys).mouse_delta is Some <==> pair_count(positions, deltas)
            > 0,
        frame_marker(k, positions, deltas, ys).does_mouse_location_changed_this_tick
            <==> pair_count(positions, deltas) > 0,
{
}

/// A tick applies as many position updates as the shorter of the two streams holds,
/// and the receivers and the marker show the last applied pair, not the last raw
/// sample of the longer stream.
pub proof fn law_pairing(
    m: ReceiverMap,
    k: MouseMarker,
    positions: Seq<Vec2>,
    deltas: Seq<Vec2>,
    buttons: Seq<(MouseButton, PressState)>,
    ys: Seq<AxisValue>,
)
    ensures
        pair_count(positions, deltas) as int == if positions.len() < deltas.len() {
            positions.len() as int
        } else {
            deltas.len() as int
        },
        ({
            let n = pair_count(positions, deltas) as int;
            let r = frame_view(m, positions, deltas, buttons, ys);
            let c = frame_marker(k, positions, deltas, ys);
            n > 0 ==> {
                &&& c.mouse_position == Some(positions[n - 1])
                &&& c.mouse_delta == Some(deltas[n - 1])
                &&& r[axis(MouseAxisType::X)] == (ReceiverDescriptor {
                    press: pressed_now(),
                    value: positions[n - 1].x,
                })
                &&& r[axis(MouseAxisType::Y)] == (ReceiverDescriptor {
                    press: pressed_now(),
                    value: positions[n - 1].y,
                })
                &&& r[axis_delta(MouseAxisType::X)] == (ReceiverDescriptor {
                    press: pressed_now(),
                    value: deltas[n - 1].x,
                })
                &&& r[axis_delta(MouseAxisType::Y)] == (ReceiverDescriptor {
                    press: pressed_now(),
                    value: deltas[n - 1].y,
                })
            }
        }),
{
    lemma_after_pairs(m, positions, deltas, buttons, ys, axis(MouseAxisType::X));
    lemma_after_pairs(m, positions, deltas, buttons, ys, axis(MouseAxisType::Y));
    lemma_after_pairs(m, positions, deltas, buttons, ys, axis_delta(MouseAxisType::X));
    lemma_after_pairs(m, positions, deltas, buttons, ys, axis_delta(MouseAxisType::Y));
}

/// The wheel receiver ends a tick with its last reading, pressed where that reading
/// is greater than zero and released where it is not, whatever its magnitude.
pub proof fn law_wheel_sign(
    m: ReceiverMap,
    positions: Seq<Vec2>,
    deltas: Seq<Vec2>,
    buttons: Seq<(MouseButton, PressState)>,
    ys: Seq<AxisValue>,
)
    requires
        ys.len() > 0,
    ensures
        ({
            let r = frame_view(m, positions, deltas, buttons, ys);
            let y = ys.last();
            &&& r.contains_key(axis(MouseAxisType::Wheel))
            &&& r[axis(MouseAxisType::Wheel)] == (ReceiverDescriptor {
                press: wheel_press(y),
                value: y,
            })
            &&& (r[axis(MouseAxisType::Wheel)].press is Pressed <==> y.spec_is_positive())
        }),
{
}

/// Any mouse event in a tick, a pair, a button transition or a wheel reading, leaves
/// the mouse recorded as the device that wrote last; a tick with none keeps the record.
pub proof fn law_source_attribution(
    s: Option<InputSource>,
    positions: Seq<Vec2>,
    deltas: Seq<Vec2>,
    buttons: Seq<(MouseButton, PressState)>,
    ys: Seq<AxisValue>,
)
    ensures
        pair_count(positions, deltas) > 0 || buttons.len() > 0 || ys.len() > 0
            ==> frame_source(s, positions, deltas, buttons, ys) == Some(InputSource::Mouse),
        pair_count(positions, deltas) == 0 && buttons.len() == 0 && ys.len() == 0
            ==> frame_source(s, positions, deltas, buttons, ys) == s,
{
}

/// A second get-or-insert of the same receiver finds the entry that the first one made:
/// the map does not change again, and the state handed out is the one stored.
pub proof fn law_lookup_idempotent(m: ReceiverMap, r: InputReceiver)
    ensures
        with_entry(m, r).contains_key(r),
        stored_or_default(with_entry(m, r), r) == stored_or_default(m, r),
        with_entry(with_entry(m, r), r) == with_entry(m, r),
{
    assert(with_entry(with_entry(m, r), r) =~= with_entry(m, r));
}

} // verus!
