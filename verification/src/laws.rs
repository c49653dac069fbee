//! The stated properties of the mapper's hysteresis behaviour, proved over
//! the transition relation of [`crate::mapper`]: at most one action is held
//! per axis, repeated directions do not re-fire, deadzone re-entry releases
//! exactly the held action, and every synthesized press is balanced by a
//! release once the axes return to neutral.

use vstd::prelude::*;

use crate::mapper::{
    axis_of_stick, axis_resolved, mouse_in_deadzone, msg_down, msg_up, slot_after, slot_emits,
    step_emits, step_state, stick_in_deadzone, Axis, Mapper,
};
use crate::message::{Action, ControllerMessage, GamepadStick, MapperMessage, MilliVec};

verus! {

/// The number of `down = true` messages in a stream.
pub open spec fn count_down(s: Seq<MapperMessage>) -> int
    decreases s.len(),
{
    if s.len() == 0 {
        0
    } else {
        count_down(s.drop_last()) + match s.last() {
            MapperMessage::Action { down, .. } => if down {
                1int
            } else {
                0int
            },
        }
    }
}

/// The number of `down = false` messages in a stream.
pub open spec fn count_up(s: Seq<MapperMessage>) -> int
    decreases s.len(),
{
    if s.len() == 0 {
        0
    } else {
        count_up(s.drop_last()) + match s.last() {
            MapperMessage::Action { down, .. } => if down {
                0int
            } else {
                1int
            },
        }
    }
}

/// The number of `down = true` messages for one particular action.
pub open spec fn count_down_for(s: Seq<MapperMessage>, a: Action) -> int
    decreases s.len(),
{
    if s.len() == 0 {
        0
    } else {
        count_down_for(s.drop_last(), a) + match s.last() {
            MapperMessage::Action { action, down } => if down && action == a {
                1int
            } else {
                0int
            },
        }
    }
}

/// The number of `down = false` messages for one particular action.
pub open spec fn count_up_for(s: Seq<MapperMessage>, a: Action) -> int
    decreases s.len(),
{
    if s.len() == 0 {
        0
    } else {
        count_up_for(s.drop_last(), a) + match s.last() {
            MapperMessage::Action { action, down } => if !down && action == a {
                1int
            } else {
                0int
            },
        }
    }
}

/// The mapper's state after a whole sequence of controller events.
pub open spec fn mapper_after(m: Mapper, msgs: Seq<ControllerMessage>) -> Mapper
    decreases msgs.len(),
{
    if msgs.len() == 0 {
        m
    } else {
        step_state(mapper_after(m, msgs.drop_last()), msgs.last())
    }
}

/// Everything the mapper emits over a whole sequence of controller events,
/// in order.
pub open spec fn emits_after(m: Mapper, msgs: Seq<ControllerMessage>) -> Seq<MapperMessage>
    decreases msgs.len(),
{
    if msgs.len() == 0 {
        Seq::empty()
    } else {
        emits_after(m, msgs.drop_last()) + step_emits(
            mapper_after(m, msgs.drop_last()),
            msgs.last(),
        )
    }
}

/// A stick sample event.
pub open spec fn stick_msg(stick: GamepadStick, v: MilliVec) -> ControllerMessage {
    ControllerMessage::GamepadStick { stick, value: v }
}

/// Whether an event is a sample of one particular stick.
pub open spec fn is_stick_event_for(msg: ControllerMessage, stick: GamepadStick) -> bool {
    match msg {
        ControllerMessage::GamepadStick { stick: s, .. } => s == stick,
        _ => false,
    }
}

/// Whether an event is an analog axis sample: a stick sample or a mouse
/// motion.
pub open spec fn is_axis_event(msg: ControllerMessage) -> bool {
    match msg {
        ControllerMessage::GamepadStick { .. } => true,
        ControllerMessage::MouseMove { .. } => true,
        _ => false,
    }
}

/// 1 if an action is held, else 0.
pub open spec fn held_indicator(h: Option<Action>) -> int {
    if h is Some {
        1
    } else {
        0
    }
}

/// 1 if the particular action `a` is held, else 0.
pub open spec fn held_indicator_for(h: Option<Action>, a: Action) -> int {
    if h == Some(a) {
        1
    } else {
        0
    }
}

/// On how many axes the particular action `a` is currently held.
pub open spec fn held_count_for(m: Mapper, a: Action) -> int {
    held_indicator_for(m.left_stick_held, a) + held_indicator_for(m.right_stick_held, a)
        + held_indicator_for(m.mouse_look_held, a)
}

/// The weight a message adds to `count_down`.
pub open spec fn down_weight(x: MapperMessage) -> int {
    match x {
        MapperMessage::Action { down, .. } => if down {
            1int
        } else {
            0int
        },
    }
}

/// The weight a message adds to `count_down_for`.
pub open spec fn down_weight_for(x: MapperMessage, a: Action) -> int {
    match x {
        MapperMessage::Action { action, down } => if down && action == a {
            1int
        } else {
            0int
        },
    }
}

/// The weight a message adds to `count_up_for`.
pub open spec fn up_weight_for(x: MapperMessage, a: Action) -> int {
    match x {
        MapperMessage::Action { action, down } => if !down && action == a {
            1int
        } else {
            0int
        },
    }
}

proof fn lemma_counts_singleton(x: MapperMessage, a: Action)
    ensures
        count_down(seq![x]) == down_weight(x),
        count_up(seq![x]) == 1 - down_weight(x),
        count_down_for(seq![x], a) == down_weight_for(x, a),
        count_up_for(seq![x], a) == up_weight_for(x, a),
{
    let e = Seq::<MapperMessage>::empty();
    assert(count_down(e) == 0 && count_up(e) == 0 && count_down_for(e, a) == 0 && count_up_for(
        e,
        a,
    ) == 0);
    assert(seq![x].drop_last() =~= e);
    assert(seq![x].last() == x);
}

proof fn lemma_counts_pair(x: MapperMessage, y: MapperMessage, a: Action)
    ensures
        count_down(seq![x, y]) == down_weight(x) + down_weight(y),
        count_up(seq![x, y]) == 2 - down_weight(x) - down_weight(y),
        count_down_for(seq![x, y], a) == down_weight_for(x, a) + down_weight_for(y, a),
        count_up_for(seq![x, y], a) == up_weight_for(x, a) + up_weight_for(y, a),
{
    assert(seq![x, y].drop_last() =~= seq![x]);
    lemma_counts_singleton(x, a);
}

proof fn lemma_count_down_concat(s1: Seq<MapperMessage>, s2: Seq<MapperMessage>)
    ensures
        count_down(s1 + s2) == count_down(s1) + count_down(s2),
    decreases s2.len(),
{
    if s2.len() == 0 {
        assert(s1 + s2 =~= s1);
    } else {
        lemma_count_down_concat(s1, s2.drop_last());
        assert((s1 + s2).drop_last() =~= s1 + s2.drop_last());
    }
}

proof fn lemma_count_up_concat(s1: Seq<MapperMessage>, s2: Seq<MapperMessage>)
    ensures
        count_up(s1 + s2) == count_up(s1) + count_up(s2),
    decreases s2.len(),
{
    if s2.len() == 0 {
        assert(s1 + s2 =~= s1);
    } else {
        lemma_count_up_concat(s1, s2.drop_last());
        assert((s1 + s2).drop_last() =~= s1 + s2.drop_last());
    }
}

proof fn lemma_count_down_for_concat(s1: Seq<MapperMessage>, s2: Seq<MapperMessage>, a: Action)
    ensures
        count_down_for(s1 + s2, a) == count_down_for(s1, a) + count_down_for(s2, a),
    decreases s2.len(),
{
    if s2.len() == 0 {
        assert(s1 + s2 =~= s1);
    } else {
        lemma_count_down_for_concat(s1, s2.drop_last(), a);
        assert((s1 + s2).drop_last() =~= s1 + s2.drop_last());
    }
}

proof fn lemma_count_up_for_concat(s1: Seq<MapperMessage>, s2: Seq<MapperMessage>, a: Action)
    ensures
        count_up_for(s1 + s2, a) == count_up_for(s1, a) + count_up_for(s2, a),
    decreases s2.len(),
{
    if s2.len() == 0 {
        assert(s1 + s2 =~= s1);
    } else {
        lemma_count_up_for_concat(s1, s2.drop_last(), a);
        assert((s1 + s2).drop_last() =~= s1 + s2.drop_last());
    }
}

/// One axis sample changes the balance of presses over releases by exactly
/// the change of the slot's held indicator — in total, and per action `a`.
proof fn lemma_slot_counts(
    held: Option<Action>,
    dead: bool,
    resolved: Option<Action>,
    a: Action,
)
    ensures
        ({
            let e = slot_emits(held, dead, resolved);
            count_down(e) - count_up(e) == held_indicator(slot_after(held, dead, resolved))
                - held_indicator(held) && count_down_for(e, a) - count_up_for(e, a)
                == held_indicator_for(slot_after(held, dead, resolved), a) - held_indicator_for(
                held,
                a,
            )
        }),
{
    if dead {
        match held {
            Some(b) => lemma_counts_singleton(msg_up(b), a),
            None => {},
        }
    } else {
        match resolved {
            None => {},
            Some(r) => {
                if held == Some(r) {
                } else {
                    match held {
                        Some(b) => lemma_counts_pair(msg_up(b), msg_down(r), a),
                        None => lemma_counts_singleton(msg_down(r), a),
                    }
                }
            },
        }
    }
}

/// One sample of a stick changes the balance of presses over releases by
/// exactly the change of that stick's held indicator, and leaves every other
/// slot and the mouse buttons alone.
proof fn lemma_step_counts_stick(m: Mapper, stick: GamepadStick, v: MilliVec)
    ensures
        ({
            let msg = stick_msg(stick, v);
            let axis = axis_of_stick(stick);
            let after = step_state(m, msg);
            count_down(step_emits(m, msg)) - count_up(step_emits(m, msg)) == held_indicator(
                after.held_for(axis),
            ) - held_indicator(m.held_for(axis)) && (forall|other: Axis|
                other != axis ==> after.held_for(other) == m.held_for(other))
                && after.any_button_down() == m.any_button_down()
        }),
{
    let axis = axis_of_stick(stick);
    lemma_slot_counts(
        m.held_for(axis),
        stick_in_deadzone(v.x as int, v.y as int),
        axis_resolved(axis, v.x as int, v.y as int),
        Action::Fire,
    );
}

/// One axis sample (stick or mouse motion), taken while no mouse button is
/// held, changes the per-action balance of presses over releases by exactly
/// the change of the number of axes holding that action, and leaves the
/// mouse buttons untouched.
proof fn lemma_step_counts_for(m: Mapper, msg: ControllerMessage, a: Action)
    requires
        is_axis_event(msg),
        !m.any_button_down(),
    ensures
        count_down_for(step_emits(m, msg), a) - count_up_for(step_emits(m, msg), a)
            == held_count_for(step_state(m, msg), a) - held_count_for(m, a),
        !step_state(m, msg).any_button_down(),
{
    match msg {
        ControllerMessage::GamepadStick { stick, value } => {
            let axis = axis_of_stick(stick);
            lemma_slot_counts(
                m.held_for(axis),
                stick_in_deadzone(value.x as int, value.y as int),
                axis_resolved(axis, value.x as int, value.y as int),
                a,
            );
        },
        ControllerMessage::MouseMove { delta, pointer_locked } => {
            if pointer_locked {
                lemma_slot_counts(
                    m.mouse_look_held,
                    mouse_in_deadzone(delta.x as int),
                    axis_resolved(Axis::MouseLook, delta.x as int, delta.y as int),
                    a,
                );
            } else {
                match m.mouse_look_held {
                    Some(h) => lemma_counts_singleton(msg_up(h), a),
                    None => {},
                }
            }
        },
        _ => {},
    }
}

/// Hysteresis single-holder: over any sequence of samples of one stick,
/// starting with nothing held for that stick, the number of emitted presses
/// minus the number of emitted releases equals 1 exactly while an action is
/// held for that stick and 0 otherwise — so the balance is never outside
/// {0, 1}, and (the slot being a single `Option`) at most one action is
/// recorded as held at any time. Every prefix of a sample sequence is itself
/// such a sequence, so this holds at every point in time.
pub proof fn lemma_hysteresis_single_holder(
    m: Mapper,
    stick: GamepadStick,
    msgs: Seq<ControllerMessage>,
)
    requires
        m.held_for(axis_of_stick(stick)) is None,
        forall|k: int| 0 <= k < msgs.len() ==> is_stick_event_for(#[trigger] msgs[k], stick),
    ensures
        count_down(emits_after(m, msgs)) - count_up(emits_after(m, msgs)) == held_indicator(
            mapper_after(m, msgs).held_for(axis_of_stick(stick)),
        ),
        0 <= count_down(emits_after(m, msgs)) - count_up(emits_after(m, msgs)) <= 1,
    decreases msgs.len(),
{
    if msgs.len() > 0 {
        let prefix = msgs.drop_last();
        assert(forall|k: int|
            0 <= k < prefix.len() ==> is_stick_event_for(#[trigger] prefix[k], stick)) by {
            assert(forall|k: int| 0 <= k < prefix.len() ==> prefix[k] == msgs[k]);
        }
        lemma_hysteresis_single_holder(m, stick, prefix);
        let mid = mapper_after(m, prefix);
        match msgs.last() {
            ControllerMessage::GamepadStick { stick: s, value } => {
                lemma_step_counts_stick(mid, s, value);
            },
            _ => {},
        }
        lemma_count_down_concat(emits_after(m, prefix), step_emits(mid, msgs.last()));
        lemma_count_up_concat(emits_after(m, prefix), step_emits(mid, msgs.last()));
    }
}

/// The single-holder balance at every point in time: after any initial part
/// of a sample sequence of one stick, the number of emitted presses exceeds
/// the number of emitted releases by 0 or 1.
pub proof fn lemma_single_holder_every_prefix(
    m: Mapper,
    stick: GamepadStick,
    msgs: Seq<ControllerMessage>,
    n: int,
)
    requires
        m.held_for(axis_of_stick(stick)) is None,
        forall|k: int| 0 <= k < msgs.len() ==> is_stick_event_for(#[trigger] msgs[k], stick),
        0 <= n <= msgs.len(),
    ensures
        0 <= count_down(emits_after(m, msgs.take(n))) - count_up(emits_after(m, msgs.take(n)))
            <= 1,
{
    let prefix = msgs.take(n);
    assert(forall|k: int| 0 <= k < prefix.len() ==> is_stick_event_for(#[trigger] prefix[k], stick))
        by {
        assert(forall|k: int| 0 <= k < prefix.len() ==> prefix[k] == msgs[k]);
    }
    lemma_hysteresis_single_holder(m, stick, prefix);
}

/// Idempotent direction: two consecutive samples of one stick that resolve
/// to the same action emit exactly one press when that action was not
/// already held, and none when it was — never two. The second sample emits
/// nothing at all.
pub proof fn lemma_idempotent_direction(
    m: Mapper,
    stick: GamepadStick,
    v1: MilliVec,
    v2: MilliVec,
)
    requires
        !stick_in_deadzone(v1.x as int, v1.y as int),
        !stick_in_deadzone(v2.x as int, v2.y as int),
        axis_resolved(axis_of_stick(stick), v1.x as int, v1.y as int) is Some,
        axis_resolved(axis_of_stick(stick), v2.x as int, v2.y as int) == axis_resolved(
            axis_of_stick(stick),
            v1.x as int,
            v1.y as int,
        ),
    ensures
        step_emits(step_state(m, stick_msg(stick, v1)), stick_msg(stick, v2)) == Seq::<
            MapperMessage,
        >::empty(),
        count_down(
            emits_after(m, seq![stick_msg(stick, v1), stick_msg(stick, v2)]),
        ) == if m.held_for(axis_of_stick(stick)) == axis_resolved(
            axis_of_stick(stick),
            v1.x as int,
            v1.y as int,
        ) {
            0int
        } else {
            1int
        },
{
    let axis = axis_of_stick(stick);
    let e1 = stick_msg(stick, v1);
    let e2 = stick_msg(stick, v2);
    let mid = step_state(m, e1);
    let r = axis_resolved(axis, v1.x as int, v1.y as int);
    assert(mid.held_for(axis) == r);
    assert(step_emits(mid, e2) =~= Seq::<MapperMessage>::empty());
    let msgs = seq![e1, e2];
    assert(msgs.drop_last() =~= seq![e1]);
    assert(seq![e1].drop_last() =~= Seq::<ControllerMessage>::empty());
    assert(mapper_after(m, Seq::<ControllerMessage>::empty()) == m);
    assert(emits_after(m, Seq::<ControllerMessage>::empty()) == Seq::<MapperMessage>::empty());
    assert(mapper_after(m, seq![e1]) == mid);
    assert(emits_after(m, seq![e1]) =~= step_emits(m, e1));
    assert(emits_after(m, msgs) == emits_after(m, seq![e1]) + step_emits(mid, e2));
    lemma_count_down_concat(step_emits(m, e1), step_emits(mid, e2));
    assert(count_down(Seq::<MapperMessage>::empty()) == 0);
    assert(count_down(emits_after(m, msgs)) == count_down(step_emits(m, e1)));
    let ra = (match r {
        Some(x) => x,
        None => Action::Fire,
    });
    lemma_slot_counts(
        m.held_for(axis),
        stick_in_deadzone(v1.x as int, v1.y as int),
        r,
        ra,
    );
    let s1 = step_emits(m, e1);
    if m.held_for(axis) == r {
        assert(s1 =~= Seq::<MapperMessage>::empty());
    } else {
        match m.held_for(axis) {
            Some(b) => lemma_counts_pair(msg_up(b), msg_down(ra), ra),
            None => lemma_counts_singleton(msg_down(ra), ra),
        }
    }
}

/// Deadzone release: a stick sample inside the deadzone while an action is
/// held emits exactly one release, for that action and no other, and clears
/// the slot.
pub proof fn lemma_deadzone_release(m: Mapper, stick: GamepadStick, v: MilliVec, a: Action)
    requires
        stick_in_deadzone(v.x as int, v.y as int),
        m.held_for(axis_of_stick(stick)) == Some(a),
    ensures
        step_emits(m, stick_msg(stick, v)) == seq![msg_up(a)],
        step_state(m, stick_msg(stick, v)).held_for(axis_of_stick(stick)) is None,
{
}

/// Emission balance: over any sequence of axis samples taken while no mouse
/// button is held, the per-action balance of presses over releases equals
/// the change in the number of axes holding that action.
pub proof fn lemma_emit_balance(m: Mapper, msgs: Seq<ControllerMessage>, a: Action)
    requires
        !m.any_button_down(),
        forall|k: int| 0 <= k < msgs.len() ==> is_axis_event(#[trigger] msgs[k]),
    ensures
        count_down_for(emits_after(m, msgs), a) - count_up_for(emits_after(m, msgs), a)
            == held_count_for(mapper_after(m, msgs), a) - held_count_for(m, a),
        !mapper_after(m, msgs).any_button_down(),
    decreases msgs.len(),
{
    if msgs.len() > 0 {
        let prefix = msgs.drop_last();
        assert(forall|k: int| 0 <= k < prefix.len() ==> is_axis_event(#[trigger] prefix[k])) by {
            assert(forall|k: int| 0 <= k < prefix.len() ==> prefix[k] == msgs[k]);
        }
        lemma_emit_balance(m, prefix, a);
        let mid = mapper_after(m, prefix);
        lemma_step_counts_for(mid, msgs.last(), a);
        lemma_count_down_for_concat(emits_after(m, prefix), step_emits(mid, msgs.last()), a);
        lemma_count_up_for_concat(emits_after(m, prefix), step_emits(mid, msgs.last()), a);
    }
}

/// Conservation: over any finite sequence of axis samples that starts from
/// the neutral state with no mouse button held and ends with every axis
/// released again, each action receives exactly as many presses as
/// releases.
pub proof fn lemma_conservation(m: Mapper, msgs: Seq<ControllerMessage>, a: Action)
    requires
        m.neutral(),
        !m.any_button_down(),
        forall|k: int| 0 <= k < msgs.len() ==> is_axis_event(#[trigger] msgs[k]),
        mapper_after(m, msgs).neutral(),
    ensures
        count_down_for(emits_after(m, msgs), a) == count_up_for(emits_after(m, msgs), a),
{
    lemma_emit_balance(m, msgs, a);
}

} // verus!
