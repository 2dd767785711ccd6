//! The mouse actuator: pointer movement, clicks, press-and-hold and
//! interpolated drag gestures, as injection events appended to a plan.
//! Unrecognized buttons degrade to the primary button through the mapper.

use vstd::prelude::*;
use vstd::arithmetic::div_mod::{lemma_div_by_multiple, lemma_div_is_ordered, lemma_div_pos_is_pos};
use crate::enums::MouseButton;
use crate::events::{EventV, InjectionEvent, PressDirection, ScrollAxis};
use crate::keyboard::push_event;
use crate::keymap::{spec_map_button, KeyMapper};

verus! {

/// The fixed number of interpolation steps of a drag gesture.
pub const DRAG_STEPS: u64 = 20;

/// The pointer position after `step` of the `DRAG_STEPS` interpolation steps
/// from `start` toward `end`, along one axis: `start` plus the linearly
/// scaled share of the signed distance, each share computed directly from
/// the endpoints (not accumulated by addition), with the division truncating
/// toward `start`. At `step == DRAG_STEPS` the position is exactly `end`.
pub open spec fn lerp_coord(start: int, end: int, step: int) -> int {
    if end >= start {
        start + (end - start) * step / (DRAG_STEPS as int)
    } else {
        start - (start - end) * step / (DRAG_STEPS as int)
    }
}

/// The plan segment for one click of a physical button at a position: a move
/// followed by a press-release cycle.
pub open spec fn click_events(button: MouseButton, x: int, y: int) -> Seq<EventV> {
    seq![
        EventV::PointerMove { x, y },
        EventV::Button { button: spec_map_button(button), direction: PressDirection::Press },
        EventV::Button { button: spec_map_button(button), direction: PressDirection::Release },
    ]
}

/// The plan segment for a double click: a move followed by two press-release
/// cycles, with no enforced delay between the clicks.
pub open spec fn double_click_events(button: MouseButton, x: int, y: int) -> Seq<EventV> {
    seq![
        EventV::PointerMove { x, y },
        EventV::Button { button: spec_map_button(button), direction: PressDirection::Press },
        EventV::Button { button: spec_map_button(button), direction: PressDirection::Release },
        EventV::Button { button: spec_map_button(button), direction: PressDirection::Press },
        EventV::Button { button: spec_map_button(button), direction: PressDirection::Release },
    ]
}

/// The plan segment for a scroll: one injection per axis. `delta_x` drives
/// the horizontal axis and `delta_y` the vertical axis, the pairing the
/// description strings also report.
pub open spec fn scroll_events(delta_x: int, delta_y: int) -> Seq<EventV> {
    seq![
        EventV::Scroll { axis: ScrollAxis::Horizontal, delta: delta_x },
        EventV::Scroll { axis: ScrollAxis::Vertical, delta: delta_y },
    ]
}

/// The plan segment for a long press: move, press, a suspension of
/// `duration_ms`, then release.
pub open spec fn press_events(button: MouseButton, x: int, y: int, duration_ms: int) -> Seq<
    EventV,
> {
    seq![
        EventV::PointerMove { x, y },
        EventV::Button { button: spec_map_button(button), direction: PressDirection::Press },
        EventV::Sleep { milliseconds: duration_ms },
        EventV::Button { button: spec_map_button(button), direction: PressDirection::Release },
    ]
}

/// The first `n` interpolation steps of a drag: for each step, a move to the
/// interpolated position followed by a suspension of `step_ms`.
pub open spec fn drag_step_events(
    start_x: int,
    start_y: int,
    end_x: int,
    end_y: int,
    step_ms: int,
    n: int,
) -> Seq<EventV>
    decreases n,
{
    if n <= 0 {
        seq![]
    } else {
        drag_step_events(start_x, start_y, end_x, end_y, step_ms, n - 1) + seq![
            EventV::PointerMove {
                x: lerp_coord(start_x, end_x, n),
                y: lerp_coord(start_y, end_y, n),
            },
            EventV::Sleep { milliseconds: step_ms },
        ]
    }
}

/// The whole plan segment of a drag gesture: a move to the start, a press,
/// the `DRAG_STEPS` interpolation steps each sleeping `duration_ms`
/// divided by the step count, and a release only at the very end.
pub open spec fn drag_events(
    button: MouseButton,
    start_x: int,
    start_y: int,
    end_x: int,
    end_y: int,
    duration_ms: int,
) -> Seq<EventV> {
    seq![
        EventV::PointerMove { x: start_x, y: start_y },
        EventV::Button { button: spec_map_button(button), direction: PressDirection::Press },
    ] + drag_step_events(
        start_x,
        start_y,
        end_x,
        end_y,
        duration_ms / (DRAG_STEPS as int),
        DRAG_STEPS as int,
    ) + seq![
        EventV::Button { button: spec_map_button(button), direction: PressDirection::Release },
    ]
}

/// Sequences mouse gestures into a plan of injection events.
#[derive(Clone)]
pub struct MouseSimulator;

impl MouseSimulator {
    pub fn new() -> (simulator: MouseSimulator) {
        MouseSimulator
    }

    /// Appends an absolute pointer repositioning.
    pub fn move_to(&self, events: &mut Vec<InjectionEvent>, x: i32, y: i32)
        ensures
            final(events).deep_view() == old(events).deep_view() + seq![
                EventV::PointerMove { x: x as int, y: y as int },
            ],
    {
        push_event(events, InjectionEvent::PointerMove { x, y });
    }

    /// Appends a single click: a move to the position, then one
    /// press-release cycle of the mapped button.
    pub fn click(&self, events: &mut Vec<InjectionEvent>, button: MouseButton, x: i32, y: i32)
        ensures
            final(events).deep_view() == old(events).deep_view() + click_events(
                button,
                x as int,
                y as int,
            ),
    {
        self.move_to(events, x, y);
        self.button_down(events, button);
        self.button_up(events, button);
        proof {
            assert(events.deep_view() =~= old(events).deep_view() + click_events(
                button,
                x as int,
                y as int,
            ));
        }
    }

    /// Appends a double click: a move, then two press-release cycles with no
    /// enforced delay between the clicks.
    pub fn double_click(
        &self,
        events: &mut Vec<InjectionEvent>,
        button: MouseButton,
        x: i32,
        y: i32,
    )
        ensures
            final(events).deep_view() == old(events).deep_view() + double_click_events(
                button,
                x as int,
                y as int,
            ),
    {
        self.move_to(events, x, y);
        self.button_down(events, button);
        self.button_up(events, button);
        self.button_down(events, button);
        self.button_up(events, button);
        proof {
            assert(events.deep_view() =~= old(events).deep_view() + double_click_events(
                button,
                x as int,
                y as int,
            ));
        }
    }

    /// Appends a raw press of the mapped button, without movement.
    pub fn button_down(&self, events: &mut Vec<InjectionEvent>, button: MouseButton)
        ensures
            final(events).deep_view() == old(events).deep_view() + seq![
                EventV::Button {
                    button: spec_map_button(button),
                    direction: PressDirection::Press,
                },
            ],
    {
        let mapper = KeyMapper::new();
        let code = mapper.map_button(button);
        push_event(events, InjectionEvent::Button { button: code, direction: PressDirection::Press });
    }

    /// Appends a raw release of the mapped button, without movement.
    pub fn button_up(&self, events: &mut Vec<InjectionEvent>, button: MouseButton)
        ensures
            final(events).deep_view() == old(events).deep_view() + seq![
                EventV::Button {
                    button: spec_map_button(button),
                    direction: PressDirection::Release,
                },
            ],
    {
        let mapper = KeyMapper::new();
        let code = mapper.map_button(button);
        push_event(
            events,
            InjectionEvent::Button { button: code, direction: PressDirection::Release },
        );
    }

    /// Appends the two scroll injections, one per axis: `delta_x` along the
    /// horizontal axis and `delta_y` along the vertical axis.
    pub fn scroll(&self, events: &mut Vec<InjectionEvent>, delta_x: i32, delta_y: i32)
        ensures
            final(events).deep_view() == old(events).deep_view() + scroll_events(
                delta_x as int,
                delta_y as int,
            ),
    {
        push_event(
            events,
            InjectionEvent::Scroll { axis: ScrollAxis::Horizontal, delta: delta_x },
        );
        push_event(
            events,
            InjectionEvent::Scroll { axis: ScrollAxis::Vertical, delta: delta_y },
        );
        proof {
            assert(events.deep_view() =~= old(events).deep_view() + scroll_events(
                delta_x as int,
                delta_y as int,
            ));
        }
    }

    /// Appends a long press: a move, a press, a suspension of `duration_ms`,
    /// then the release.
    pub fn press(
        &self,
        events: &mut Vec<InjectionEvent>,
        button: MouseButton,
        x: i32,
        y: i32,
        duration_ms: u64,
    )
        ensures
            final(events).deep_view() == old(events).deep_view() + press_events(
                button,
                x as int,
                y as int,
                duration_ms as int,
            ),
    {
        self.move_to(events, x, y);
        self.button_down(events, button);
        push_event(events, InjectionEvent::Sleep { milliseconds: duration_ms });
        self.button_up(events, button);
        proof {
            assert(events.deep_view() =~= old(events).deep_view() + press_events(
                button,
                x as int,
                y as int,
                duration_ms as int,
            ));
        }
    }

    /// Appends a drag gesture: a move to the start, a press held for the
    /// whole gesture, `DRAG_STEPS` interpolated moves each followed by an
    /// equal share of `duration_ms`, and the release at the end. Every
    /// intermediate position is computed directly from the endpoints, so no
    /// rounding error accumulates and the final step lands exactly on the
    /// end position.
    pub fn drag(
        &self,
        events: &mut Vec<InjectionEvent>,
        button: MouseButton,
        start_x: i32,
        start_y: i32,
        end_x: i32,
        end_y: i32,
        duration_ms: u64,
    )
        ensures
            final(events).deep_view() == old(events).deep_view() + drag_events(
                button,
                start_x as int,
                start_y as int,
                end_x as int,
                end_y as int,
                duration_ms as int,
            ),
    {
        self.move_to(events, start_x, start_y);
        self.button_down(events, button);
        let ghost base = events.deep_view();

        let step_duration: u64 = duration_ms / DRAG_STEPS;
        let mut step: u64 = 1;
        while step <= DRAG_STEPS
            invariant
                1 <= step <= DRAG_STEPS + 1,
                events.deep_view() == base + drag_step_events(
                    start_x as int,
                    start_y as int,
                    end_x as int,
                    end_y as int,
                    step_duration as int,
                    step - 1,
                ),
            decreases DRAG_STEPS + 1 - step,
        {
            let x = lerp_step(start_x, end_x, step);
            let y = lerp_step(start_y, end_y, step);
            self.move_to(events, x, y);
            push_event(events, InjectionEvent::Sleep { milliseconds: step_duration });
            proof {
                assert(events.deep_view() =~= base + drag_step_events(
                    start_x as int,
                    start_y as int,
                    end_x as int,
                    end_y as int,
                    step_duration as int,
                    step as int,
                ));
            }
            step = step + 1;
        }

        self.button_up(events, button);
        proof {
            assert(events.deep_view() =~= old(events).deep_view() + drag_events(
                button,
                start_x as int,
                start_y as int,
                end_x as int,
                end_y as int,
                duration_ms as int,
            ));
        }
    }
}

/// Computes one interpolated drag coordinate. The scaled offset never
/// exceeds the distance between the endpoints, so the result stays between
/// them.
fn lerp_step(start: i32, end: i32, step: u64) -> (coord: i32)
    requires
        1 <= step <= DRAG_STEPS,
    ensures
        coord as int == lerp_coord(start as int, end as int, step as int),
{
    let s: i64 = start as i64;
    let e: i64 = end as i64;
    let magnitude: u64 = if e >= s {
        (e - s) as u64
    } else {
        (s - e) as u64
    };
    proof {
        assert(magnitude <= 0xffff_ffffu64);
        assert(magnitude * step <= 0xffff_ffffu64 * 20) by (nonlinear_arith)
            requires
                magnitude <= 0xffff_ffffu64,
                step <= 20,
        ;
        assert(magnitude * step <= magnitude * 20) by (nonlinear_arith)
            requires
                step <= 20,
        ;
        lemma_div_is_ordered(
            magnitude as int * step as int,
            magnitude as int * 20,
            20,
        );
        lemma_div_by_multiple(magnitude as int, 20);
        lemma_div_pos_is_pos(magnitude as int * step as int, 20);
    }
    let offset: u64 = magnitude * step / DRAG_STEPS;
    if e >= s {
        (s + offset as i64) as i32
    } else {
        (s - offset as i64) as i32
    }
}

/// What a drag plan holds, event by event: the initial move to the start and
/// the press, then for each step `k` a move to the interpolated position and
/// an equal share of the duration, and last the release. In particular there
/// are exactly `DRAG_STEPS` interpolated moves beside the initial one, and
/// the final interpolated move lands exactly on the end position.
pub proof fn lemma_drag_plan_shape(
    button: MouseButton,
    start_x: int,
    start_y: int,
    end_x: int,
    end_y: int,
    duration_ms: int,
)
    ensures
        drag_events(button, start_x, start_y, end_x, end_y, duration_ms).len() == 3 + 2 * (
        DRAG_STEPS as int),
        drag_events(button, start_x, start_y, end_x, end_y, duration_ms)[0] == (
        EventV::PointerMove { x: start_x, y: start_y }),
        drag_events(button, start_x, start_y, end_x, end_y, duration_ms)[1] == (EventV::Button {
            button: spec_map_button(button),
            direction: PressDirection::Press,
        }),
        (forall|k: int|
            1 <= k <= DRAG_STEPS ==> drag_events(
                button,
                start_x,
                start_y,
                end_x,
                end_y,
                duration_ms,
            )[2 * k] == (EventV::PointerMove {
                x: lerp_coord(start_x, end_x, k),
                y: lerp_coord(start_y, end_y, k),
            })),
        (forall|k: int|
            1 <= k <= DRAG_STEPS ==> #[trigger] drag_events(
                button,
                start_x,
                start_y,
                end_x,
                end_y,
                duration_ms,
            )[2 * k + 1] == (EventV::Sleep {
                milliseconds: duration_ms / (DRAG_STEPS as int),
            })),
        drag_events(button, start_x, start_y, end_x, end_y, duration_ms)[2 * (DRAG_STEPS as int)]
            == (EventV::PointerMove { x: end_x, y: end_y }),
        drag_events(button, start_x, start_y, end_x, end_y, duration_ms).last() == (EventV::Button {
            button: spec_map_button(button),
            direction: PressDirection::Release,
        }),
{
    let step_ms = duration_ms / (DRAG_STEPS as int);
    lemma_drag_step_events_shape(start_x, start_y, end_x, end_y, step_ms, DRAG_STEPS as int);
    lemma_lerp_coord_reaches_end(start_x, end_x);
    lemma_lerp_coord_reaches_end(start_y, end_y);
    assert forall|k: int|
        1 <= k <= DRAG_STEPS implies #[trigger] drag_events(
        button,
        start_x,
        start_y,
        end_x,
        end_y,
        duration_ms,
    )[2 * k + 1] == (EventV::Sleep { milliseconds: step_ms }) by {
        assert(drag_step_events(start_x, start_y, end_x, end_y, step_ms, DRAG_STEPS as int)[2 * (k
            - 1) + 1] == (EventV::Sleep { milliseconds: step_ms }));
    }
}

/// The final interpolation step lands exactly on the end coordinate.
pub proof fn lemma_lerp_coord_reaches_end(start: int, end: int)
    ensures
        lerp_coord(start, end, DRAG_STEPS as int) == end,
{
    if end >= start {
        lemma_div_by_multiple(end - start, DRAG_STEPS as int);
    } else {
        lemma_div_by_multiple(start - end, DRAG_STEPS as int);
    }
}

/// The step segment of a drag plan holds, for each step `k` up to `n`, a
/// move to the `k`-th interpolated position at index `2 * (k - 1)` and a
/// suspension of `step_ms` right after it.
proof fn lemma_drag_step_events_shape(
    start_x: int,
    start_y: int,
    end_x: int,
    end_y: int,
    step_ms: int,
    n: int,
)
    requires
        n >= 0,
    ensures
        drag_step_events(start_x, start_y, end_x, end_y, step_ms, n).len() == 2 * n,
        (forall|k: int|
            1 <= k <= n ==> drag_step_events(start_x, start_y, end_x, end_y, step_ms, n)[2 * (k
                - 1)] == (EventV::PointerMove {
                x: lerp_coord(start_x, end_x, k),
                y: lerp_coord(start_y, end_y, k),
            })),
        (forall|k: int|
            1 <= k <= n ==> #[trigger] drag_step_events(start_x, start_y, end_x, end_y, step_ms, n)[2
                * (k - 1) + 1] == (EventV::Sleep { milliseconds: step_ms })),
    decreases n,
{
    if n > 0 {
        lemma_drag_step_events_shape(start_x, start_y, end_x, end_y, step_ms, n - 1);
    }
}

} // verus!
