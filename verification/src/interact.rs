//! The input state machine: hover, press, release, held and double-click,
//! judged against the previous frame's hit boxes.
//!
//! Each frame the machine walks the recorded `(Id, BoundingBox)` list in
//! reverse paint order, so the element painted last (visually on top)
//! captures input first.  A `found_first` flag stops every element below
//! the first one that experienced something, which is what makes a press
//! land on exactly one element.

use vstd::prelude::*;
use crate::bounding_box::{spec_contains, BoundingBox};
use crate::id::Id;
use crate::math::{clamp_px, Vec2};
use crate::response::Response;

verus! {

/// The pointer facts one frame is resolved against.
#[derive(Clone, Copy, Debug, PartialEq, Eq, Structural)]
pub struct MouseInput {
    /// Cursor position in the same Y-up coordinates as the hit boxes.
    pub pos: Vec2,
    /// Whether the left button went down this frame.
    pub pressed_now: bool,
    /// Whether the left button went up this frame.
    pub released_now: bool,
    /// The current time in milliseconds; any monotone clock will do.
    pub now_ms: u64,
}

/// The interaction state that survives from one frame to the next.
pub struct OuiState {
    /// Hit boxes recorded by the previous frame's paint, in paint order.
    pub bounding_boxes: Vec<(Id, BoundingBox)>,
    /// Whether the left button is down.
    pub mouse_pressed: bool,
    /// Where the last press happened.
    pub mouse_pressed_pos: Vec2,
    /// The element the last press landed on.
    pub mouse_pressed_id: Id,
    /// When the button last went up, in milliseconds.
    pub mouse_released_time: u64,
}

/// The per-frame pointer environment after the sticky press state has been
/// updated: what every element is judged against.
pub struct InputEnv {
    pub pos: Vec2,
    pub pressed_now: bool,
    pub released_now: bool,
    pub double_clicked: bool,
    pub mouse_down: bool,
}

/// Milliseconds since `t` at `now`, zero when the clock went backwards.
pub open spec fn spec_elapsed(now: u64, t: u64) -> int {
    if now >= t {
        now - t
    } else {
        0
    }
}

/// Whether this frame's press is the second click of a double click: the
/// button was up, goes down now, within 500 ms of the last release and
/// within 10 px of the last press position.
pub open spec fn spec_double_click(state: OuiState, input: MouseInput) -> bool {
    let dx = clamp_px(state.mouse_pressed_pos.x - input.pos.x);
    let dy = clamp_px(state.mouse_pressed_pos.y - input.pos.y);
    &&& !state.mouse_pressed
    &&& input.pressed_now
    &&& clamp_px(clamp_px(dx * dx) + clamp_px(dy * dy)) < 100
    &&& spec_elapsed(input.now_ms, state.mouse_released_time) < 500
}

/// The environment a resolve call judges elements against.
pub open spec fn spec_env(state: OuiState, input: MouseInput) -> InputEnv {
    InputEnv {
        pos: input.pos,
        pressed_now: input.pressed_now,
        released_now: input.released_now,
        double_clicked: spec_double_click(state, input),
        mouse_down: if input.released_now {
            false
        } else if input.pressed_now {
            true
        } else {
            state.mouse_pressed
        },
    }
}

/// One element's turn at the machine: its response, the pressed id after
/// it, and the `found_first` flag after it.  `pid` and `found` are the
/// values before this element's turn.
pub open spec fn spec_step(env: InputEnv, pid: Id, found: bool, id: Id, bb: BoundingBox) -> (
    Response,
    Id,
    bool,
) {
    let hovered = spec_contains(bb, env.pos);
    let pressed = !found && hovered && env.pressed_now;
    let released = !found && hovered && env.released_now && pid == id;
    let double_clicked = !found && hovered && env.double_clicked;
    let held = !found && hovered && env.mouse_down && pid == id;
    let resp = Response {
        hovered,
        pressed,
        released,
        double_clicked,
        held,
        relative_mouse_pos: Vec2 {
            x: clamp_px(env.pos.x - bb.top_left.x) as i64,
            y: clamp_px(env.pos.y - bb.top_left.y) as i64,
        },
    };
    let pid2 = if pressed {
        id
    } else {
        pid
    };
    let found2 = found || pressed || released || double_clicked || held;
    (resp, pid2, found2)
}

/// The machine run over `rev`, the hit boxes already reversed into
/// top-most-first order: the responses in that order, the final pressed id
/// and the final `found_first` flag.
pub open spec fn spec_run(rev: Seq<(Id, BoundingBox)>, env: InputEnv, pid: Id, found: bool) -> (
    Seq<(Id, Response)>,
    Id,
    bool,
)
    decreases rev.len(),
{
    if rev.len() == 0 {
        (Seq::<(Id, Response)>::empty(), pid, found)
    } else {
        let stepped = spec_step(env, pid, found, rev.first().0, rev.first().1);
        let rest = spec_run(rev.drop_first(), env, stepped.1, stepped.2);
        (seq![(rev.first().0, stepped.0)] + rest.0, rest.1, rest.2)
    }
}

proof fn lemma_run_append(s1: Seq<(Id, BoundingBox)>, s2: Seq<(Id, BoundingBox)>, env: InputEnv, pid: Id, found: bool)
    ensures
        ({
            let whole = spec_run(s1 + s2, env, pid, found);
            let first = spec_run(s1, env, pid, found);
            let second = spec_run(s2, env, first.1, first.2);
            whole.0 == first.0 + second.0 && whole.1 == second.1 && whole.2 == second.2
        }),
    decreases s1.len(),
{
    if s1.len() == 0 {
        assert(s1 + s2 =~= s2);
        assert(spec_run(s1, env, pid, found).0 + spec_run(s2, env, pid, found).0 =~= spec_run(
            s2,
            env,
            pid,
            found,
        ).0);
    } else {
        let both = s1 + s2;
        assert(both.first() == s1.first());
        let stepped = spec_step(env, pid, found, s1.first().0, s1.first().1);
        assert(both.drop_first() =~= s1.drop_first() + s2);
        lemma_run_append(s1.drop_first(), s2, env, stepped.1, stepped.2);
        assert(spec_run(s1 + s2, env, pid, found).0 =~= spec_run(s1, env, pid, found).0 + spec_run(
            s2,
            env,
            spec_run(s1, env, pid, found).1,
            spec_run(s1, env, pid, found).2,
        ).0);
    }
}

/// Whether a response reports any gated action: press, release, double
/// click or hold.
pub open spec fn spec_active(r: Response) -> bool {
    r.pressed || r.released || r.double_clicked || r.held
}

proof fn lemma_run_shape(rev: Seq<(Id, BoundingBox)>, env: InputEnv, pid: Id, found: bool)
    ensures
        spec_run(rev, env, pid, found).0.len() == rev.len(),
        forall|i: int|
            0 <= i < rev.len() ==> (#[trigger] spec_run(rev, env, pid, found).0[i]).0 == rev[i].0,
    decreases rev.len(),
{
    if rev.len() > 0 {
        let stepped = spec_step(env, pid, found, rev.first().0, rev.first().1);
        lemma_run_shape(rev.drop_first(), env, stepped.1, stepped.2);
        let run = spec_run(rev, env, pid, found);
        let rest = spec_run(rev.drop_first(), env, stepped.1, stepped.2);
        assert(run.0 == seq![(rev.first().0, stepped.0)] + rest.0);
        assert forall|i: int| 0 <= i < rev.len() implies (#[trigger] run.0[i]).0 == rev[i].0 by {
            if i > 0 {
                assert(run.0[i] == rest.0[i - 1]);
                assert(rev.drop_first()[i - 1] == rev[i]);
            }
        }
    }
}

proof fn lemma_found_blocks(rev: Seq<(Id, BoundingBox)>, env: InputEnv, pid: Id)
    ensures
        forall|i: int|
            0 <= i < rev.len() ==> !spec_active(
                (#[trigger] spec_run(rev, env, pid, true).0[i]).1,
            ),
    decreases rev.len(),
{
    if rev.len() > 0 {
        let stepped = spec_step(env, pid, true, rev.first().0, rev.first().1);
        assert(stepped.2);
        lemma_found_blocks(rev.drop_first(), env, stepped.1);
        lemma_run_shape(rev.drop_first(), env, stepped.1, true);
        let run = spec_run(rev, env, pid, true);
        let rest = spec_run(rev.drop_first(), env, stepped.1, true);
        assert(run.0 == seq![(rev.first().0, stepped.0)] + rest.0);
        assert forall|i: int| 0 <= i < rev.len() implies !spec_active((#[trigger] run.0[i]).1) by {
            if i == 0 {
                assert(run.0[0] == (rev.first().0, stepped.0));
                assert(!spec_active(stepped.0));
            } else {
                assert(run.0[i] == rest.0[i - 1]);
            }
        }
    }
}

/// Only one element receives a gated action per frame: the `found_first`
/// flag stops everything below the first element that experienced
/// something, so two distinct responses are never both active.
pub proof fn lemma_at_most_one_active(rev: Seq<(Id, BoundingBox)>, env: InputEnv, pid: Id)
    ensures
        forall|i: int, j: int|
            0 <= i < j < rev.len() ==> !(spec_active(
                (#[trigger] spec_run(rev, env, pid, false).0[i]).1,
            ) && spec_active((#[trigger] spec_run(rev, env, pid, false).0[j]).1)),
    decreases rev.len(),
{
    if rev.len() > 0 {
        let stepped = spec_step(env, pid, false, rev.first().0, rev.first().1);
        let run = spec_run(rev, env, pid, false);
        let rest = spec_run(rev.drop_first(), env, stepped.1, stepped.2);
        assert(run.0 == seq![(rev.first().0, stepped.0)] + rest.0);
        lemma_run_shape(rev.drop_first(), env, stepped.1, stepped.2);
        if stepped.2 {
            lemma_found_blocks(rev.drop_first(), env, stepped.1);
        } else {
            lemma_at_most_one_active(rev.drop_first(), env, stepped.1);
            assert(!spec_active(stepped.0));
        }
        assert forall|i: int, j: int| 0 <= i < j < rev.len() implies !(spec_active(
            (#[trigger] run.0[i]).1,
        ) && spec_active((#[trigger] run.0[j]).1)) by {
            assert(run.0[j] == rest.0[j - 1]);
            if i == 0 {
                assert(run.0[0] == (rev.first().0, stepped.0));
            } else {
                assert(run.0[i] == rest.0[i - 1]);
            }
        }
    }
}

/// A gated action implies its enabling conditions: an element that reports
/// pressed, released, double-clicked or held was hovered, and the matching
/// button event happened.
pub proof fn lemma_active_needs_cause(rev: Seq<(Id, BoundingBox)>, env: InputEnv, pid: Id, found: bool)
    ensures
        forall|i: int|
            0 <= i < rev.len() && spec_active(
                (#[trigger] spec_run(rev, env, pid, found).0[i]).1,
            ) ==> spec_contains(rev[i].1, env.pos),
        forall|i: int|
            0 <= i < rev.len() && (#[trigger] spec_run(rev, env, pid, found).0[i]).1.pressed
                ==> env.pressed_now,
        forall|i: int|
            0 <= i < rev.len() && (#[trigger] spec_run(rev, env, pid, found).0[i]).1.released
                ==> env.released_now,
        forall|i: int|
            0 <= i < rev.len() && (#[trigger] spec_run(rev, env, pid, found).0[i]).1.double_clicked
                ==> env.double_clicked,
        forall|i: int|
            0 <= i < rev.len() && (#[trigger] spec_run(rev, env, pid, found).0[i]).1.held
                ==> env.mouse_down,
    decreases rev.len(),
{
    if rev.len() > 0 {
        let stepped = spec_step(env, pid, found, rev.first().0, rev.first().1);
        let run = spec_run(rev, env, pid, found);
        let rest = spec_run(rev.drop_first(), env, stepped.1, stepped.2);
        assert(run.0 == seq![(rev.first().0, stepped.0)] + rest.0);
        lemma_run_shape(rev.drop_first(), env, stepped.1, stepped.2);
        lemma_active_needs_cause(rev.drop_first(), env, stepped.1, stepped.2);
        assert forall|i: int| 1 <= i < rev.len() implies #[trigger] run.0[i] == rest.0[i - 1]
            && rev.drop_first()[i - 1] == rev[i] by {}
        assert(run.0[0] == (rev.first().0, stepped.0));
    }
}

/// Without a press this frame the pressed id never moves, so release and
/// hold can only land on the element the original press landed on: dragging
/// off an element and releasing elsewhere releases nothing.
pub proof fn lemma_release_needs_pressed_id(rev: Seq<(Id, BoundingBox)>, env: InputEnv, pid: Id, found: bool)
    requires
        !env.pressed_now,
    ensures
        forall|i: int|
            0 <= i < rev.len() && (#[trigger] spec_run(rev, env, pid, found).0[i]).1.released
                ==> rev[i].0 == pid,
        forall|i: int|
            0 <= i < rev.len() && (#[trigger] spec_run(rev, env, pid, found).0[i]).1.held
                ==> rev[i].0 == pid,
    decreases rev.len(),
{
    if rev.len() > 0 {
        let stepped = spec_step(env, pid, found, rev.first().0, rev.first().1);
        assert(stepped.1 == pid);
        let run = spec_run(rev, env, pid, found);
        let rest = spec_run(rev.drop_first(), env, pid, stepped.2);
        assert(run.0 == seq![(rev.first().0, stepped.0)] + rest.0);
        lemma_run_shape(rev.drop_first(), env, pid, stepped.2);
        lemma_release_needs_pressed_id(rev.drop_first(), env, pid, stepped.2);
        assert forall|i: int| 1 <= i < rev.len() implies #[trigger] run.0[i] == rest.0[i - 1]
            && rev.drop_first()[i - 1] == rev[i] by {}
        assert(run.0[0] == (rev.first().0, stepped.0));
    }
}

/// The top-most hovered element takes the frame's events: with no element
/// above it hovered, its response carries exactly the button facts of the
/// frame, releases and holds gated on the press having landed on it.
pub proof fn lemma_top_most_hovered_takes_events(rev: Seq<(Id, BoundingBox)>, env: InputEnv, pid: Id, k: int)
    requires
        0 <= k < rev.len(),
        spec_contains(rev[k].1, env.pos),
        forall|m: int| 0 <= m < k ==> !spec_contains(rev[m].1, env.pos),
    ensures
        ({
            let r = spec_run(rev, env, pid, false).0[k].1;
            &&& r.hovered
            &&& r.pressed == env.pressed_now
            &&& r.released == (env.released_now && rev[k].0 == pid)
            &&& r.double_clicked == env.double_clicked
            &&& r.held == (env.mouse_down && rev[k].0 == pid)
        }),
    decreases rev.len(),
{
    let stepped = spec_step(env, pid, false, rev.first().0, rev.first().1);
    let run = spec_run(rev, env, pid, false);
    let rest = spec_run(rev.drop_first(), env, stepped.1, stepped.2);
    assert(run.0 == seq![(rev.first().0, stepped.0)] + rest.0);
    if k == 0 {
        assert(run.0[0] == (rev.first().0, stepped.0));
    } else {
        assert(!spec_contains(rev[0].1, env.pos));
        assert(stepped.1 == pid && stepped.2 == false);
        assert(forall|m: int|
            0 <= m < k - 1 ==> rev.drop_first()[m] == rev[m + 1] && !spec_contains(
                rev.drop_first()[m].1,
                env.pos,
            ));
        assert(rev.drop_first()[k - 1] == rev[k]);
        lemma_run_shape(rev.drop_first(), env, stepped.1, stepped.2);
        lemma_top_most_hovered_takes_events(rev.drop_first(), env, pid, k - 1);
        assert(run.0[k] == rest.0[k - 1]);
    }
}

impl OuiState {
    /// A state with no recorded boxes, the button up and the last release
    /// far in the past.
    pub fn new() -> (s: OuiState)
        ensures
            s.bounding_boxes@.len() == 0,
            !s.mouse_pressed,
            s.mouse_pressed_pos == (Vec2 { x: 0, y: 0 }),
            s.mouse_pressed_id == Id::spec_none(),
            s.mouse_pressed_id.spec_hash() == 0,
            s.mouse_released_time == 0,
    {
        OuiState {
            bounding_boxes: Vec::new(),
            mouse_pressed: false,
            mouse_pressed_pos: Vec2 { x: 0, y: 0 },
            mouse_pressed_id: Id::none(),
            mouse_released_time: 0,
        }
    }
}

/// Resolves one frame of pointer input against the previous frame's hit
/// boxes.  Updates the sticky press state — a press clears the pressed id
/// before the walk fills it — and returns one response per recorded box,
/// in reverse paint order (top-most first).
pub fn resolve_responses(state: &mut OuiState, input: &MouseInput) -> (rs: Vec<(Id, Response)>)
    ensures
        ({
            let env = spec_env(*old(state), *input);
            let run = spec_run(
                old(state).bounding_boxes@.reverse(),
                env,
                if input.pressed_now {
                    Id::spec_none()
                } else {
                    old(state).mouse_pressed_id
                },
                false,
            );
            &&& rs@ == run.0
            &&& final(state).mouse_pressed_id == run.1
            &&& final(state).bounding_boxes == old(state).bounding_boxes
            &&& final(state).mouse_pressed == env.mouse_down
            &&& final(state).mouse_pressed_pos == if input.pressed_now {
                input.pos
            } else {
                old(state).mouse_pressed_pos
            }
            &&& final(state).mouse_released_time == if input.released_now {
                input.now_ms
            } else {
                old(state).mouse_released_time
            }
        }),
{
    let ghost env = spec_env(*state, *input);

    let dx = crate::math::px_sub(state.mouse_pressed_pos.x, input.pos.x);
    let dy = crate::math::px_sub(state.mouse_pressed_pos.y, input.pos.y);
    let dist2 = crate::math::px_add(crate::math::px_mul(dx, dx), crate::math::px_mul(dy, dy));
    let elapsed: u64 = if input.now_ms >= state.mouse_released_time {
        input.now_ms - state.mouse_released_time
    } else {
        0
    };
    let double_clicked = !state.mouse_pressed && input.pressed_now && dist2 < 100 && elapsed < 500;
    proof {
        assert(double_clicked == env.double_clicked);
    }

    if input.pressed_now {
        state.mouse_pressed_pos = input.pos;
        state.mouse_pressed = true;
        state.mouse_pressed_id = Id::none();
    }
    if input.released_now {
        state.mouse_pressed = false;
        state.mouse_released_time = input.now_ms;
    }
    assert(state.mouse_pressed == env.mouse_down);

    let ghost pid0 = if input.pressed_now {
        Id::spec_none()
    } else {
        old(state).mouse_pressed_id
    };
    let ghost rev = state.bounding_boxes@.reverse();
    let mut responses: Vec<(Id, Response)> = Vec::new();
    let mut found_first = false;
    let n = state.bounding_boxes.len();
    let mut i: usize = n;
    while i > 0
        invariant
            n == state.bounding_boxes@.len(),
            i <= n,
            rev == state.bounding_boxes@.reverse(),
            ({
                let part = spec_run(rev.take(n - i), env, pid0, false);
                &&& responses@ == part.0
                &&& state.mouse_pressed_id == part.1
                &&& found_first == part.2
            }),
            pid0 == if input.pressed_now {
                Id::spec_none()
            } else {
                old(state).mouse_pressed_id
            },
            state.mouse_pressed == env.mouse_down,
            double_clicked == env.double_clicked,
            state.bounding_boxes == old(state).bounding_boxes,
            state.mouse_pressed_pos == if input.pressed_now {
                input.pos
            } else {
                old(state).mouse_pressed_pos
            },
            state.mouse_released_time == if input.released_now {
                input.now_ms
            } else {
                old(state).mouse_released_time
            },
            env == spec_env(*old(state), *input),
        decreases i,
    {
        let idx = i - 1;
        let (id, bb) = state.bounding_boxes[idx];
        proof {
            assert(rev[n - i] == state.bounding_boxes@[n - 1 - (n - i)]);
            assert(rev[n - i] == (id, bb));
        }

        let hovered = bb.intersect(input.pos);
        let pressed = !found_first && hovered && input.pressed_now;
        let released = !found_first && hovered && input.released_now && state.mouse_pressed_id
            == id;
        let element_double_clicked = !found_first && hovered && double_clicked;
        let held = !found_first && hovered && state.mouse_pressed && state.mouse_pressed_id == id;

        let relative_mouse_pos = input.pos.minus(bb.top_left);

        if pressed {
            state.mouse_pressed_id = id;
        }
        if pressed || released || element_double_clicked || held {
            found_first = true;
        }

        let resp = Response {
            hovered,
            pressed,
            released,
            double_clicked: element_double_clicked,
            held,
            relative_mouse_pos,
        };
        responses.push((id, resp));

        proof {
            let before = spec_run(rev.take(n - i), env, pid0, false);
            lemma_run_append(rev.take(n - i), seq![(id, bb)], env, pid0, false);
            assert(rev.take(n - i) + seq![(id, bb)] =~= rev.take(n - idx));
            let single = spec_run(seq![(id, bb)], env, before.1, before.2);
            let stepped = spec_step(env, before.1, before.2, id, bb);
            assert(resp == stepped.0);
            assert(seq![(id, bb)].first() == (id, bb));
            let empty_boxes = Seq::<(Id, BoundingBox)>::empty();
            assert(seq![(id, bb)].drop_first() =~= empty_boxes);
            assert(spec_run(empty_boxes, env, stepped.1, stepped.2).0
                == Seq::<(Id, Response)>::empty());
            assert(single.0 == seq![(id, stepped.0)] + Seq::<(Id, Response)>::empty());
            assert(single.0 =~= seq![(id, stepped.0)]);
            assert(single.1 == stepped.1);
            assert(single.2 == stepped.2);
            let whole = spec_run(rev.take(n - idx), env, pid0, false);
            assert(responses@ =~= whole.0);
            assert(state.mouse_pressed_id == whole.1);
            assert(found_first == whole.2);
        }
        i = idx;
    }
    proof {
        assert(rev.take(n - 0) =~= rev);
    }
    responses
}

} // verus!
